use tydra::entry::{Command, Entry, Return, RunMode};
use tydra::group::Group;
use tydra::page::Page;
use tydra::action_file::ActionFile;
use tydra::settings::Settings;
use tydra::validator::{validate, ValidationError};

fn entry(shortcut: char, title: &str) -> Entry {
    Entry {
        title: title.to_string(),
        shortcut,
        command: Command::Nothing,
        shortcut_color: None,
        runner_mode: RunMode::Normal,
        return_to: Return::Quit,
    }
}

fn page(groups: Vec<Group>) -> Page {
    Page {
        title: "Tydra".to_string(),
        header: None,
        footer: None,
        settings: None,
        groups,
    }
}

fn group(entries: Vec<Entry>) -> Group {
    Group { title: None, settings: None, entries }
}

fn action_file(pages: Vec<(&str, Page)>) -> ActionFile {
    ActionFile {
        global_settings: Settings::default(),
        pages: pages.into_iter().map(|(name, page)| (name.to_string(), page)).collect(),
    }
}

#[test]
fn it_validates_missing_pages() {
    let mut linked_a = entry('a', "Go to misspelled page");
    linked_a.return_to = Return::OtherPage("speling_error".into());
    let mut linked_b = entry('b', "Go to absent page");
    linked_b.return_to = Return::OtherPage("does_not_exist".into());
    let actions = action_file(vec![("root", page(vec![group(vec![linked_a, linked_b])]))]);

    let errors = validate(&actions, "root").unwrap_err();

    assert_eq!(errors.len(), 2);
    assert_eq!(
        errors[0],
        ValidationError::UnknownPage {
            page_name: "speling_error".into(),
        },
    );
    assert_eq!(
        errors[1],
        ValidationError::UnknownPage {
            page_name: "does_not_exist".into(),
        },
    );
}

#[test]
fn it_validates_empty_pages() {
    let actions = action_file(vec![
        ("root", page(vec![group(vec![entry('a', "Working")])])),
        ("this_page_is_empty", page(vec![group(vec![])])),
    ]);

    let errors = validate(&actions, "root").unwrap_err();

    assert_eq!(errors.len(), 1);
    assert_eq!(
        errors[0],
        ValidationError::EmptyPage {
            page_name: "this_page_is_empty".into(),
        },
    );
}

#[test]
fn it_validates_no_root_page() {
    let actions = action_file(vec![("potato", page(vec![group(vec![entry('a', "Working")])]))]);

    let errors = validate(&actions, "horseradish").unwrap_err();

    assert_eq!(errors.len(), 1);
    assert_eq!(
        errors[0],
        ValidationError::NoRoot {
            root_name: String::from("horseradish")
        }
    );
}

#[test]
fn it_validates_duplicated_keys() {
    let actions = action_file(vec![
        (
            "bad_page",
            page(vec![
                group(vec![entry('a', "First one")]),
                group(vec![entry('a', "Duplicated shortcut")]),
            ]),
        ),
        (
            "root",
            page(vec![
                group(vec![entry('a', "This is fine")]),
                group(vec![entry('b', "This is fine")]),
            ]),
        ),
    ]);

    let errors = validate(&actions, "root").unwrap_err();

    assert_eq!(errors.len(), 1);
    assert_eq!(
        errors[0],
        ValidationError::DuplicatedShortcut {
            page_name: "bad_page".into(),
            shortcut: 'a',
            title: "Duplicated shortcut".into(),
        }
    );
}

#[test]
fn it_validates_no_exec_with_return() {
    let mut fine = entry('a', "This is fine");
    fine.command = Command::ShellScript("/bin/true".into());
    fine.runner_mode = RunMode::Exec;
    let mut same_page = entry('b', "This makes no sense");
    same_page.command = Command::ShellScript("/bin/true".into());
    same_page.runner_mode = RunMode::Exec;
    same_page.return_to = Return::SamePage;
    let mut other_page = entry('c', "This neither");
    other_page.command = Command::ShellScript("/bin/true".into());
    other_page.runner_mode = RunMode::Exec;
    other_page.return_to = Return::OtherPage("root".into());
    let actions = action_file(vec![("root", page(vec![group(vec![fine, same_page, other_page])]))]);

    let errors = validate(&actions, "root").unwrap_err();

    assert_eq!(errors.len(), 2);
    assert_eq!(
        errors[0],
        ValidationError::ExecWithReturn {
            page_name: "root".into(),
            shortcut: 'b',
        }
    );
    assert_eq!(
        errors[1],
        ValidationError::ExecWithReturn {
            page_name: "root".into(),
            shortcut: 'c',
        }
    );
}

#[test]
fn it_validates_exec_with_no_command() {
    let mut fine = entry('a', "This is fine");
    fine.runner_mode = RunMode::Exec;
    fine.command = Command::ShellScript("/bin/true".into());
    let mut explicit_none = entry('b', "This makes no sense (explicitly no command)");
    explicit_none.runner_mode = RunMode::Exec;
    explicit_none.command = Command::Nothing;
    let mut implicit_none = entry('c', "This neither (no command mentioned)");
    implicit_none.runner_mode = RunMode::Exec;
    let actions =
        action_file(vec![("root", page(vec![group(vec![fine, explicit_none, implicit_none])]))]);

    let errors = validate(&actions, "root").unwrap_err();

    assert_eq!(errors.len(), 2);
    assert_eq!(
        errors[0],
        ValidationError::ExecWithoutCommand {
            page_name: "root".into(),
            shortcut: 'b',
        }
    );
    assert_eq!(
        errors[1],
        ValidationError::ExecWithoutCommand {
            page_name: "root".into(),
            shortcut: 'c',
        }
    );
}

#[test]
fn validation_accepts_a_clean_configuration() {
    let mut to_other = entry('b', "Visit other");
    to_other.return_to = Return::OtherPage("other".into());
    let actions = action_file(vec![
        ("other", page(vec![group(vec![entry('x', "Do nothing")])])),
        ("root", page(vec![group(vec![entry('a', "Quit")]), group(vec![to_other])])),
    ]);

    assert!(validate(&actions, "root").is_ok());
    assert!(actions.validate("root").is_ok());
}

#[test]
fn validation_is_idempotent_on_an_invalid_configuration() {
    let mut bad_link = entry('a', "Broken link");
    bad_link.return_to = Return::OtherPage("nowhere".into());
    let mut duplicate = entry('a', "Same shortcut");
    let mut exec_both = entry('c', "Exec with everything wrong");
    exec_both.runner_mode = RunMode::Exec;
    exec_both.return_to = Return::SamePage;
    duplicate.command = Command::Nothing;
    let actions = action_file(vec![
        ("empty", page(vec![group(vec![])])),
        ("root", page(vec![group(vec![bad_link, duplicate, exec_both])])),
    ]);

    let first = validate(&actions, "root").unwrap_err();
    let second = validate(&actions, "root").unwrap_err();

    assert_eq!(first, second);
    assert!(!first.is_empty());
}

#[test]
fn no_root_scenario_yields_exactly_one_error() {
    let actions = action_file(vec![("main", page(vec![group(vec![entry('a', "Fine")])]))]);

    let errors = validate(&actions, "root").unwrap_err();

    assert_eq!(
        errors,
        vec![ValidationError::NoRoot { root_name: "root".into() }],
    );
}

#[test]
fn exec_with_return_true_yields_exactly_one_error() {
    let mut bad = entry('e', "Exec that returns");
    bad.command = Command::ShellScript("true".into());
    bad.runner_mode = RunMode::Exec;
    bad.return_to = Return::SamePage;
    let actions = action_file(vec![("root", page(vec![group(vec![entry('a', "Fine"), bad])]))]);

    let errors = validate(&actions, "root").unwrap_err();

    assert_eq!(
        errors,
        vec![ValidationError::ExecWithReturn { page_name: "root".into(), shortcut: 'e' }],
    );
}

#[test]
fn exec_without_command_yields_exactly_one_error() {
    let mut bad = entry('e', "Exec with nothing to run");
    bad.runner_mode = RunMode::Exec;
    let actions = action_file(vec![("root", page(vec![group(vec![entry('a', "Fine"), bad])]))]);

    let errors = validate(&actions, "root").unwrap_err();

    assert_eq!(
        errors,
        vec![ValidationError::ExecWithoutCommand { page_name: "root".into(), shortcut: 'e' }],
    );
}

#[test]
fn every_later_duplicate_occurrence_is_reported_in_order() {
    let actions = action_file(vec![(
        "root",
        page(vec![
            group(vec![entry('a', "First"), entry('a', "Second")]),
            group(vec![entry('a', "Third"), entry('b', "Fine")]),
        ]),
    )]);

    let errors = validate(&actions, "root").unwrap_err();

    assert_eq!(
        errors,
        vec![
            ValidationError::DuplicatedShortcut {
                page_name: "root".into(),
                shortcut: 'a',
                title: "Second".into(),
            },
            ValidationError::DuplicatedShortcut {
                page_name: "root".into(),
                shortcut: 'a',
                title: "Third".into(),
            },
        ],
    );
}

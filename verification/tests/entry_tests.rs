use tydra::entry::{Action, Command, Entry, Return, RunMode};
use tydra::settings::Color;

fn entry(shortcut: char, title: &str) -> Entry {
    Entry {
        title: title.to_string(),
        shortcut,
        command: Command::Nothing,
        shortcut_color: None,
        runner_mode: RunMode::Normal,
        return_to: Return::Quit,
    }
}

#[test]
fn it_displays_commands() {
    let script = Command::ShellScript(String::from("echo foo bar baz"));
    let executable = Command::Executable {
        name: String::from("ls"),
        args: vec![String::from("-l"), String::from("/")],
    };
    let no_args = Command::Executable {
        name: String::from("/bin/true"),
        args: vec![],
    };
    let none = Command::Nothing;

    assert_eq!(&script.display_string(), "echo foo bar baz");
    assert_eq!(&executable.display_string(), "ls [\"-l\", \"/\"]");
    assert_eq!(&no_args.display_string(), "/bin/true");
    assert_eq!(&none.display_string(), "(Nothing)");
}

#[test]
fn displayed_arguments_escape_quotes_and_backslashes() {
    let tricky = Command::Executable {
        name: String::from("echo"),
        args: vec![String::from("say \"hi\""), String::from("back\\slash")],
    };

    assert_eq!(
        &tricky.display_string(),
        "echo [\"say \\\"hi\\\"\", \"back\\\\slash\"]"
    );
}

#[test]
fn boolean_returns_map_to_same_page_and_quit() {
    assert_eq!(Return::from_bool(true), Return::SamePage);
    assert_eq!(Return::from_bool(false), Return::Quit);
    assert_eq!(Return::default(), Return::Quit);
    assert_eq!(
        Return::from_page_name("foobar"),
        Return::OtherPage("foobar".into())
    );
}

#[test]
fn absent_command_and_mode_default_to_no_op_and_normal() {
    assert_eq!(Command::default(), Command::Nothing);
    assert!(matches!(RunMode::default(), RunMode::Normal));
    assert!(RunMode::Wait.is_wait());
    assert!(!RunMode::Normal.is_wait());
    assert!(!RunMode::Exec.is_wait());
    assert!(!RunMode::Background.is_wait());
}

#[test]
fn normal_and_wait_entries_resolve_to_foreground_runs() {
    let mut normal = entry('a', "Run something");
    normal.command = Command::ShellScript("ls".into());
    normal.return_to = Return::SamePage;
    let action = Action::from_entry(&normal);
    assert!(matches!(
        action,
        Action::Run { command: Command::ShellScript(_), return_to: Return::SamePage, wait: false }
    ));

    let mut waiting = entry('b', "Run and wait");
    waiting.runner_mode = RunMode::Wait;
    let action = Action::from_entry(&waiting);
    assert!(matches!(action, Action::Run { wait: true, .. }));
}

#[test]
fn exec_and_background_entries_resolve_to_their_own_actions() {
    let mut exec = entry('a', "Replace the process");
    exec.command = Command::ShellScript("top".into());
    exec.runner_mode = RunMode::Exec;
    assert!(matches!(
        Action::from_entry(&exec),
        Action::RunExec { command: Command::ShellScript(_) }
    ));

    let mut background = entry('b', "Fire and forget");
    background.command = Command::ShellScript("xterm".into());
    background.runner_mode = RunMode::Background;
    background.return_to = Return::OtherPage("other".into());
    assert!(matches!(
        Action::from_entry(&background),
        Action::RunBackground { return_to: Return::OtherPage(_), .. }
    ));
}

#[test]
fn entry_accessors_hand_out_the_fields() {
    let mut e = entry('q', "Quit the menu");
    e.shortcut_color = Some(Color::Cyan);
    assert_eq!(e.shortcut(), 'q');
    assert_eq!(e.title(), "Quit the menu");
    assert_eq!(e.shortcut_color(), Some(Color::Cyan));
    assert_eq!(e.return_to(), &Return::Quit);
    assert_eq!(e.command(), &Command::Nothing);
    assert!(matches!(e.runner_mode(), RunMode::Normal));
}

#[test]
fn the_no_op_command_resolves_to_no_invocation() {
    assert!(Command::Nothing.invocation().is_none());
}

#[test]
fn shell_scripts_run_inside_the_shell() {
    let invocation = Command::ShellScript("echo hello".into()).invocation().unwrap();
    assert_eq!(invocation.program, "/bin/sh");
    assert_eq!(invocation.args, vec!["-c".to_string(), "echo hello".to_string()]);
}

#[test]
fn executables_run_as_themselves() {
    let command = Command::Executable {
        name: "cat".into(),
        args: vec!["file".into()],
    };
    let invocation = command.invocation().unwrap();
    assert_eq!(invocation.program, "cat");
    assert_eq!(invocation.args, vec!["file".to_string()]);
}

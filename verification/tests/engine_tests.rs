use tydra::action_file::ActionFile;
use tydra::engine::{
    check_links, check_state, step, Directive, EngineState, Event, Key, NavTarget, RunOutcome,
    RuntimeError,
};
use tydra::engine::{action_for_key, is_confirmation_key};
use tydra::entry::{Action, Command, Entry, Return, RunMode};
use tydra::group::Group;
use tydra::page::Page;
use tydra::settings::{Color, Layout, Settings};
use tydra::validator::validate;

fn entry(shortcut: char, title: &str) -> Entry {
    Entry {
        title: title.to_string(),
        shortcut,
        command: Command::Nothing,
        shortcut_color: None,
        runner_mode: RunMode::Normal,
        return_to: Return::Quit,
    }
}

fn page(groups: Vec<Group>) -> Page {
    Page {
        title: "Tydra".to_string(),
        header: None,
        footer: None,
        settings: None,
        groups,
    }
}

fn group(entries: Vec<Entry>) -> Group {
    Group { title: None, settings: None, entries }
}

/// A configuration with page "root" holding 'a' → Quit and 'b' →
/// OtherPage("other"), and page "other" carrying its own layout override.
fn end_to_end_actions() -> ActionFile {
    let quit = entry('a', "Leave");
    let mut visit = entry('b', "Visit the other page");
    visit.return_to = Return::OtherPage("other".into());
    let mut other = page(vec![group(vec![entry('x', "Do nothing")])]);
    other.settings = Some(Settings {
        layout: Some(Layout::Columns),
        shortcut_color: None,
    });
    ActionFile {
        global_settings: Settings {
            layout: None,
            shortcut_color: Some(Color::Green),
        },
        pages: vec![("other".to_string(), other), ("root".to_string(), page(vec![group(vec![
            quit, visit,
        ])]))],
    }
}

#[test]
fn pressing_the_quit_entry_terminates_the_session() {
    let actions = end_to_end_actions();
    assert!(validate(&actions, "root").is_ok());
    assert!(check_links(&actions));
    let root = actions.page_index("root").unwrap();

    let state = EngineState::start(root);
    assert!(check_state(&actions, &state));

    // 'a' selects the no-op quit entry: the engine asks for a foreground
    // run of the no-op command.
    let (state, directive) = step(&actions, true, state, Event::KeyPressed(Key::Char('a')));
    assert!(matches!(directive, Directive::RunForeground { command: Command::Nothing }));
    assert!(matches!(
        state,
        EngineState::RunningCommand { nav: NavTarget::Quit, wait: false, .. }
    ));

    // The no-op spawns nothing and succeeds at once; its quit rule ends
    // the session cleanly.
    let (state, directive) = step(
        &actions,
        true,
        state,
        Event::CommandFinished(RunOutcome::NoProcess),
    );
    assert!(matches!(state, EngineState::Terminated));
    assert!(matches!(directive, Directive::Quit));
}

#[test]
fn pressing_the_link_entry_switches_pages_and_resolves_settings() {
    let actions = end_to_end_actions();
    assert!(validate(&actions, "root").is_ok());
    assert!(check_links(&actions));
    let root = actions.page_index("root").unwrap();
    let other = actions.page_index("other").unwrap();

    let state = EngineState::start(root);
    let (state, _) = step(&actions, true, state, Event::KeyPressed(Key::Char('b')));
    assert!(matches!(state, EngineState::RunningCommand { nav: NavTarget::GoTo(t), .. } if t == other));

    let (state, directive) = step(
        &actions,
        true,
        state,
        Event::CommandFinished(RunOutcome::NoProcess),
    );
    assert_eq!(state, EngineState::AwaitingInput { page: other });
    assert!(matches!(directive, Directive::Render));

    // The new page's settings resolve over the global defaults: its own
    // layout override wins, the global shortcut color shows through.
    let resolved = actions
        .settings_accumulator()
        .with_page(actions.get_page("other"));
    assert_eq!(resolved.layout, Layout::Columns);
    assert_eq!(resolved.shortcut_color, Color::Green);
}

#[test]
fn a_no_op_entry_in_normal_mode_reports_success_without_a_process() {
    let mut stay = entry('n', "Do nothing and stay");
    stay.return_to = Return::SamePage;
    let actions = ActionFile {
        global_settings: Settings::default(),
        pages: vec![("root".to_string(), page(vec![group(vec![stay])]))],
    };
    assert!(validate(&actions, "root").is_ok());
    assert!(check_links(&actions));
    let root = actions.page_index("root").unwrap();

    let (state, directive) = step(
        &actions,
        true,
        EngineState::start(root),
        Event::KeyPressed(Key::Char('n')),
    );
    // The engine hands the host the no-op command, which resolves to no
    // invocation: nothing is ever spawned for it.
    match directive {
        Directive::RunForeground { command } => assert!(command.invocation().is_none()),
        other => panic!("expected a foreground run, got {:?}", other),
    }

    // The host reports the immediate success and the session continues on
    // the same page.
    let (state, directive) = step(
        &actions,
        true,
        state,
        Event::CommandFinished(RunOutcome::NoProcess),
    );
    assert_eq!(state, EngineState::AwaitingInput { page: root });
    assert!(matches!(directive, Directive::Render));
}

#[test]
fn a_failing_command_aborts_unless_exit_statuses_are_ignored() {
    let mut failing = entry('f', "Fail");
    failing.command = Command::ShellScript("false".into());
    failing.return_to = Return::SamePage;
    let actions = ActionFile {
        global_settings: Settings::default(),
        pages: vec![("root".to_string(), page(vec![group(vec![failing])]))],
    };
    let root = actions.page_index("root").unwrap();
    let failed = RunOutcome::Exited { success: false, exit_code: Some(3) };

    // With exit statuses honored, the failure is fatal and carries the code.
    let (state, _) = step(
        &actions,
        true,
        EngineState::start(root),
        Event::KeyPressed(Key::Char('f')),
    );
    let (state, directive) = step(&actions, true, state, Event::CommandFinished(failed));
    assert_eq!(
        state,
        EngineState::Failed { error: RuntimeError::CommandFailed { exit_code: 3 } }
    );
    assert!(matches!(directive, Directive::Fail));

    // With the ignore option set, the session continues on the same page.
    let (state, _) = step(
        &actions,
        false,
        EngineState::start(root),
        Event::KeyPressed(Key::Char('f')),
    );
    let (state, _) = step(&actions, false, state, Event::CommandFinished(failed));
    assert_eq!(state, EngineState::AwaitingInput { page: root });
}

#[test]
fn waited_commands_pause_for_a_confirmation_key() {
    let mut waiting = entry('w', "Run and wait");
    waiting.command = Command::ShellScript("ls".into());
    waiting.runner_mode = RunMode::Wait;
    waiting.return_to = Return::SamePage;
    let actions = ActionFile {
        global_settings: Settings::default(),
        pages: vec![("root".to_string(), page(vec![group(vec![waiting])]))],
    };
    let root = actions.page_index("root").unwrap();

    let (state, _) = step(
        &actions,
        true,
        EngineState::start(root),
        Event::KeyPressed(Key::Char('w')),
    );
    let (state, directive) = step(
        &actions,
        true,
        state,
        Event::CommandFinished(RunOutcome::Exited { success: true, exit_code: Some(0) }),
    );
    assert!(matches!(state, EngineState::AwaitingConfirmation { .. }));
    assert!(matches!(directive, Directive::AwaitConfirmation));

    // A key that confirms nothing keeps waiting; enter proceeds.
    let (state, _) = step(&actions, true, state, Event::ConfirmationKey(Key::Char('x')));
    assert!(matches!(state, EngineState::AwaitingConfirmation { .. }));
    let (state, _) = step(&actions, true, state, Event::ConfirmationKey(Key::Char('\n')));
    assert_eq!(state, EngineState::AwaitingInput { page: root });
}

#[test]
fn escape_redraw_and_pause_keys_are_decoded() {
    let actions = end_to_end_actions();
    let root = actions.page_index("root").unwrap();
    let current = &actions.pages[root].1;

    assert!(matches!(action_for_key(current, Key::Esc), Some(Action::Exit)));
    assert!(matches!(action_for_key(current, Key::Ctrl('l')), Some(Action::Redraw)));
    assert!(matches!(action_for_key(current, Key::Ctrl('z')), Some(Action::Pause)));
    assert!(matches!(action_for_key(current, Key::Ctrl('c')), None));
    assert!(matches!(action_for_key(current, Key::Char('?')), None));
    assert!(matches!(action_for_key(current, Key::Other), None));

    let state = EngineState::start(root);
    let (state, directive) = step(&actions, true, state, Event::KeyPressed(Key::Ctrl('l')));
    assert_eq!(state, EngineState::AwaitingInput { page: root });
    assert!(matches!(directive, Directive::RestartDisplay));
    let (state, directive) = step(&actions, true, state, Event::KeyPressed(Key::Ctrl('z')));
    assert_eq!(state, EngineState::AwaitingInput { page: root });
    assert!(matches!(directive, Directive::PauseProcess));
    let (state, directive) = step(&actions, true, state, Event::KeyPressed(Key::Esc));
    assert_eq!(state, EngineState::Terminated);
    assert!(matches!(directive, Directive::Quit));
}

#[test]
fn confirmation_keys_are_enter_and_escape() {
    assert!(is_confirmation_key(Key::Char('\n')));
    assert!(is_confirmation_key(Key::Esc));
    assert!(!is_confirmation_key(Key::Char(' ')));
    assert!(!is_confirmation_key(Key::Ctrl('l')));
    assert!(!is_confirmation_key(Key::Other));
}

#[test]
fn the_input_stream_closing_is_fatal() {
    let actions = end_to_end_actions();
    let root = actions.page_index("root").unwrap();

    let (state, directive) = step(&actions, true, EngineState::start(root), Event::InputClosed);
    assert_eq!(state, EngineState::Failed { error: RuntimeError::InputClosed });
    assert!(matches!(directive, Directive::Fail));
}

#[test]
fn background_entries_spawn_detached_and_navigate_at_once() {
    let mut background = entry('g', "Start something detached");
    background.command = Command::ShellScript("xclock".into());
    background.runner_mode = RunMode::Background;
    background.return_to = Return::SamePage;
    let actions = ActionFile {
        global_settings: Settings::default(),
        pages: vec![("root".to_string(), page(vec![group(vec![background])]))],
    };
    let root = actions.page_index("root").unwrap();

    let (state, directive) = step(
        &actions,
        true,
        EngineState::start(root),
        Event::KeyPressed(Key::Char('g')),
    );
    assert!(matches!(directive, Directive::SpawnBackground { .. }));

    // A successful spawn continues without any display interruption; a
    // failed spawn is fatal.
    let (resumed, _) = step(&actions, true, state, Event::BackgroundSpawned(true));
    assert_eq!(resumed, EngineState::AwaitingInput { page: root });
    let (failed, _) = step(&actions, true, state, Event::BackgroundSpawned(false));
    assert_eq!(failed, EngineState::Failed { error: RuntimeError::SpawnFailed });
}

#[test]
fn a_failed_exec_is_fatal() {
    let mut exec = entry('e', "Replace the process");
    exec.command = Command::ShellScript("top".into());
    exec.runner_mode = RunMode::Exec;
    let actions = ActionFile {
        global_settings: Settings::default(),
        pages: vec![("root".to_string(), page(vec![group(vec![exec])]))],
    };
    let root = actions.page_index("root").unwrap();

    let (state, directive) = step(
        &actions,
        true,
        EngineState::start(root),
        Event::KeyPressed(Key::Char('e')),
    );
    assert!(matches!(state, EngineState::Replacing { .. }));
    assert!(matches!(directive, Directive::ReplaceProcess { .. }));

    let (state, directive) = step(&actions, true, state, Event::ExecReturned);
    assert_eq!(state, EngineState::Failed { error: RuntimeError::ExecFailed });
    assert!(matches!(directive, Directive::Fail));
}

#[test]
fn link_checking_notices_a_broken_link() {
    let mut broken = entry('a', "Broken");
    broken.return_to = Return::OtherPage("nowhere".into());
    let actions = ActionFile {
        global_settings: Settings::default(),
        pages: vec![("root".to_string(), page(vec![group(vec![broken])]))],
    };
    assert!(!check_links(&actions));
    assert!(validate(&actions, "root").is_err());
}

//! The execution engine: the single-threaded state machine behind the menu's
//! main loop.
//!
//! The host owns the display surface, the keyboard stream and the child
//! processes; this module owns every decision. Each loop iteration the host
//! hands the engine one event — a key, a command's outcome, a spawn result —
//! and the engine answers with its next state and a directive telling the
//! host what to perform. Pages are referred to by their index in the
//! configuration; navigation rules are resolved to indices when an entry is
//! selected, which is sound because the engine only runs on configurations
//! whose links the validator has checked.

use vstd::prelude::*;

use crate::action_file::{
    ActionFile, ActionFileV, lemma_page_index_some, spec_has_page, spec_page_index,
};
use crate::entry::{Action, ActionV, Command, CommandV, Entry, EntryV, Return, ReturnV,
    spec_action_of};
use crate::page::{Page, PageV, find_entry, find_entry_from, flat_entries};
use crate::validator::{
    spec_entries_errors_from, spec_entry_errors, spec_errors, spec_link_errors,
    spec_page_errors, spec_pages_errors_from,
};

verus! {

/// A decoded keyboard event, as the host's input decoder hands it over.
#[derive(Debug, Clone, Copy, PartialEq, Eq, Structural)]
pub enum Key {
    Esc,
    Ctrl(char),
    Char(char),
    Other,
}

/// Where navigation goes after an entry's command is done, with page links
/// already resolved to indices.
#[derive(Debug, Clone, Copy, PartialEq, Eq, Structural)]
pub enum NavTarget {
    /// Leave the menu.
    Quit,
    /// Stay on the current page.
    Stay,
    /// Switch to the page at this index.
    GoTo(usize),
}

/// A fatal runtime condition; any of these ends the session at once.
#[derive(Debug, Clone, Copy, PartialEq, Eq, Structural)]
pub enum RuntimeError {
    /// A foreground command exited unsuccessfully and exit statuses are not
    /// ignored; carries the exit code, or 1 when the status gave none.
    CommandFailed { exit_code: i32 },
    /// A command could not be spawned.
    SpawnFailed,
    /// Replacing the process image failed.
    ExecFailed,
    /// The keyboard input stream closed without an actionable key.
    InputClosed,
}

/// The outcome the host reports after performing a foreground run.
#[derive(Debug, Clone, Copy, PartialEq, Eq)]
pub enum RunOutcome {
    /// The command was the no-op: nothing was spawned, an immediate success.
    NoProcess,
    /// A child process ran and exited.
    Exited { success: bool, exit_code: Option<i32> },
    /// The child could not be spawned.
    SpawnFailed,
}

/// One state of the engine's loop.
#[derive(Debug, Clone, Copy, PartialEq, Eq)]
pub enum EngineState {
    /// Showing a page and waiting for one key.
    AwaitingInput { page: usize },
    /// A foreground command is running; the entry's navigation target and
    /// confirmation request are remembered for when it finishes.
    RunningCommand { page: usize, nav: NavTarget, wait: bool },
    /// A background command is being spawned.
    SpawningBackground { page: usize, nav: NavTarget },
    /// The process image is being replaced; stepped again only when the
    /// replacement failed.
    Replacing { page: usize },
    /// Waiting for the confirmation keypress after a waited command.
    AwaitingConfirmation { page: usize, nav: NavTarget },
    /// The session is over, cleanly.
    Terminated,
    /// The session ended with a fatal runtime error.
    Failed { error: RuntimeError },
}

/// One event the host feeds back into the engine.
#[derive(Debug, Clone, Copy, PartialEq, Eq)]
pub enum Event {
    /// A key was pressed while a page was awaiting input.
    KeyPressed(Key),
    /// The foreground run finished with the given outcome.
    CommandFinished(RunOutcome),
    /// The background spawn succeeded (true) or failed (false).
    BackgroundSpawned(bool),
    /// Replacing the process image returned, which only failure does.
    ExecReturned,
    /// A key was pressed while awaiting confirmation.
    ConfirmationKey(Key),
    /// The keyboard input stream closed.
    InputClosed,
}

/// What the host must perform after a step.
#[derive(Debug)]
pub enum Directive {
    /// Render the current page and wait for one key.
    Render,
    /// Tear the display surface down, run the command in the foreground,
    /// blocking until it exits, and report the outcome.
    RunForeground { command: Command },
    /// Spawn the command detached, without touching the display surface,
    /// and report whether the spawn succeeded.
    SpawnBackground { command: Command },
    /// Tear the display surface down and replace the process image with the
    /// command; report back only if that fails.
    ReplaceProcess { command: Command },
    /// Tear the display surface down and reopen it, then render again.
    RestartDisplay,
    /// Tear the display surface down, stop the host process until it is
    /// resumed, reopen the display, then render again.
    PauseProcess,
    /// Show the confirmation prompt and wait for a confirmation key.
    AwaitConfirmation,
    /// Restore the terminal and leave: the session is over.
    Quit,
    /// Restore the terminal and surface the fatal error in the state.
    Fail,
}

/// The mathematical model of a `Directive`.
#[verifier::ext_equal]
pub enum DirectiveV {
    Render,
    RunForeground { command: CommandV },
    SpawnBackground { command: CommandV },
    ReplaceProcess { command: CommandV },
    RestartDisplay,
    PauseProcess,
    AwaitConfirmation,
    Quit,
    Fail,
}

impl View for Directive {
    type V = DirectiveV;

    open spec fn view(&self) -> DirectiveV {
        match *self {
            Directive::Render => DirectiveV::Render,
            Directive::RunForeground { command } => DirectiveV::RunForeground {
                command: command@,
            },
            Directive::SpawnBackground { command } => DirectiveV::SpawnBackground {
                command: command@,
            },
            Directive::ReplaceProcess { command } => DirectiveV::ReplaceProcess {
                command: command@,
            },
            Directive::RestartDisplay => DirectiveV::RestartDisplay,
            Directive::PauseProcess => DirectiveV::PauseProcess,
            Directive::AwaitConfirmation => DirectiveV::AwaitConfirmation,
            Directive::Quit => DirectiveV::Quit,
            Directive::Fail => DirectiveV::Fail,
        }
    }
}

/// Whether an entry's navigation rule only names pages that exist.
pub open spec fn entry_link_ok(af: ActionFileV, e: EntryV) -> bool {
    e.return_to matches ReturnV::OtherPage(target) ==> spec_has_page(af, target)
}

/// Whether every navigation rule of every entry of the configuration names
/// an existing page.
pub open spec fn links_closed(af: ActionFileV) -> bool {
    forall|i: int, j: int|
        0 <= i < af.pages.len() && 0 <= j < flat_entries(af.pages[i].1).len() ==> entry_link_ok(
            af,
            #[trigger] flat_entries(af.pages[i].1)[j],
        )
}

/// Whether a navigation target's page index lies within the configuration.
pub open spec fn nav_wf(af: ActionFileV, nav: NavTarget) -> bool {
    nav matches NavTarget::GoTo(target) ==> target < af.pages.len()
}

/// Whether a state's page indices lie within the configuration.
pub open spec fn state_wf(af: ActionFileV, s: EngineState) -> bool {
    match s {
        EngineState::AwaitingInput { page } => page < af.pages.len(),
        EngineState::RunningCommand { page, nav, wait: _ } => page < af.pages.len() && nav_wf(
            af,
            nav,
        ),
        EngineState::SpawningBackground { page, nav } => page < af.pages.len() && nav_wf(af, nav),
        EngineState::Replacing { page } => page < af.pages.len(),
        EngineState::AwaitingConfirmation { page, nav } => page < af.pages.len() && nav_wf(af, nav),
        EngineState::Terminated => true,
        EngineState::Failed { error: _ } => true,
    }
}

/// The page index a navigation rule resolves to: quitting and staying map
/// directly, and a named page maps to its first index. A name that does not
/// exist quits; the engine never produces one from a link-closed
/// configuration.
pub open spec fn spec_nav_of(af: ActionFileV, r: ReturnV) -> NavTarget {
    match r {
        ReturnV::Quit => NavTarget::Quit,
        ReturnV::SamePage => NavTarget::Stay,
        ReturnV::OtherPage(name) => match spec_page_index(af, name) {
            Some(i) => NavTarget::GoTo(i as usize),
            None => NavTarget::Quit,
        },
    }
}

/// The action a key resolves to while a page is shown: escape leaves, the
/// dedicated control keys redraw or pause, a character selects the first
/// entry carrying it as shortcut, and any other key does nothing.
pub open spec fn spec_action_for_key(p: PageV, key: Key) -> Option<ActionV> {
    match key {
        Key::Esc => Some(ActionV::Exit),
        Key::Ctrl(c) => if c == 'l' {
            Some(ActionV::Redraw)
        } else if c == 'z' {
            Some(ActionV::Pause)
        } else {
            None
        },
        Key::Char(c) => match find_entry(p, c) {
            Some(e) => Some(spec_action_of(e)),
            None => None,
        },
        Key::Other => None,
    }
}

/// Whether a key confirms the "press enter to continue" prompt: enter does,
/// and escape is accepted too.
pub open spec fn spec_is_confirmation_key(key: Key) -> bool {
    key == Key::Char('\n') || key == Key::Esc
}

/// The state and directive that follow once a command is done and its
/// navigation target applies.
pub open spec fn spec_navigate(page: usize, nav: NavTarget) -> (EngineState, DirectiveV) {
    match nav {
        NavTarget::Quit => (EngineState::Terminated, DirectiveV::Quit),
        NavTarget::Stay => (EngineState::AwaitingInput { page }, DirectiveV::Render),
        NavTarget::GoTo(target) => (EngineState::AwaitingInput { page: target },
        DirectiveV::Render),
    }
}

/// What follows a successful foreground run: the confirmation prompt when
/// the entry asked to wait, navigation otherwise.
pub open spec fn spec_after_run(page: usize, nav: NavTarget, wait: bool) -> (
    EngineState,
    DirectiveV,
) {
    if wait {
        (EngineState::AwaitingConfirmation { page, nav }, DirectiveV::AwaitConfirmation)
    } else {
        spec_navigate(page, nav)
    }
}

/// The exit code reported for a failed command: the status's own code, or 1
/// when the status carries none.
pub open spec fn spec_exit_code(code: Option<i32>) -> i32 {
    match code {
        Some(code) => code,
        None => 1,
    }
}

/// The complete transition relation of the engine: from a state and an
/// event to the next state and the host's directive.
///
/// An event that does not fit the state leaves the state unchanged; the
/// input stream closing is fatal in every state, and a finished or failed
/// session answers every further event with its final directive.
pub open spec fn spec_step(
    af: ActionFileV,
    error_on_failure: bool,
    state: EngineState,
    event: Event,
) -> (EngineState, DirectiveV) {
    match (state, event) {
        (_, Event::InputClosed) => (
            EngineState::Failed { error: RuntimeError::InputClosed },
            DirectiveV::Fail,
        ),
        (EngineState::Terminated, _) => (EngineState::Terminated, DirectiveV::Quit),
        (EngineState::Failed { error }, _) => (EngineState::Failed { error }, DirectiveV::Fail),
        (EngineState::AwaitingInput { page }, Event::KeyPressed(key)) => {
            match spec_action_for_key(af.pages[page as int].1, key) {
                Some(ActionV::Exit) => (EngineState::Terminated, DirectiveV::Quit),
                Some(ActionV::Redraw) => (state, DirectiveV::RestartDisplay),
                Some(ActionV::Pause) => (state, DirectiveV::PauseProcess),
                Some(ActionV::Run { command, return_to, wait }) => (
                    EngineState::RunningCommand { page, nav: spec_nav_of(af, return_to), wait },
                    DirectiveV::RunForeground { command },
                ),
                Some(ActionV::RunExec { command }) => (
                    EngineState::Replacing { page },
                    DirectiveV::ReplaceProcess { command },
                ),
                Some(ActionV::RunBackground { command, return_to }) => (
                    EngineState::SpawningBackground { page, nav: spec_nav_of(af, return_to) },
                    DirectiveV::SpawnBackground { command },
                ),
                None => (state, DirectiveV::Render),
            }
        },
        (EngineState::RunningCommand { page, nav, wait }, Event::CommandFinished(outcome)) => {
            match outcome {
                RunOutcome::SpawnFailed => (
                    EngineState::Failed { error: RuntimeError::SpawnFailed },
                    DirectiveV::Fail,
                ),
                RunOutcome::NoProcess => spec_after_run(page, nav, wait),
                RunOutcome::Exited { success, exit_code } => if !success && error_on_failure {
                    (
                        EngineState::Failed {
                            error: RuntimeError::CommandFailed {
                                exit_code: spec_exit_code(exit_code),
                            },
                        },
                        DirectiveV::Fail,
                    )
                } else {
                    spec_after_run(page, nav, wait)
                },
            }
        },
        (EngineState::SpawningBackground { page, nav }, Event::BackgroundSpawned(ok)) => if ok {
            spec_navigate(page, nav)
        } else {
            (EngineState::Failed { error: RuntimeError::SpawnFailed }, DirectiveV::Fail)
        },
        (EngineState::Replacing { page: _ }, Event::ExecReturned) => (
            EngineState::Failed { error: RuntimeError::ExecFailed },
            DirectiveV::Fail,
        ),
        (EngineState::AwaitingConfirmation { page, nav }, Event::ConfirmationKey(key)) => {
            if spec_is_confirmation_key(key) {
                spec_navigate(page, nav)
            } else {
                (state, DirectiveV::AwaitConfirmation)
            }
        },
        _ => (state, DirectiveV::Render),
    }
}

/// The first entry found under a shortcut is one of the page's entries.
proof fn lemma_find_entry_is_member(entries: Seq<EntryV>, shortcut: char, i: int)
    ensures
        find_entry_from(entries, shortcut, i) matches Some(e) ==> exists|j: int|
            i <= j < entries.len() && entries[j] == e,
    decreases entries.len() - i,
{
    if 0 <= i < entries.len() {
        if entries[i].shortcut == shortcut {
        } else {
            lemma_find_entry_is_member(entries, shortcut, i + 1);
        }
    }
}

/// The action a key resolves to on the given page, or nothing when the key
/// is not actionable there.
pub fn action_for_key(page: &Page, key: Key) -> (r: Option<Action>)
    ensures
        r is Some <==> spec_action_for_key(page@, key) is Some,
        r matches Some(a) ==> spec_action_for_key(page@, key) == Some(a@),
{
    match key {
        Key::Esc => Some(Action::Exit),
        Key::Ctrl(c) => if c == 'l' {
            Some(Action::Redraw)
        } else if c == 'z' {
            Some(Action::Pause)
        } else {
            None
        },
        Key::Char(c) => match page.entry_with_shortcut(c) {
            Some(e) => Some(Action::from_entry(e)),
            None => None,
        },
        Key::Other => None,
    }
}

/// Whether a key confirms the "press enter to continue" prompt.
pub fn is_confirmation_key(key: Key) -> (r: bool)
    ensures
        r == spec_is_confirmation_key(key),
{
    match key {
        Key::Char(c) => c == '\n',
        Key::Esc => true,
        _ => false,
    }
}

/// Resolves a navigation rule to a target with the page link turned into an
/// index; the rule must only name pages that exist.
fn resolve_nav(actions: &ActionFile, return_to: &Return) -> (r: NavTarget)
    requires
        return_to@ matches ReturnV::OtherPage(target) ==> spec_has_page(actions@, target),
    ensures
        r == spec_nav_of(actions@, return_to@),
        nav_wf(actions@, r),
{
    match return_to {
        Return::Quit => NavTarget::Quit,
        Return::SamePage => NavTarget::Stay,
        Return::OtherPage(name) => {
            proof {
                lemma_page_index_some(actions@, name@);
            }
            match actions.page_index(name.as_str()) {
                Some(index) => NavTarget::GoTo(index),
                None => unreached(),
            }
        },
    }
}

impl EngineState {
    /// The state the engine starts in: showing the page at the given index.
    pub fn start(page: usize) -> (r: EngineState)
        ensures
            r == (EngineState::AwaitingInput { page }),
    {
        EngineState::AwaitingInput { page }
    }
}

/// Performs one transition of the engine: from the current state and the
/// event the host observed to the next state and the directive the host
/// must perform. The configuration must be link-closed — the validator
/// guarantees that for every configuration it passes — and the state must
/// belong to it; the resulting state belongs to it again.
pub fn step(actions: &ActionFile, error_on_failure: bool, state: EngineState, event: Event) -> (r: (
    EngineState,
    Directive,
))
    requires
        links_closed(actions@),
        state_wf(actions@, state),
    ensures
        r.0 == spec_step(actions@, error_on_failure, state, event).0,
        r.1@ == spec_step(actions@, error_on_failure, state, event).1,
        state_wf(actions@, r.0),
{
    let ghost af = actions@;
    match (state, event) {
        (_, Event::InputClosed) => (
            EngineState::Failed { error: RuntimeError::InputClosed },
            Directive::Fail,
        ),
        (EngineState::Terminated, _) => (EngineState::Terminated, Directive::Quit),
        (EngineState::Failed { error }, _) => (EngineState::Failed { error }, Directive::Fail),
        (EngineState::AwaitingInput { page }, Event::KeyPressed(key)) => {
            let current: &Page = &actions.pages[page].1;
            proof {
                assert(af.pages[page as int] == (
                    actions.pages@[page as int].0@,
                    actions.pages@[page as int].1@,
                ));
                assert(current@ == af.pages[page as int].1);
            }
            match action_for_key(current, key) {
                Some(Action::Exit) => (EngineState::Terminated, Directive::Quit),
                Some(Action::Redraw) => (state, Directive::RestartDisplay),
                Some(Action::Pause) => (state, Directive::PauseProcess),
                Some(Action::Run { command, return_to, wait }) => {
                    proof {
                        lemma_action_link_ok(af, current@, key, return_to@);
                    }
                    let nav = resolve_nav(actions, &return_to);
                    (
                        EngineState::RunningCommand { page, nav, wait },
                        Directive::RunForeground { command },
                    )
                },
                Some(Action::RunExec { command }) => (
                    EngineState::Replacing { page },
                    Directive::ReplaceProcess { command },
                ),
                Some(Action::RunBackground { command, return_to }) => {
                    proof {
                        lemma_action_link_ok(af, current@, key, return_to@);
                    }
                    let nav = resolve_nav(actions, &return_to);
                    (
                        EngineState::SpawningBackground { page, nav },
                        Directive::SpawnBackground { command },
                    )
                },
                None => (state, Directive::Render),
            }
        },
        (EngineState::RunningCommand { page, nav, wait }, Event::CommandFinished(outcome)) => {
            match outcome {
                RunOutcome::SpawnFailed => (
                    EngineState::Failed { error: RuntimeError::SpawnFailed },
                    Directive::Fail,
                ),
                RunOutcome::NoProcess => after_run(page, nav, wait),
                RunOutcome::Exited { success, exit_code } => {
                    if !success && error_on_failure {
                        let code = match exit_code {
                            Some(code) => code,
                            None => 1,
                        };
                        (
                            EngineState::Failed {
                                error: RuntimeError::CommandFailed { exit_code: code },
                            },
                            Directive::Fail,
                        )
                    } else {
                        after_run(page, nav, wait)
                    }
                },
            }
        },
        (EngineState::SpawningBackground { page, nav }, Event::BackgroundSpawned(ok)) => {
            if ok {
                navigate(page, nav)
            } else {
                (EngineState::Failed { error: RuntimeError::SpawnFailed }, Directive::Fail)
            }
        },
        (EngineState::Replacing { page: _ }, Event::ExecReturned) => (
            EngineState::Failed { error: RuntimeError::ExecFailed },
            Directive::Fail,
        ),
        (EngineState::AwaitingConfirmation { page, nav }, Event::ConfirmationKey(key)) => {
            if is_confirmation_key(key) {
                navigate(page, nav)
            } else {
                (state, Directive::AwaitConfirmation)
            }
        },
        _ => (state, Directive::Render),
    }
}

/// Applies a navigation target once its command is done.
fn navigate(page: usize, nav: NavTarget) -> (r: (EngineState, Directive))
    ensures
        r.0 == spec_navigate(page, nav).0,
        r.1@ == spec_navigate(page, nav).1,
{
    match nav {
        NavTarget::Quit => (EngineState::Terminated, Directive::Quit),
        NavTarget::Stay => (EngineState::AwaitingInput { page }, Directive::Render),
        NavTarget::GoTo(target) => (EngineState::AwaitingInput { page: target }, Directive::Render),
    }
}

/// What follows a successful foreground run.
fn after_run(page: usize, nav: NavTarget, wait: bool) -> (r: (EngineState, Directive))
    ensures
        r.0 == spec_after_run(page, nav, wait).0,
        r.1@ == spec_after_run(page, nav, wait).1,
{
    if wait {
        (EngineState::AwaitingConfirmation { page, nav }, Directive::AwaitConfirmation)
    } else {
        navigate(page, nav)
    }
}

/// In a link-closed configuration, the navigation rule of the action a key
/// resolves to only names pages that exist.
proof fn lemma_action_link_ok(af: ActionFileV, p: PageV, key: Key, return_to: ReturnV)
    requires
        links_closed(af),
        exists|i: int| 0 <= i < af.pages.len() && af.pages[i].1 == p,
        spec_action_for_key(p, key) is Some,
        ({
            let a = spec_action_for_key(p, key)->0;
            ||| (a matches ActionV::Run { return_to: rt, .. } && rt == return_to)
            ||| (a matches ActionV::RunBackground { return_to: rt, .. } && rt == return_to)
        }),
    ensures
        return_to matches ReturnV::OtherPage(target) ==> spec_has_page(af, target),
{
    let i = choose|i: int| 0 <= i < af.pages.len() && af.pages[i].1 == p;
    match key {
        Key::Char(c) => {
            lemma_find_entry_is_member(flat_entries(p), c, 0);
            let e = find_entry(p, c)->0;
            let j = choose|j: int| 0 <= j < flat_entries(p).len() && flat_entries(p)[j] == e;
            assert(entry_link_ok(af, flat_entries(af.pages[i].1)[j]));
        },
        _ => {},
    }
}

proof fn lemma_entries_errors_empty_links(
    af: ActionFileV,
    page_name: Seq<char>,
    entries: Seq<EntryV>,
    k: int,
)
    requires
        0 <= k,
        spec_entries_errors_from(af, page_name, entries, k).len() == 0,
    ensures
        forall|j: int| k <= j < entries.len() ==> entry_link_ok(af, #[trigger] entries[j]),
    decreases entries.len() - k,
{
    if k < entries.len() {
        assert(spec_entry_errors(af, page_name, entries, k).len() == 0);
        assert(spec_link_errors(af, entries[k]).len() == 0);
        assert(entry_link_ok(af, entries[k]));
        lemma_entries_errors_empty_links(af, page_name, entries, k + 1);
    }
}

proof fn lemma_pages_errors_empty_links(af: ActionFileV, i: int)
    requires
        0 <= i,
        spec_pages_errors_from(af, i).len() == 0,
    ensures
        forall|i2: int, j: int|
            i <= i2 < af.pages.len() && 0 <= j < flat_entries(af.pages[i2].1).len()
                ==> entry_link_ok(af, #[trigger] flat_entries(af.pages[i2].1)[j]),
    decreases af.pages.len() - i,
{
    if i < af.pages.len() {
        assert(spec_page_errors(af, af.pages[i].0, af.pages[i].1).len() == 0);
        assert(spec_entries_errors_from(af, af.pages[i].0, flat_entries(af.pages[i].1), 0).len()
            == 0);
        lemma_entries_errors_empty_links(af, af.pages[i].0, flat_entries(af.pages[i].1), 0);
        lemma_pages_errors_empty_links(af, i + 1);
    }
}

/// The validation gate the engine stands on: a configuration that
/// validates cleanly has a page under the configured start name, and every
/// navigation rule of every entry names an existing page, so the engine may
/// follow links without re-checking them.
pub proof fn lemma_valid_configuration(af: ActionFileV, root_name: Seq<char>)
    requires
        spec_errors(af, root_name).len() == 0,
    ensures
        spec_has_page(af, root_name),
        links_closed(af),
{
    if !spec_has_page(af, root_name) {
        assert(spec_errors(af, root_name).len() >= 1);
    }
    assert(spec_pages_errors_from(af, 0).len() == 0);
    lemma_pages_errors_empty_links(af, 0);
}

/// Whether every navigation rule of the configuration can be followed: the
/// executable check behind `links_closed`, for hosts that need to establish
/// it at run time.
pub fn check_links(actions: &ActionFile) -> (r: bool)
    ensures
        r == links_closed(actions@),
{
    let ghost af = actions@;
    for i in 0..actions.pages.len()
        invariant
            af == actions@,
            forall|i2: int, j2: int|
                0 <= i2 < i && 0 <= j2 < flat_entries(af.pages[i2].1).len() ==> entry_link_ok(
                    af,
                    #[trigger] flat_entries(af.pages[i2].1)[j2],
                ),
    {
        let page: &Page = &actions.pages[i].1;
        proof {
            assert(af.pages[i as int] == (
                actions.pages@[i as int].0@,
                actions.pages@[i as int].1@,
            ));
            assert(page@ == af.pages[i as int].1);
        }
        let ghost flat = flat_entries(page@);
        let all = page.all_entries();
        proof {
            assert(flat.len() == all@.len());
            assert forall|k: int| 0 <= k < flat.len() implies all@[k]@ == flat[k] by {
                assert(all@.map_values(|e: &Entry| e@)[k] == flat[k]);
            }
        }
        for j in 0..all.len()
            invariant
                af == actions@,
                0 <= i < af.pages.len(),
                flat == flat_entries(af.pages[i as int].1),
                all@.len() == flat.len(),
                forall|k: int| 0 <= k < flat.len() ==> all@[k]@ == flat[k],
                forall|k: int| 0 <= k < j ==> entry_link_ok(af, #[trigger] flat[k]),
        {
            let entry: &Entry = all[j];
            proof {
                assert(entry@ == flat[j as int]);
            }
            match entry.return_to() {
                Return::OtherPage(name) => {
                    if !actions.has_page(name.as_str()) {
                        proof {
                            assert(!entry_link_ok(af, flat[j as int]));
                            assert(flat_entries(af.pages[i as int].1)[j as int] == flat[j as int]);
                            assert(!links_closed(af));
                        }
                        return false;
                    }
                },
                _ => {},
            }
        }
    }
    true
}

/// Whether a state belongs to the configuration: the executable check
/// behind `state_wf`.
pub fn check_state(actions: &ActionFile, state: &EngineState) -> (r: bool)
    ensures
        r == state_wf(actions@, *state),
{
    proof {
        assert(actions@.pages.len() == actions.pages@.len());
    }
    match state {
        EngineState::AwaitingInput { page } => *page < actions.pages.len(),
        EngineState::RunningCommand { page, nav, wait: _ } => *page < actions.pages.len()
            && check_nav(actions, nav),
        EngineState::SpawningBackground { page, nav } => *page < actions.pages.len() && check_nav(
            actions,
            nav,
        ),
        EngineState::Replacing { page } => *page < actions.pages.len(),
        EngineState::AwaitingConfirmation { page, nav } => *page < actions.pages.len() && check_nav(
            actions,
            nav,
        ),
        EngineState::Terminated => true,
        EngineState::Failed { error: _ } => true,
    }
}

/// Whether a navigation target's index belongs to the configuration.
fn check_nav(actions: &ActionFile, nav: &NavTarget) -> (r: bool)
    ensures
        r == nav_wf(actions@, *nav),
{
    proof {
        assert(actions@.pages.len() == actions.pages@.len());
    }
    match nav {
        NavTarget::GoTo(target) => *target < actions.pages.len(),
        _ => true,
    }
}

} // verus!

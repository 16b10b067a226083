//! A single selectable menu entry, its command, its execution mode and its
//! navigation rule, and the resolution of an entry into a concrete action.

use vstd::prelude::*;
use vstd::string::{StrSliceExecFns, StringExecFns};

use crate::settings::Color;
use crate::text::push_char;

verus! {

/// One selectable menu item: a title, a single-keystroke shortcut, a command
/// to run, an optional color override for the shortcut, an execution mode and
/// a navigation rule applied after the command completes.
#[derive(Debug)]
pub struct Entry {
    pub title: String,
    pub shortcut: char,
    pub command: Command,
    pub shortcut_color: Option<Color>,
    pub runner_mode: RunMode,
    pub return_to: Return,
}

/// Something to execute when an entry is selected.
#[derive(Debug, Clone, PartialEq)]
pub enum Command {
    /// Run no command and act only on the entry's navigation rule.
    Nothing,
    /// A shell script, run inside /bin/sh.
    ShellScript(String),
    /// A raw executable with an argument list, with no shell processing.
    Executable { name: String, args: Vec<String> },
}

/// The execution strategy for an entry's command.
#[derive(Debug, Clone, Copy, PartialEq, Eq, Structural)]
pub enum RunMode {
    /// Run the command, then return to the menu as soon as it finishes.
    Normal,
    /// Like Normal, but wait for a confirmation keypress after the command
    /// finishes, so its output can be read.
    Wait,
    /// Replace the menu process with the command.
    Exec,
    /// Spawn the command detached, with no terminal attached.
    Background,
}

/// The navigation instruction applied after an entry's command completes.
#[derive(Debug, Clone, PartialEq)]
pub enum Return {
    Quit,
    SamePage,
    OtherPage(String),
}

/// An action for the menu event loop to perform.
#[derive(Debug)]
pub enum Action {
    /// Run a command in the foreground; `wait` asks for a confirmation
    /// keypress afterwards.
    Run { command: Command, return_to: Return, wait: bool },
    /// Replace the menu process with a command.
    RunExec { command: Command },
    /// Run a command in the background and return to the menu at once.
    RunBackground { command: Command, return_to: Return },
    /// Leave the menu.
    Exit,
    /// Render the menu again from a fresh display surface.
    Redraw,
    /// Put the menu process into the background until resumed.
    Pause,
}

/// The mathematical model of a `Command`.
#[verifier::ext_equal]
pub enum CommandV {
    Nothing,
    ShellScript(Seq<char>),
    Executable { name: Seq<char>, args: Seq<Seq<char>> },
}

/// The mathematical model of a `Return`.
#[verifier::ext_equal]
pub enum ReturnV {
    Quit,
    SamePage,
    OtherPage(Seq<char>),
}

/// The mathematical model of an `Entry`.
#[verifier::ext_equal]
pub struct EntryV {
    pub title: Seq<char>,
    pub shortcut: char,
    pub command: CommandV,
    pub shortcut_color: Option<Color>,
    pub runner_mode: RunMode,
    pub return_to: ReturnV,
}

/// The mathematical model of an `Action`.
#[verifier::ext_equal]
pub enum ActionV {
    Run { command: CommandV, return_to: ReturnV, wait: bool },
    RunExec { command: CommandV },
    RunBackground { command: CommandV, return_to: ReturnV },
    Exit,
    Redraw,
    Pause,
}

impl View for Command {
    type V = CommandV;

    open spec fn view(&self) -> CommandV {
        match *self {
            Command::Nothing => CommandV::Nothing,
            Command::ShellScript(script) => CommandV::ShellScript(script@),
            Command::Executable { name, args } => CommandV::Executable {
                name: name@,
                args: args@.map_values(|a: String| a@),
            },
        }
    }
}

impl View for Return {
    type V = ReturnV;

    open spec fn view(&self) -> ReturnV {
        match *self {
            Return::Quit => ReturnV::Quit,
            Return::SamePage => ReturnV::SamePage,
            Return::OtherPage(name) => ReturnV::OtherPage(name@),
        }
    }
}

impl View for Entry {
    type V = EntryV;

    open spec fn view(&self) -> EntryV {
        EntryV {
            title: self.title@,
            shortcut: self.shortcut,
            command: self.command@,
            shortcut_color: self.shortcut_color,
            runner_mode: self.runner_mode,
            return_to: self.return_to@,
        }
    }
}

impl View for Action {
    type V = ActionV;

    open spec fn view(&self) -> ActionV {
        match *self {
            Action::Run { command, return_to, wait } => ActionV::Run {
                command: command@,
                return_to: return_to@,
                wait,
            },
            Action::RunExec { command } => ActionV::RunExec { command: command@ },
            Action::RunBackground { command, return_to } => ActionV::RunBackground {
                command: command@,
                return_to: return_to@,
            },
            Action::Exit => ActionV::Exit,
            Action::Redraw => ActionV::Redraw,
            Action::Pause => ActionV::Pause,
        }
    }
}

impl Entry {
    pub fn shortcut(&self) -> (r: char)
        ensures
            r == self@.shortcut,
    {
        self.shortcut
    }

    pub fn title(&self) -> (r: &str)
        ensures
            r@ == self@.title,
    {
        self.title.as_str()
    }

    pub fn shortcut_color(&self) -> (r: Option<Color>)
        ensures
            r == self@.shortcut_color,
    {
        self.shortcut_color
    }

    pub fn return_to(&self) -> (r: &Return)
        ensures
            r@ == self@.return_to,
    {
        &self.return_to
    }

    pub fn command(&self) -> (r: &Command)
        ensures
            r@ == self@.command,
    {
        &self.command
    }

    pub fn runner_mode(&self) -> (r: RunMode)
        ensures
            r == self@.runner_mode,
    {
        self.runner_mode
    }
}

impl RunMode {
    /// Whether this mode asks for a confirmation keypress after the command.
    pub fn is_wait(self) -> (r: bool)
        ensures
            r == (self is Wait),
    {
        match self {
            RunMode::Wait => true,
            _ => false,
        }
    }
}

impl Default for Command {
    /// An absent command defaults to running nothing.
    fn default() -> (r: Command)
        ensures
            r == Command::Nothing,
    {
        Command::Nothing
    }
}

impl Default for RunMode {
    fn default() -> (r: RunMode)
        ensures
            r == RunMode::Normal,
    {
        RunMode::Normal
    }
}

impl Default for Return {
    fn default() -> (r: Return)
        ensures
            r == Return::Quit,
    {
        Return::Quit
    }
}

impl Return {
    /// The navigation rule a boolean in the configuration source stands for:
    /// true means the same page, false means quitting.
    pub fn from_bool(value: bool) -> (r: Return)
        ensures
            r == if value {
                Return::SamePage
            } else {
                Return::Quit
            },
    {
        if value {
            Return::SamePage
        } else {
            Return::Quit
        }
    }

    /// The navigation rule a string in the configuration source stands for:
    /// the name of the page to switch to.
    pub fn from_page_name(value: &str) -> (r: Return)
        ensures
            r@ == ReturnV::OtherPage(value@),
    {
        Return::OtherPage(value.to_owned())
    }

    /// An exact copy of this navigation rule.
    pub fn duplicate(&self) -> (r: Return)
        ensures
            r == *self,
    {
        match self {
            Return::Quit => Return::Quit,
            Return::SamePage => Return::SamePage,
            Return::OtherPage(name) => Return::OtherPage(name.clone()),
        }
    }
}

/// An exact copy of a vector of strings.
pub(crate) fn clone_strings(v: &Vec<String>) -> (r: Vec<String>)
    ensures
        r@ == v@,
{
    let mut out: Vec<String> = Vec::new();
    for i in 0..v.len()
        invariant
            out@ =~= v@.subrange(0, i as int),
    {
        out.push(v[i].clone());
    }
    assert(out@ =~= v@);
    out
}

impl Command {
    /// A copy of this command with the same model.
    pub fn duplicate(&self) -> (r: Command)
        ensures
            r@ == self@,
    {
        match self {
            Command::Nothing => Command::Nothing,
            Command::ShellScript(script) => Command::ShellScript(script.clone()),
            Command::Executable { name, args } => Command::Executable {
                name: name.clone(),
                args: clone_strings(args),
            },
        }
    }
}

/// The action an entry resolves to, decided by its execution mode alone:
/// Normal and Wait run in the foreground, Exec replaces the process, and
/// Background spawns detached.
pub open spec fn spec_action_of(e: EntryV) -> ActionV {
    match e.runner_mode {
        RunMode::Normal | RunMode::Wait => ActionV::Run {
            command: e.command,
            return_to: e.return_to,
            wait: e.runner_mode is Wait,
        },
        RunMode::Exec => ActionV::RunExec { command: e.command },
        RunMode::Background => ActionV::RunBackground {
            command: e.command,
            return_to: e.return_to,
        },
    }
}

/// One character of a displayed argument: quotes and backslashes get a
/// backslash escape, every other character stands as itself.
pub open spec fn spec_escaped_char(c: char) -> Seq<char> {
    if c == '"' || c == '\\' {
        seq!['\\', c]
    } else {
        seq![c]
    }
}

/// An argument's characters with quotes and backslashes escaped.
pub open spec fn spec_escaped(s: Seq<char>) -> Seq<char>
    decreases s.len(),
{
    if s.len() == 0 {
        Seq::empty()
    } else {
        spec_escaped(s.drop_last()) + spec_escaped_char(s.last())
    }
}

/// One displayed argument: its escaped characters inside double quotes.
pub open spec fn spec_quoted(s: Seq<char>) -> Seq<char> {
    "\""@ + spec_escaped(s) + "\""@
}

/// The first `n` displayed arguments joined with comma-space separators.
pub open spec fn spec_args_joined(args: Seq<Seq<char>>, n: int) -> Seq<char>
    decreases n,
{
    if n <= 0 {
        Seq::empty()
    } else if n == 1 {
        spec_quoted(args[0])
    } else {
        spec_args_joined(args, n - 1) + ", "@ + spec_quoted(args[n - 1])
    }
}

/// The displayed form of a command: the no-op shows a placeholder, a shell
/// script shows its text, and an executable shows its name, followed by its
/// bracketed, quoted argument list when it has arguments.
pub open spec fn spec_command_display(c: CommandV) -> Seq<char> {
    match c {
        CommandV::Nothing => "(Nothing)"@,
        CommandV::ShellScript(script) => script,
        CommandV::Executable { name, args } => if args.len() == 0 {
            name
        } else {
            name + " ["@ + spec_args_joined(args, args.len() as int) + "]"@
        },
    }
}

/// The escaped form of one argument.
fn escape_arg(s: &str) -> (r: String)
    ensures
        r@ == spec_escaped(s@),
{
    let mut out = String::new();
    let length = s.unicode_len();
    for i in 0..length
        invariant
            length == s@.len(),
            out@ == spec_escaped(s@.subrange(0, i as int)),
    {
        let c = s.get_char(i);
        if c == '"' || c == '\\' {
            push_char(&mut out, '\\');
            push_char(&mut out, c);
        } else {
            push_char(&mut out, c);
        }
        proof {
            assert(s@.subrange(0, i + 1 as int).drop_last() =~= s@.subrange(0, i as int));
            assert(s@.subrange(0, i + 1 as int).last() == s@[i as int]);
            assert(out@ =~= spec_escaped(s@.subrange(0, i + 1 as int)));
        }
    }
    proof {
        assert(s@.subrange(0, s@.len() as int) =~= s@);
    }
    out
}

impl Command {
    /// The command as the menu and its error messages display it.
    pub fn display_string(&self) -> (r: String)
        ensures
            r@ == spec_command_display(self@),
    {
        match self {
            Command::Nothing => "(Nothing)".to_owned(),
            Command::ShellScript(script) => script.clone(),
            Command::Executable { name, args } => {
                if args.len() == 0 {
                    proof {
                        assert(args@.map_values(|a: String| a@) =~= Seq::<Seq<char>>::empty());
                    }
                    name.clone()
                } else {
                    let ghost argsv = args@.map_values(|a: String| a@);
                    let mut out = name.clone();
                    out.append(" [");
                    for i in 0..args.len()
                        invariant
                            argsv == args@.map_values(|a: String| a@),
                            argsv.len() == args@.len(),
                            0 < args@.len(),
                            out@ == name@ + " ["@ + spec_args_joined(argsv, i as int),
                    {
                        if i > 0 {
                            out.append(", ");
                        }
                        out.append("\"");
                        let escaped = escape_arg(args[i].as_str());
                        out.append(escaped.as_str());
                        out.append("\"");
                        proof {
                            assert(args@[i as int]@ == argsv[i as int]);
                            assert(spec_quoted(argsv[i as int]) == "\""@ + spec_escaped(
                                argsv[i as int],
                            ) + "\""@);
                            assert(out@ =~= name@ + " ["@ + spec_args_joined(argsv, i + 1 as int));
                        }
                    }
                    out.append("]");
                    proof {
                        assert(out@ =~= spec_command_display(self@));
                    }
                    out
                }
            },
        }
    }
}

impl Action {
    /// Resolves an entry into the action the event loop performs: a pure
    /// mapping from the entry's command, mode and navigation rule.
    pub fn from_entry(entry: &Entry) -> (r: Action)
        ensures
            r@ == spec_action_of(entry@),
    {
        let command = entry.command.duplicate();
        match entry.runner_mode {
            RunMode::Normal | RunMode::Wait => Action::Run {
                command,
                return_to: entry.return_to.duplicate(),
                wait: entry.runner_mode.is_wait(),
            },
            RunMode::Exec => Action::RunExec { command },
            RunMode::Background => Action::RunBackground {
                command,
                return_to: entry.return_to.duplicate(),
            },
        }
    }
}

} // verus!

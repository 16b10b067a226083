//! The pure part of the process runner: which program invocation a command
//! stands for. The host performs the actual spawning, replacement and
//! detached launching.

use vstd::prelude::*;

use crate::entry::{clone_strings, Command, CommandV};

verus! {

/// A concrete program invocation: an executable name or path and its
/// argument list, with no shell processing left to do.
#[derive(Debug, PartialEq)]
pub struct Invocation {
    pub program: String,
    pub args: Vec<String>,
}

/// The invocation a command resolves to. The no-op command resolves to
/// none: it is treated as an immediate success with no process created,
/// regardless of the execution mode. A shell script runs its text inside
/// /bin/sh, and an executable runs as itself.
pub open spec fn spec_invocation(c: CommandV) -> Option<(Seq<char>, Seq<Seq<char>>)> {
    match c {
        CommandV::Nothing => None,
        CommandV::ShellScript(script) => Some(("/bin/sh"@, seq!["-c"@, script])),
        CommandV::Executable { name, args } => Some((name, args)),
    }
}

impl Command {
    /// The program and arguments to run for this command, or nothing for
    /// the no-op command, which never spawns a process.
    pub fn invocation(&self) -> (r: Option<Invocation>)
        ensures
            r is Some <==> spec_invocation(self@) is Some,
            r matches Some(inv) ==> Some((inv.program@, inv.args@.map_values(|a: String| a@)))
                == spec_invocation(self@),
    {
        match self {
            Command::Nothing => None,
            Command::ShellScript(script) => {
                let mut args: Vec<String> = Vec::new();
                args.push("-c".to_owned());
                args.push(script.clone());
                let program: String = "/bin/sh".to_owned();
                proof {
                    assert(args@.map_values(|a: String| a@) =~= seq!["-c"@, script@]);
                }
                Some(Invocation { program, args })
            },
            Command::Executable { name, args } => {
                let invocation = Invocation { program: name.clone(), args: clone_strings(args) };
                proof {
                    assert(invocation.args@.map_values(|a: String| a@) =~= args@.map_values(
                        |a: String| a@,
                    ));
                }
                Some(invocation)
            },
        }
    }
}

} // verus!

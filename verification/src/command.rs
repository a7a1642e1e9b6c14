//! Commands that the session starts: `ghci` itself, and shell hooks.

use vstd::prelude::*;
use vstd::string::StringExecFns;

verus! {

/// A program and its arguments, kept as plain strings so that it can be
/// started any number of times.
#[derive(Debug)]
pub struct ClonableCommand {
    /// The program to run.
    pub program: String,
    /// Its arguments, in order.
    pub args: Vec<String>,
}

impl ClonableCommand {
    /// The command that runs `program` without arguments.
    pub fn new(program: &str) -> (command: Self)
        ensures
            command.program@ == program@,
            command.args@.len() == 0,
    {
        ClonableCommand { program: String::from_str(program), args: Vec::new() }
    }

    /// This command with `arg` as one more argument, after those it has.
    pub fn arg(self, arg: &str) -> (command: Self)
        ensures
            command.program == self.program,
            command.args@.len() == self.args@.len() + 1,
            command.args@.drop_last() == self.args@,
            command.args@.last()@ == arg@,
    {
        let mut command = self;
        command.args.push(String::from_str(arg));
        assert(command.args@.drop_last() =~= self.args@);
        command
    }
}

/// A shell command that either holds up the step that runs it, or runs beside
/// the session.
#[derive(Debug)]
pub struct MaybeAsyncCommand {
    /// Whether the command runs in the background.
    pub is_async: bool,
    /// The command.
    pub command: ClonableCommand,
}

} // verus!

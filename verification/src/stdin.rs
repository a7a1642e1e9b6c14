//! The lines that the session writes to the standard input of `ghci`.
//!
//! Each line is one command. After every line that it writes, the caller
//! waits for the prompt, so that a command is never written while another
//! runs.

use crate::PROMPT;
use vstd::prelude::*;
use vstd::string::StringExecFns;

verus! {

/// The command that sets the prompt of `ghci` to [`PROMPT`] on a line of its
/// own.
pub fn set_prompt() -> (line: String)
    ensures
        line@ == ":set prompt \""@ + PROMPT@ + "\\n\""@,
{
    String::from_str(":set prompt \"").concat(PROMPT).concat("\\n\"")
}

/// The command that sets the prompt for continuation lines to nothing.
pub fn set_prompt_cont() -> (line: String)
    ensures
        line@ == ":set prompt-cont \"\""@,
{
    String::from_str(":set prompt-cont \"\"")
}

/// The command that shows the working directory and the search paths.
pub fn show_paths() -> (line: String)
    ensures
        line@ == ":show paths"@,
{
    String::from_str(":show paths")
}

/// The command that shows the targets.
pub fn show_targets() -> (line: String)
    ensures
        line@ == ":show targets"@,
{
    String::from_str(":show targets")
}

/// The command that reloads the targets.
pub fn reload() -> (line: String)
    ensures
        line@ == ":reload"@,
{
    String::from_str(":reload")
}

/// The command that adds the file at `path` to the targets.
pub fn add_module(path: &str) -> (line: String)
    ensures
        line@ == ":add "@ + path@,
{
    String::from_str(":add ").concat(path)
}

/// The command that adds `module` to the targets as an interpreted module.
pub fn interpret_module(module: &str) -> (line: String)
    ensures
        line@ == ":add *"@ + module@,
{
    String::from_str(":add *").concat(module)
}

/// The command that brings the top level of `module` into scope.
pub fn open_module(module: &str) -> (line: String)
    ensures
        line@ == ":module + *"@ + module@,
{
    String::from_str(":module + *").concat(module)
}

/// The command that takes the top level of `module` out of scope again.
pub fn close_module(module: &str) -> (line: String)
    ensures
        line@ == ":module - *"@ + module@,
{
    String::from_str(":module - *").concat(module)
}

/// The lines that evaluate `command` in the scope of `module`: the module is
/// brought into scope, the command is run, and the scope is restored.
pub fn eval(module: &str, command: &str) -> (lines: Vec<String>)
    ensures
        lines@.len() == 3,
        lines@[0]@ == ":module + *"@ + module@,
        lines@[1]@ == command@,
        lines@[2]@ == ":module - *"@ + module@,
{
    let mut lines: Vec<String> = Vec::new();
    lines.push(open_module(module));
    lines.push(String::from_str(command));
    lines.push(close_module(module));
    lines
}

/// The lines that make a new `ghci` ready to be driven: its prompt is set,
/// and its prompt for continuation lines is emptied.
pub fn initialize() -> (lines: Vec<String>)
    ensures
        lines@.len() == 2,
        lines@[0]@ == ":set prompt \""@ + PROMPT@ + "\\n\""@,
        lines@[1]@ == ":set prompt-cont \"\""@,
{
    let mut lines: Vec<String> = Vec::new();
    lines.push(set_prompt());
    lines.push(set_prompt_cont());
    lines
}

} // verus!

//! The ways in which an action of the session can fail.

use vstd::prelude::*;

verus! {

/// Why an action failed.
#[derive(Debug, Clone, Copy, PartialEq, Eq, Structural)]
pub enum ErrorKind {
    /// `ghci` could not be started.
    Spawn,
    /// A pipe or a file could not be read or written.
    Io,
    /// `ghci` printed what the session cannot make sense of.
    Parse,
    /// A command of the user ended with a failure.
    UserCommand,
    /// `ghci` is gone, and not because the session stopped it.
    UnexpectedExit,
    /// The operation was cancelled.
    Interrupted,
}

} // verus!

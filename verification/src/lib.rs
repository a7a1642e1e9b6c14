//! Session supervisor for a `ghci` process that is kept alive while the
//! source tree changes underneath it.
//!
//! The crate holds the decisions of the supervisor: how file events are sorted
//! into restarts, reloads and additions, how the set of targets evolves, and in
//! which order the session talks to `ghci`, to hooks and to the error log. The
//! caller owns the process and its streams; it performs each [`session::Action`]
//! and reports what came of it with a [`session::Reply`].
//!
//! - [`path`], [`targets`], [`eval`], [`log`], [`hooks`], [`command`], [`opts`]
//!   and [`error`] hold what a session knows and is told.
//! - [`reload`] sorts file events.
//! - [`session`] is the session itself.
//! - [`stdin`] spells the commands that `ghci` is given.
//! - [`laws`] proves what holds of every session.

use vstd::prelude::*;

pub mod command;
pub mod error;
pub mod eval;
pub mod hooks;
pub mod laws;
pub mod log;
pub mod opts;
pub mod path;
pub mod reload;
pub mod session;
pub mod stdin;
pub mod targets;

verus! {

/// The prompt that `ghci` is told to print, and that is looked for in its output.
pub const PROMPT: &'static str = "###~GHCIWATCH-PROMPT~###";

/// How many lines of the standard error of `ghci` may wait to be attributed to
/// a compilation.
pub const STDERR_CHANNEL_CAPACITY: usize = 8;

/// How many notices of an intended stop may wait for the task that watches the
/// process.
pub const RESTART_CHANNEL_CAPACITY: usize = 1;

/// How many seconds `ghci` is given to end after `SIGTERM`, before it is
/// killed.
pub const KILL_GRACE_SECONDS: u64 = 5;

} // verus!

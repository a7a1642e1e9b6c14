//! What a compilation by `ghci` came to.

use vstd::prelude::*;

verus! {

/// How a compilation ended.
#[derive(Debug, Clone, Copy, PartialEq, Eq, Structural)]
pub enum CompilationResult {
    /// All modules were loaded.
    Succeeded,
    /// Some module failed to compile.
    Failed,
}

/// The line with which `ghci` sums up a compilation.
#[derive(Debug, Clone, Copy, PartialEq, Eq, Structural)]
pub struct CompilationSummary {
    /// How the compilation ended.
    pub result: CompilationResult,
    /// The number of modules that `ghci` holds after it.
    pub modules_loaded: usize,
}

/// What is known of the compilation in progress. The diagnostics themselves
/// stay with whoever reads the output of `ghci`; the session decides by the
/// summary alone.
#[derive(Debug, Clone, Copy, PartialEq, Eq, Structural)]
pub struct CompilationLog {
    /// The last summary that `ghci` printed, if it printed any.
    pub summary: Option<CompilationSummary>,
}

/// How the compilation of `log` ended, as far as `ghci` has said.
pub open spec fn result_of(log: CompilationLog) -> Option<CompilationResult> {
    match log.summary {
        Some(summary) => Some(summary.result),
        None => None,
    }
}

/// `log` after output that held `summary`: a new summary takes the place of
/// the last, and output without a summary leaves the log as it is.
pub open spec fn recorded(log: CompilationLog, summary: Option<CompilationSummary>) -> CompilationLog {
    match summary {
        Some(_) => CompilationLog { summary: summary },
        None => log,
    }
}

impl CompilationLog {
    /// The log of a compilation of which nothing is known yet.
    pub fn new() -> (log: Self)
        ensures
            log.summary is None,
    {
        CompilationLog { summary: None }
    }

    /// How the compilation ended, as far as `ghci` has said.
    pub fn result(&self) -> (result: Option<CompilationResult>)
        ensures
            result == result_of(*self),
    {
        match self.summary {
            Some(summary) => Some(summary.result),
            None => None,
        }
    }

    /// Takes note of the summary, if any, in the output of one command.
    pub fn record(&mut self, summary: Option<CompilationSummary>)
        ensures
            *final(self) == recorded(*old(self), summary),
    {
        match summary {
            Some(_) => {
                self.summary = summary;
            },
            None => {},
        }
    }
}

} // verus!

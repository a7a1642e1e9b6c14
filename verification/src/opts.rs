//! The options of a session.

use crate::command::ClonableCommand;
use crate::hooks::HookOpts;
use crate::path::NormalPath;
use vstd::prelude::*;

verus! {

/// Where the output of `ghci` is shown.
#[derive(Debug, Clone, Copy, PartialEq, Eq, Structural)]
pub enum GhciWriter {
    /// The standard output of this process.
    Stdout,
    /// The standard error of this process.
    Stderr,
    /// The stream that the terminal interface reads.
    Tui,
}

/// What the command line says of the session.
#[derive(Debug)]
pub struct CliOpts {
    /// A single file to load, in place of a project.
    pub file: Option<NormalPath>,
    /// The command that starts `ghci`, where the user gave one.
    pub command: Option<ClonableCommand>,
    /// Whether the terminal interface is shown.
    pub tui: bool,
    /// A file to write the errors of `ghci` to.
    pub error_file: Option<String>,
    /// Whether eval commands in source files are run.
    pub enable_eval: bool,
    /// The lifecycle hooks.
    pub hooks: HookOpts,
    /// The extensions by which source files are known.
    pub source_extensions: Vec<String>,
    /// Whether a reload in progress is left to finish when new events arrive.
    pub no_interrupt_reloads: bool,
    /// Whether the screen is cleared before reloads and restarts.
    pub clear: bool,
}

/// The options with which a session is started, and started again.
#[derive(Debug)]
pub struct GhciOpts {
    /// The command that starts `ghci`.
    pub command: ClonableCommand,
    /// A file to write the errors of `ghci` to.
    pub error_path: Option<String>,
    /// Whether eval commands in source files are run.
    pub enable_eval: bool,
    /// The lifecycle hooks.
    pub hooks: HookOpts,
    /// The extensions by which source files are known.
    pub source_extensions: Vec<String>,
    /// Whether a reload in progress is left to finish when new events arrive.
    pub no_interrupt_reloads: bool,
    /// Where what `ghci` prints to its standard output is shown.
    pub stdout_writer: GhciWriter,
    /// Where what `ghci` prints to its standard error is shown.
    pub stderr_writer: GhciWriter,
    /// Whether the screen is cleared before reloads and restarts.
    pub clear: bool,
}

/// Whether `launch` is the command that starts `ghci` for the given choice of
/// file and command: `ghci` on the relative path of the file, or the command
/// as given, or `cabal repl` where neither is given.
pub open spec fn launches(
    launch: ClonableCommand,
    file: Option<NormalPath>,
    command: Option<ClonableCommand>,
) -> bool {
    match (file, command) {
        (Some(file), None) => {
            &&& launch.program@ == "ghci"@
            &&& launch.args@.len() == 1
            &&& launch.args@[0]@ == file.relative@
        },
        (None, Some(command)) => launch == command,
        (None, None) => {
            &&& launch.program@ == "cabal"@
            &&& launch.args@.len() == 1
            &&& launch.args@[0]@ == "repl"@
        },
        (Some(_), Some(_)) => false,
    }
}

impl GhciOpts {
    /// The options of a session, from what the command line says. The second
    /// result says whether the output of `ghci` goes to the terminal
    /// interface, which then needs a stream to read it from.
    ///
    /// A file and a command exclude each other.
    pub fn from_cli(opts: CliOpts) -> (result: (Self, bool))
        requires
            !(opts.file is Some && opts.command is Some),
        ensures
            launches(result.0.command, opts.file, opts.command),
            result.0.error_path == opts.error_file,
            result.0.enable_eval == opts.enable_eval,
            result.0.hooks == opts.hooks,
            result.0.source_extensions == opts.source_extensions,
            result.0.no_interrupt_reloads == opts.no_interrupt_reloads,
            result.0.clear == opts.clear,
            result.0.stdout_writer == if opts.tui {
                GhciWriter::Tui
            } else {
                GhciWriter::Stdout
            },
            result.0.stderr_writer == if opts.tui {
                GhciWriter::Tui
            } else {
                GhciWriter::Stderr
            },
            result.1 == opts.tui,
    {
        let command = match (opts.file, opts.command) {
            (Some(file), None) => {
                let launch = ClonableCommand::new("ghci").arg(file.relative());
                assert(launch.args@[0] == launch.args@.last());
                launch
            },
            (None, Some(command)) => command,
            (None, None) => {
                let launch = ClonableCommand::new("cabal").arg("repl");
                assert(launch.args@[0] == launch.args@.last());
                launch
            },
            (Some(_), Some(command)) => command,
        };
        let stdout_writer = if opts.tui {
            GhciWriter::Tui
        } else {
            GhciWriter::Stdout
        };
        let stderr_writer = if opts.tui {
            GhciWriter::Tui
        } else {
            GhciWriter::Stderr
        };
        (
            GhciOpts {
                command: command,
                error_path: opts.error_file,
                enable_eval: opts.enable_eval,
                hooks: opts.hooks,
                source_extensions: opts.source_extensions,
                no_interrupt_reloads: opts.no_interrupt_reloads,
                stdout_writer: stdout_writer,
                stderr_writer: stderr_writer,
                clear: opts.clear,
            },
            opts.tui,
        )
    }
}

} // verus!

//! The session: what it knows of `ghci`, and what it does next.
//!
//! A [`Ghci`] never touches the process. It hands out one [`Action`] at a
//! time; the caller performs it and reports with a [`Reply`], on which the
//! session hands out the next. What is still to be done is kept as a list of
//! [`Step`]s, so that an operation can be given up between any two actions.

use crate::eval::{flattened, with_commands, EvalCommand, EvalCommands, EvalJob, EvalMap};
use crate::error::ErrorKind;
use crate::hooks::{
    lemma_next_hook, next_hook, runs_in_background, HookCommand, LifecycleEvent, When,
};
use crate::log::{recorded, result_of, CompilationLog, CompilationResult, CompilationSummary};
use crate::opts::GhciOpts;
use crate::path::NormalPath;
use crate::reload::{
    kind_of, reload_actions, selected, views_of, GhciReloadKind, MatchedEvent, ReloadAction,
    ReloadActions,
};
use crate::targets::{has_key, import_info, inserted, ModuleSet, Target, TargetKind};
use std::collections::VecDeque;
use vstd::prelude::*;

verus! {

/// Where `ghci` looks for modules.
#[derive(Debug)]
pub struct ShowPaths {
    /// The working directory of `ghci`.
    pub cwd: String,
    /// The directories under which modules are searched, in order.
    pub search_paths: Vec<String>,
}

/// What the caller is to do next.
#[derive(Debug)]
pub enum Action {
    /// Nothing: the operation is complete.
    Done,
    /// Nothing: the operation was given up, because the last action failed.
    /// With `true` the session cannot go on: `ghci` was being started or made
    /// ready. With `false` the session stays as it is, and serves the next
    /// events.
    Failed(bool),
    /// Clear the screen.
    ClearScreen,
    /// Run the shell command of the hook at this position: in the background
    /// with `true`, else to its end.
    RunShellHook(usize, bool),
    /// Start `ghci`, with its three streams piped, and the tasks that watch
    /// the process and its standard error.
    Spawn,
    /// Wait for the first prompt of `ghci`.
    AwaitStartup,
    /// Set the prompt of `ghci`, and what else a new session needs.
    Configure,
    /// Ask `ghci` for its working directory and search paths.
    ShowPaths,
    /// Ask `ghci` for its targets.
    ShowTargets,
    /// Read the eval commands of this file.
    ReadEvalCommands(NormalPath),
    /// `:add` this file, by its relative path.
    AddModule(NormalPath),
    /// `:add *` the module of this name, so that `ghci` interprets it.
    InterpretModule(String),
    /// `:reload`.
    Reload,
    /// Evaluate this command in the scope of the module that its file holds.
    Eval(EvalJob),
    /// Send the `ghci` command of the hook at this position.
    RunCommand(usize),
    /// Write the error log.
    WriteErrorLog,
    /// Say that the step of this event is over, and whether the compilation
    /// succeeded.
    Report(LifecycleEvent, bool),
    /// Tell the task that watches the process that `ghci` is about to be
    /// stopped on purpose.
    Stop,
    /// Forget the background commands that have finished.
    PruneCommandHandles,
    /// Send `SIGINT` to the process group of `ghci`, then read up to the next
    /// prompt, wherever it stands.
    Interrupt,
}

/// What came of the last action.
#[derive(Debug)]
pub enum Reply {
    /// It was done, and there is nothing to tell; also the reply with which
    /// an operation is set going.
    Done,
    /// `ghci` ran the command and printed its prompt; before it, it printed
    /// this summary of a compilation, if any.
    Prompt(Option<CompilationSummary>),
    /// `ghci` was started, in this working directory.
    Spawned(String),
    /// `ghci` showed these paths.
    Paths(ShowPaths),
    /// `ghci` showed these targets.
    Targets(ModuleSet),
    /// The file holds these eval commands.
    EvalCommands(Vec<EvalCommand>),
    /// The action failed, in this way.
    Failed(ErrorKind),
}

/// The reply that the session waits for, and what it will make of it.
#[derive(Debug)]
pub enum Awaiting {
    /// [`Reply::Done`].
    Nothing,
    /// A prompt, whose summary goes to the log.
    Prompt,
    /// A prompt, whose summary is dropped.
    Resync,
    /// The end of a shell hook, or its start in the background. With `false`
    /// the session goes on where the command fails.
    Shell(bool),
    /// The working directory of a new `ghci`.
    Spawned,
    /// The paths of `ghci`.
    Paths,
    /// The targets of `ghci`.
    Targets,
    /// The eval commands of this file. They are staged for a full refresh
    /// (`true`), or recorded at once.
    EvalCommands(NormalPath, bool),
    /// The prompt after this file was added: it then is a target.
    Added(NormalPath),
    /// The prompt after the module of this file was interpreted: the file
    /// then is a target of this kind, unless `ghci` held it before.
    Interpreted(NormalPath, TargetKind, bool),
}

/// A piece of work that is still to be done.
#[derive(Debug)]
pub enum Step {
    /// Hand this action to the caller.
    Emit(Action),
    /// Run the hooks of this event (the shell hooks only, with `true`), from
    /// this position on.
    Hooks(LifecycleEvent, bool, usize),
    /// Add this file to `ghci`, unless it is a target.
    AddModule(NormalPath),
    /// Read the eval commands of this file again, if eval is enabled.
    RefreshEval(NormalPath),
    /// Start to read the eval commands of all targets.
    BeginRefresh,
    /// Read the eval commands of the targets from this position on.
    RefreshTarget(usize),
    /// Let the eval commands that were read take the place of the old ones.
    CommitRefresh,
    /// End a compilation at this event: report it, and after a success run
    /// the eval commands and the tests.
    Conclude(LifecycleEvent),
    /// Run the eval commands from this position on.
    EvalNext(usize),
    /// Forget what was known of the `ghci` that is gone.
    Reset,
}

/// What a session knows and intends, as plain values.
#[verifier::ext_equal]
pub struct SessionState {
    /// The targets of `ghci`.
    pub targets: Seq<Target>,
    /// The eval commands of the source files.
    pub eval_commands: EvalMap,
    /// The eval commands that a full refresh has read so far.
    pub staged: EvalMap,
    /// The eval commands that are being run.
    pub jobs: Seq<EvalJob>,
    /// The working directory of `ghci`.
    pub cwd: String,
    /// The search paths of `ghci`.
    pub search_paths: Seq<String>,
    /// The log of the compilation in progress.
    pub log: CompilationLog,
    /// Whether a failure ends the session: `ghci` is being started or made
    /// ready.
    pub fatal: bool,
    /// What is still to be done, in order.
    pub steps: Seq<Step>,
    /// The reply that is waited for.
    pub awaiting: Awaiting,
}

/// A session that supervises one `ghci` process at a time.
#[derive(Debug)]
pub struct Ghci {
    opts: GhciOpts,
    targets: ModuleSet,
    eval_commands: EvalCommands,
    staged: EvalCommands,
    jobs: Vec<EvalJob>,
    search_paths: ShowPaths,
    log: CompilationLog,
    fatal: bool,
    steps: VecDeque<Step>,
    awaiting: Awaiting,
}

/// The reply that is waited for once `action` is handed out.
pub open spec fn expected_after(action: Action) -> Awaiting {
    match action {
        Action::Spawn => Awaiting::Spawned,
        Action::AwaitStartup => Awaiting::Prompt,
        Action::Configure => Awaiting::Prompt,
        Action::ShowPaths => Awaiting::Paths,
        Action::ShowTargets => Awaiting::Targets,
        Action::ReadEvalCommands(path) => Awaiting::EvalCommands(path, false),
        Action::AddModule(path) => Awaiting::Added(path),
        Action::InterpretModule(_) => Awaiting::Prompt,
        Action::Reload => Awaiting::Prompt,
        Action::Eval(_) => Awaiting::Prompt,
        Action::RunCommand(_) => Awaiting::Prompt,
        Action::Interrupt => Awaiting::Resync,
        _ => Awaiting::Nothing,
    }
}

/// The state with nothing left to do.
pub open spec fn halted(s: SessionState) -> SessionState {
    SessionState { steps: Seq::empty(), awaiting: Awaiting::Nothing, ..s }
}

/// The state after `reply` was taken in, or `None` where the reply says that
/// the action failed, or is not of the kind that was waited for. A shell hook
/// that fails as a command of the user is passed over, unless the hook is
/// required.
pub open spec fn received(s: SessionState, reply: Reply) -> Option<SessionState> {
    match (s.awaiting, reply) {
        (Awaiting::Nothing, Reply::Done) => Some(s),
        (Awaiting::Prompt, Reply::Prompt(summary)) => Some(
            SessionState { log: recorded(s.log, summary), ..s },
        ),
        (Awaiting::Resync, Reply::Prompt(_)) => Some(s),
        (Awaiting::Shell(_), Reply::Done) => Some(s),
        (Awaiting::Shell(false), Reply::Failed(ErrorKind::UserCommand)) => Some(s),
        (Awaiting::Spawned, Reply::Spawned(cwd)) => Some(
            SessionState { cwd: cwd, search_paths: Seq::empty(), ..s },
        ),
        (Awaiting::Paths, Reply::Paths(paths)) => Some(
            SessionState { cwd: paths.cwd, search_paths: paths.search_paths@, ..s },
        ),
        (Awaiting::Targets, Reply::Targets(targets)) => Some(SessionState { targets: targets@, ..s }),
        (Awaiting::EvalCommands(path, staged), Reply::EvalCommands(commands)) => Some(
            if !staged {
                SessionState { eval_commands: with_commands(s.eval_commands, path, commands@), ..s }
            } else if commands@.len() > 0 {
                SessionState { staged: with_commands(s.staged, path, commands@), ..s }
            } else {
                s
            },
        ),
        (Awaiting::Added(path), Reply::Prompt(summary)) => Some(
            SessionState {
                log: recorded(s.log, summary),
                targets: inserted(s.targets, path, TargetKind::Path),
                ..s
            },
        ),
        (Awaiting::Interpreted(path, kind, loaded), Reply::Prompt(summary)) => Some(
            SessionState {
                log: recorded(s.log, summary),
                targets: if loaded {
                    s.targets
                } else {
                    inserted(s.targets, path, kind)
                },
                ..s
            },
        ),
        _ => None,
    }
}

/// What comes of one step: the state after it, and what it has for the caller
/// to do, if anything.
pub type Outcome = (SessionState, Option<Action>);

/// What comes of running the hooks of `event` from position `from` on (the
/// shell hooks only, with `shell_only`).
///
/// The first such hook is run: a command for `ghci` is sent to it, a shell
/// command is run to its end or in the background. The hooks after it are put
/// back at the head of the steps. Where no hook is left, nothing is done.
pub open spec fn hooks_outcome(
    s: SessionState,
    opts: GhciOpts,
    event: LifecycleEvent,
    shell_only: bool,
    from: usize,
) -> Outcome {
    let at = next_hook(opts.hooks@, event, shell_only, from as int);
    if at >= opts.hooks@.len() {
        (s, None)
    } else {
        let steps = seq![Step::Hooks(event, shell_only, (at + 1) as usize)] + s.steps;
        if opts.hooks@[at].command is Ghci {
            (
                SessionState { steps: steps, awaiting: Awaiting::Prompt, ..s },
                Some(Action::RunCommand(at as usize)),
            )
        } else {
            (
                SessionState {
                    steps: steps,
                    awaiting: Awaiting::Shell(opts.hooks@[at].required),
                    ..s
                },
                Some(Action::RunShellHook(at as usize, runs_in_background(opts.hooks@[at], event))),
            )
        }
    }
}

/// What comes of adding the file `path`.
///
/// A file that is a target is not added again. Another is added to `ghci`,
/// becomes a target when `ghci` has answered, and then has its eval commands
/// read.
pub open spec fn addition_outcome(s: SessionState, path: NormalPath) -> Outcome {
    if has_key(s.targets, path.key()) {
        (s, None)
    } else {
        (
            SessionState {
                steps: seq![Step::RefreshEval(path)] + s.steps,
                awaiting: Awaiting::Added(path),
                ..s
            },
            Some(Action::AddModule(path)),
        )
    }
}

/// What comes of reading the eval commands of the file `path` again: they
/// are read and recorded, if eval is enabled.
pub open spec fn refresh_outcome(s: SessionState, opts: GhciOpts, path: NormalPath) -> Outcome {
    if !opts.enable_eval {
        (s, None)
    } else {
        (
            SessionState { awaiting: Awaiting::EvalCommands(path, false), ..s },
            Some(Action::ReadEvalCommands(path)),
        )
    }
}

/// What comes of reading the eval commands of the targets from position `at`
/// on: those of the target at `at` are read and staged, if eval is enabled
/// and there is such a target, and the targets after it are put back at the
/// head of the steps.
pub open spec fn refresh_target_outcome(s: SessionState, opts: GhciOpts, at: usize) -> Outcome {
    if !opts.enable_eval || at >= s.targets.len() {
        (s, None)
    } else {
        (
            SessionState {
                steps: seq![Step::RefreshTarget((at + 1) as usize)] + s.steps,
                awaiting: Awaiting::EvalCommands(s.targets[at as int].path, true),
                ..s
            },
            Some(Action::ReadEvalCommands(s.targets[at as int].path)),
        )
    }
}

/// What comes of ending a compilation at `event`.
///
/// A compilation that failed is reported, and that is all. Any other is
/// reported as a success; then the eval commands that are recorded at this
/// moment are run, if eval is enabled, and after them the test hooks.
pub open spec fn conclusion_outcome(
    s: SessionState,
    opts: GhciOpts,
    event: LifecycleEvent,
) -> Outcome {
    if result_of(s.log) == Some(CompilationResult::Failed) {
        (SessionState { awaiting: Awaiting::Nothing, ..s }, Some(Action::Report(event, false)))
    } else {
        (
            SessionState {
                steps: seq![Step::EvalNext(0)] + (seq![Step::Hooks(LifecycleEvent::Test, false, 0)]
                    + s.steps),
                jobs: if opts.enable_eval {
                    flattened(s.eval_commands)
                } else {
                    Seq::empty()
                },
                awaiting: Awaiting::Nothing,
                ..s
            },
            Some(Action::Report(event, true)),
        )
    }
}

/// What comes of running the eval commands from position `at` on.
///
/// For the command at `at`, the module of its file is interpreted first,
/// under its import name or its relative path; when `ghci` has answered, the
/// file is a target, its eval commands are read again, and the command is
/// evaluated. The commands after it are put back behind these steps.
pub open spec fn eval_outcome(s: SessionState, at: usize) -> Outcome {
    if at >= s.jobs.len() {
        (s, None)
    } else {
        let job = s.jobs[at as int];
        let info = import_info(s.targets, job.path);
        (
            SessionState {
                steps: seq![Step::RefreshEval(job.path)] + (seq![Step::Emit(Action::Eval(job))] + (
                seq![Step::EvalNext((at + 1) as usize)] + s.steps)),
                awaiting: Awaiting::Interpreted(job.path, info.kind, info.loaded),
                ..s
            },
            Some(Action::InterpretModule(info.name)),
        )
    }
}

/// What comes of `step`, taken by a session in state `s`, from whose steps it
/// has been removed.
pub open spec fn outcome(s: SessionState, opts: GhciOpts, step: Step) -> Outcome {
    match step {
        Step::Emit(action) => (
            SessionState { awaiting: expected_after(action), ..s },
            Some(action),
        ),
        Step::Hooks(event, shell_only, from) => hooks_outcome(s, opts, event, shell_only, from),
        Step::AddModule(path) => addition_outcome(s, path),
        Step::RefreshEval(path) => refresh_outcome(s, opts, path),
        Step::BeginRefresh => if opts.enable_eval {
            (SessionState { staged: Seq::empty(), ..s }, None)
        } else {
            (s, None)
        },
        Step::RefreshTarget(at) => refresh_target_outcome(s, opts, at),
        Step::CommitRefresh => if opts.enable_eval {
            (SessionState { eval_commands: s.staged, staged: Seq::empty(), ..s }, None)
        } else {
            (s, None)
        },
        Step::Conclude(event) => conclusion_outcome(s, opts, event),
        Step::EvalNext(at) => eval_outcome(s, at),
        Step::Reset => (
            SessionState {
                targets: Seq::empty(),
                eval_commands: Seq::empty(),
                staged: Seq::empty(),
                jobs: Seq::empty(),
                ..s
            },
            None,
        ),
    }
}

/// The state and the action that come of working through the steps of `s`
/// up to the first that has something for the caller to do. Where no step
/// has, nothing is left to do, and the action says so.
pub open spec fn progressed(s: SessionState, opts: GhciOpts) -> (SessionState, Action)
    decreases s.steps.len(),
{
    if s.steps.len() == 0 {
        (SessionState { awaiting: Awaiting::Nothing, ..s }, Action::Done)
    } else {
        let rest = s.steps.drop_first();
        let (next, action) = outcome(SessionState { steps: rest, ..s }, opts, s.steps[0]);
        match action {
            Some(action) => (next, action),
            None => progressed(SessionState { steps: rest, ..next }, opts),
        }
    }
}

/// A step that has nothing for the caller to do leaves the steps as they
/// are.
pub proof fn lemma_idle_step(s: SessionState, opts: GhciOpts, step: Step)
    ensures
        outcome(s, opts, step).1 is None ==> outcome(s, opts, step).0.steps == s.steps,
{
}

/// The state and the action that come of `reply`: the reply is taken in and
/// the steps are worked through; where the action failed or the reply is not
/// of the kind that was waited for, the operation is given up.
pub open spec fn advanced(s: SessionState, opts: GhciOpts, reply: Reply) -> (SessionState, Action) {
    match received(s, reply) {
        Some(taken) => progressed(taken, opts),
        None => (halted(s), Action::Failed(s.fatal)),
    }
}

/// The step that clears the screen, where the options ask for it.
pub open spec fn clear_steps(clear: bool) -> Seq<Step> {
    if clear {
        seq![Step::Emit(Action::ClearScreen)]
    } else {
        Seq::empty()
    }
}

/// The steps that end a compilation: the error log is written, the hooks of
/// each of `events` are run, and the compilation is concluded at the last of
/// them.
pub open spec fn finish_steps(events: Seq<LifecycleEvent>) -> Seq<Step> {
    seq![Step::Emit(Action::WriteErrorLog)] + events.map_values(
        |event: LifecycleEvent| Step::Hooks(event, false, 0),
    ) + seq![Step::Conclude(events.last())]
}

/// The steps that start `ghci`: the shell hooks that run before startup, then
/// the process.
pub open spec fn launch_steps() -> Seq<Step> {
    seq![
        Step::Hooks(LifecycleEvent::Startup(When::Before), true, 0),
        Step::Emit(Action::Spawn),
    ]
}

/// The steps that make a started `ghci` ready: its first prompt is awaited, it
/// is configured, its paths and targets are read, then the eval commands of
/// the targets, and the compilation is ended at `events`.
pub open spec fn initialize_steps(events: Seq<LifecycleEvent>) -> Seq<Step> {
    seq![
        Step::Emit(Action::AwaitStartup),
        Step::Emit(Action::Configure),
        Step::Emit(Action::ShowPaths),
        Step::Emit(Action::ShowTargets),
        Step::BeginRefresh,
        Step::RefreshTarget(0),
        Step::CommitRefresh,
    ] + finish_steps(events)
}

/// The events at which a restarted `ghci` ends its first compilation.
pub open spec fn restart_events() -> Seq<LifecycleEvent> {
    seq![LifecycleEvent::Startup(When::After), LifecycleEvent::Restart(When::After)]
}

/// The steps of a restart: the hooks that run before it, the old process is
/// let go, a new one is started, what was known of the old one is forgotten,
/// and the new one is made ready.
pub open spec fn restart_steps() -> Seq<Step> {
    seq![Step::Hooks(LifecycleEvent::Restart(When::Before), false, 0), Step::Emit(Action::Stop)]
        + launch_steps() + seq![Step::Reset] + initialize_steps(restart_events())
}

/// The steps that add and reload: every path of `add` is added, and where
/// `reload` holds a path `ghci` reloads once and the eval commands of each
/// path of `reload` are read again.
pub open spec fn change_steps(reload: Seq<NormalPath>, add: Seq<NormalPath>) -> Seq<Step> {
    add.map_values(|path: NormalPath| Step::AddModule(path)) + if reload.len() > 0 {
        seq![Step::Emit(Action::Reload)] + reload.map_values(
            |path: NormalPath| Step::RefreshEval(path),
        )
    } else {
        Seq::empty()
    }
}

/// The steps with which a session responds to file events of which the paths
/// `restart` ask for a restart, `reload` for a reload and `add` for an
/// addition.
///
/// One path that asks for a restart makes the whole response a restart.
/// Else, where anything is to be added or reloaded, the hooks that run before
/// a reload come first and the end of the compilation last. Background
/// commands are pruned unless `ghci` was restarted.
pub open spec fn reload_steps(
    restart: Seq<NormalPath>,
    reload: Seq<NormalPath>,
    add: Seq<NormalPath>,
    clear: bool,
) -> Seq<Step> {
    if restart.len() > 0 {
        clear_steps(clear) + restart_steps()
    } else if reload.len() > 0 || add.len() > 0 {
        clear_steps(clear) + seq![Step::Hooks(LifecycleEvent::Reload(When::Before), false, 0)]
            + change_steps(reload, add) + finish_steps(seq![LifecycleEvent::Reload(When::After)])
            + seq![Step::Emit(Action::PruneCommandHandles)]
    } else {
        seq![Step::Emit(Action::PruneCommandHandles)]
    }
}

impl Clone for EvalJob {
    fn clone(&self) -> (res: Self)
        ensures
            res == *self,
    {
        EvalJob { path: self.path.clone(), command: self.command.clone() }
    }
}

/// The reply that is waited for once `action` is handed out.
fn expectation(action: &Action) -> (awaiting: Awaiting)
    ensures
        awaiting == expected_after(*action),
{
    match action {
        Action::Spawn => Awaiting::Spawned,
        Action::AwaitStartup => Awaiting::Prompt,
        Action::Configure => Awaiting::Prompt,
        Action::ShowPaths => Awaiting::Paths,
        Action::ShowTargets => Awaiting::Targets,
        Action::ReadEvalCommands(path) => Awaiting::EvalCommands(path.clone(), false),
        Action::AddModule(path) => Awaiting::Added(path.clone()),
        Action::InterpretModule(_) => Awaiting::Prompt,
        Action::Reload => Awaiting::Prompt,
        Action::Eval(_) => Awaiting::Prompt,
        Action::RunCommand(_) => Awaiting::Prompt,
        Action::Interrupt => Awaiting::Resync,
        _ => Awaiting::Nothing,
    }
}

/// Whether `event` is the point before `ghci` is started.
fn is_startup(event: LifecycleEvent) -> (startup: bool)
    ensures
        startup == (event == LifecycleEvent::Startup(When::Before)),
{
    match event {
        LifecycleEvent::Startup(When::Before) => true,
        _ => false,
    }
}

/// Appends the steps that end a compilation at `events`.
fn finish_compilation(steps: &mut VecDeque<Step>, events: &[LifecycleEvent])
    requires
        events@.len() > 0,
    ensures
        final(steps)@ == old(steps)@ + finish_steps(events@),
{
    let ghost before = steps@;
    steps.push_back(Step::Emit(Action::WriteErrorLog));
    let mut i: usize = 0;
    while i < events.len()
        invariant
            i <= events@.len(),
            steps@ == before + seq![Step::Emit(Action::WriteErrorLog)] + events@.take(
                i as int,
            ).map_values(|event: LifecycleEvent| Step::Hooks(event, false, 0)),
        decreases events@.len() - i,
    {
        steps.push_back(Step::Hooks(events[i], false, 0));
        assert(events@.take(i + 1).map_values(|event: LifecycleEvent| Step::Hooks(event, false, 0))
            =~= events@.take(i as int).map_values(
            |event: LifecycleEvent| Step::Hooks(event, false, 0),
        ).push(Step::Hooks(events@[i as int], false, 0)));
        i = i + 1;
    }
    assert(events@.take(i as int) == events@);
    steps.push_back(Step::Conclude(events[events.len() - 1]));
}

/// Appends the steps that start `ghci`.
fn push_launch(steps: &mut VecDeque<Step>)
    ensures
        final(steps)@ == old(steps)@ + launch_steps(),
{
    steps.push_back(Step::Hooks(LifecycleEvent::Startup(When::Before), true, 0));
    steps.push_back(Step::Emit(Action::Spawn));
}

/// Appends the steps that make a started `ghci` ready.
fn push_initialize(steps: &mut VecDeque<Step>, events: &[LifecycleEvent])
    requires
        events@.len() > 0,
    ensures
        final(steps)@ == old(steps)@ + initialize_steps(events@),
{
    steps.push_back(Step::Emit(Action::AwaitStartup));
    steps.push_back(Step::Emit(Action::Configure));
    steps.push_back(Step::Emit(Action::ShowPaths));
    steps.push_back(Step::Emit(Action::ShowTargets));
    steps.push_back(Step::BeginRefresh);
    steps.push_back(Step::RefreshTarget(0));
    steps.push_back(Step::CommitRefresh);
    finish_compilation(steps, events);
}

/// Appends the steps of a restart.
fn push_restart(steps: &mut VecDeque<Step>)
    ensures
        final(steps)@ == old(steps)@ + restart_steps(),
{
    steps.push_back(Step::Hooks(LifecycleEvent::Restart(When::Before), false, 0));
    steps.push_back(Step::Emit(Action::Stop));
    push_launch(steps);
    steps.push_back(Step::Reset);
    let events = [LifecycleEvent::Startup(When::After), LifecycleEvent::Restart(When::After)];
    assert(events@ =~= restart_events());
    push_initialize(steps, events.as_slice());
}

/// Appends the steps that add the paths of `add` and reload for those of
/// `reload`.
fn push_changes(steps: &mut VecDeque<Step>, reload: &Vec<NormalPath>, add: &Vec<NormalPath>)
    ensures
        final(steps)@ == old(steps)@ + change_steps(reload@, add@),
{
    let ghost before = steps@;
    let mut i: usize = 0;
    while i < add.len()
        invariant
            i <= add@.len(),
            steps@ == before + add@.take(i as int).map_values(
                |path: NormalPath| Step::AddModule(path),
            ),
        decreases add@.len() - i,
    {
        steps.push_back(Step::AddModule(add[i].clone()));
        assert(add@.take(i + 1).map_values(|path: NormalPath| Step::AddModule(path)) =~= add@.take(
            i as int,
        ).map_values(|path: NormalPath| Step::AddModule(path)).push(Step::AddModule(add@[i as int])));
        i = i + 1;
    }
    assert(add@.take(i as int) == add@);
    if reload.len() > 0 {
        let ghost added = steps@;
        steps.push_back(Step::Emit(Action::Reload));
        let mut j: usize = 0;
        while j < reload.len()
            invariant
                j <= reload@.len(),
                steps@ == added + seq![Step::Emit(Action::Reload)] + reload@.take(
                    j as int,
                ).map_values(|path: NormalPath| Step::RefreshEval(path)),
            decreases reload@.len() - j,
        {
            steps.push_back(Step::RefreshEval(reload[j].clone()));
            assert(reload@.take(j + 1).map_values(|path: NormalPath| Step::RefreshEval(path))
                =~= reload@.take(j as int).map_values(
                |path: NormalPath| Step::RefreshEval(path),
            ).push(Step::RefreshEval(reload@[j as int])));
            j = j + 1;
        }
        assert(reload@.take(j as int) == reload@);
    }
}

impl View for Ghci {
    type V = SessionState;

    closed spec fn view(&self) -> SessionState {
        SessionState {
            targets: self.targets@,
            eval_commands: self.eval_commands@,
            staged: self.staged@,
            jobs: self.jobs@,
            cwd: self.search_paths.cwd,
            search_paths: self.search_paths.search_paths@,
            log: self.log,
            fatal: self.fatal,
            steps: self.steps@,
            awaiting: self.awaiting,
        }
    }
}

impl Ghci {
    /// The options of the session.
    pub closed spec fn spec_opts(&self) -> GhciOpts {
        self.opts
    }

    /// A session for a `ghci` that is yet to be started: it knows no targets,
    /// no eval commands and no paths, and what it has to do is to start
    /// `ghci`.
    pub fn new(opts: GhciOpts) -> (ghci: Self)
        ensures
            ghci.spec_opts() == opts,
            ghci@.targets.len() == 0,
            ghci@.eval_commands.len() == 0,
            ghci@.staged.len() == 0,
            ghci@.jobs.len() == 0,
            ghci@.cwd@.len() == 0,
            ghci@.search_paths.len() == 0,
            ghci@.log.summary is None,
            ghci@.fatal,
            ghci@.steps == launch_steps(),
            ghci@.awaiting == Awaiting::Nothing,
    {
        let mut steps: VecDeque<Step> = VecDeque::new();
        push_launch(&mut steps);
        Ghci {
            opts: opts,
            targets: ModuleSet::new(),
            eval_commands: EvalCommands::new(),
            staged: EvalCommands::new(),
            jobs: Vec::new(),
            search_paths: ShowPaths { cwd: String::new(), search_paths: Vec::new() },
            log: CompilationLog::new(),
            fatal: true,
            steps: steps,
            awaiting: Awaiting::Nothing,
        }
    }

    /// The options of the session.
    pub fn opts(&self) -> (opts: &GhciOpts)
        ensures
            *opts == self.spec_opts(),
    {
        &self.opts
    }

    /// The targets of `ghci`.
    pub fn targets(&self) -> (targets: &ModuleSet)
        ensures
            targets@ == self@.targets,
    {
        &self.targets
    }

    /// The eval commands of the source files.
    pub fn eval_commands(&self) -> (commands: &EvalCommands)
        ensures
            commands@ == self@.eval_commands,
    {
        &self.eval_commands
    }

    /// The working directory and the search paths of `ghci`.
    pub fn search_paths(&self) -> (paths: &ShowPaths)
        ensures
            paths.cwd == self@.cwd,
            paths.search_paths@ == self@.search_paths,
    {
        &self.search_paths
    }

    /// The log of the compilation in progress.
    pub fn log(&self) -> (log: CompilationLog)
        ensures
            log == self@.log,
    {
        self.log
    }

    /// Whether nothing is left to do and no reply is waited for.
    pub fn is_idle(&self) -> (idle: bool)
        ensures
            idle == (self@.steps.len() == 0 && self@.awaiting is Nothing),
    {
        let waiting = match &self.awaiting {
            Awaiting::Nothing => false,
            _ => true,
        };
        self.steps.len() == 0 && !waiting
    }

    /// Sorts the paths of `events` by what each event asks of this session.
    pub fn get_reload_actions(&self, events: &Vec<MatchedEvent>) -> (actions: ReloadActions)
        ensures
            actions.needs_restart@ == selected(
                events@,
                self@.targets,
                views_of(self.spec_opts().source_extensions@),
                ReloadAction::Restart,
            ),
            actions.needs_reload@ == selected(
                events@,
                self@.targets,
                views_of(self.spec_opts().source_extensions@),
                ReloadAction::Reload,
            ),
            actions.needs_add@ == selected(
                events@,
                self@.targets,
                views_of(self.spec_opts().source_extensions@),
                ReloadAction::Add,
            ),
    {
        reload_actions(events, &self.targets, &self.opts.source_extensions)
    }

    /// Queues, behind what is still to be done, the steps that make a started
    /// `ghci` ready, and takes `log` as the log of the compilation in
    /// progress. The compilation is ended at `events`, of which there is at
    /// least one.
    pub fn initialize<const N: usize>(&mut self, log: CompilationLog, events: [LifecycleEvent; N])
        requires
            N > 0,
        ensures
            final(self).spec_opts() == old(self).spec_opts(),
            final(self)@ == (SessionState {
                log: log,
                fatal: true,
                steps: old(self)@.steps + initialize_steps(events@),
                ..old(self)@
            }),
    {
        self.log = log;
        self.fatal = true;
        push_initialize(&mut self.steps, events.as_slice());
    }

    /// Responds to file events. What was still to be done is dropped, and the
    /// steps of the response take its place, with a new log; the result says
    /// of what kind the response is, before any of it is done.
    pub fn reload(&mut self, events: &Vec<MatchedEvent>) -> (kind: GhciReloadKind)
        ensures
            final(self).spec_opts() == old(self).spec_opts(),
            kind == kind_of(
                selected(
                    events@,
                    old(self)@.targets,
                    views_of(old(self).spec_opts().source_extensions@),
                    ReloadAction::Restart,
                ).len(),
                selected(
                    events@,
                    old(self)@.targets,
                    views_of(old(self).spec_opts().source_extensions@),
                    ReloadAction::Reload,
                ).len(),
                selected(
                    events@,
                    old(self)@.targets,
                    views_of(old(self).spec_opts().source_extensions@),
                    ReloadAction::Add,
                ).len(),
            ),
            final(self)@ == (SessionState {
                log: CompilationLog { summary: None },
                fatal: kind == GhciReloadKind::Restart,
                steps: reload_steps(
                    selected(
                        events@,
                        old(self)@.targets,
                        views_of(old(self).spec_opts().source_extensions@),
                        ReloadAction::Restart,
                    ),
                    selected(
                        events@,
                        old(self)@.targets,
                        views_of(old(self).spec_opts().source_extensions@),
                        ReloadAction::Reload,
                    ),
                    selected(
                        events@,
                        old(self)@.targets,
                        views_of(old(self).spec_opts().source_extensions@),
                        ReloadAction::Add,
                    ),
                    old(self).spec_opts().clear,
                ),
                awaiting: Awaiting::Nothing,
                ..old(self)@
            }),
    {
        let actions = self.get_reload_actions(events);
        let kind = actions.kind();
        self.steps.clear();
        self.awaiting = Awaiting::Nothing;
        self.log = CompilationLog::new();
        self.fatal = actions.needs_restart();
        if actions.needs_restart() {
            if self.opts.clear {
                self.steps.push_back(Step::Emit(Action::ClearScreen));
            }
            push_restart(&mut self.steps);
        } else {
            if actions.needs_add_or_reload() {
                if self.opts.clear {
                    self.steps.push_back(Step::Emit(Action::ClearScreen));
                }
                self.steps.push_back(Step::Hooks(LifecycleEvent::Reload(When::Before), false, 0));
                push_changes(&mut self.steps, &actions.needs_reload, &actions.needs_add);
                let events = [LifecycleEvent::Reload(When::After)];
                assert(events@ =~= seq![LifecycleEvent::Reload(When::After)]);
                finish_compilation(&mut self.steps, events.as_slice());
            }
            self.steps.push_back(Step::Emit(Action::PruneCommandHandles));
        }
        kind
    }

    /// Restarts `ghci`. What was still to be done is dropped, and the steps of
    /// a restart take its place, with a new log.
    pub fn restart(&mut self)
        ensures
            final(self).spec_opts() == old(self).spec_opts(),
            final(self)@ == (SessionState {
                log: CompilationLog { summary: None },
                fatal: true,
                steps: restart_steps(),
                awaiting: Awaiting::Nothing,
                ..old(self)@
            }),
    {
        self.steps.clear();
        self.awaiting = Awaiting::Nothing;
        self.log = CompilationLog::new();
        self.fatal = true;
        push_restart(&mut self.steps);
    }

    /// Gives up what was still to be done. The action is to interrupt `ghci`
    /// and to read up to its next prompt; what `ghci` prints on the way does
    /// not reach the log. Targets and eval commands stay as they are.
    pub fn interrupt(&mut self) -> (action: Action)
        ensures
            final(self).spec_opts() == old(self).spec_opts(),
            action == Action::Interrupt,
            final(self)@ == (SessionState {
                steps: Seq::empty(),
                awaiting: Awaiting::Resync,
                ..old(self)@
            }),
    {
        self.steps.clear();
        self.awaiting = Awaiting::Resync;
        Action::Interrupt
    }

    /// Takes `reply` in. The result says whether it is of the kind that was
    /// waited for, and does not say that the action failed.
    fn receive(&mut self, reply: Reply) -> (taken: bool)
        ensures
            final(self).opts == old(self).opts,
            match received(old(self)@, reply) {
                Some(state) => taken && final(self)@ == state,
                None => !taken && final(self)@ == old(self)@,
            },
    {
        let mut awaiting = Awaiting::Nothing;
        std::mem::swap(&mut awaiting, &mut self.awaiting);
        match (awaiting, reply) {
            (Awaiting::Nothing, Reply::Done) => {
                self.awaiting = Awaiting::Nothing;
                true
            },
            (Awaiting::Prompt, Reply::Prompt(summary)) => {
                self.awaiting = Awaiting::Prompt;
                self.log.record(summary);
                true
            },
            (Awaiting::Resync, Reply::Prompt(_)) => {
                self.awaiting = Awaiting::Resync;
                true
            },
            (Awaiting::Shell(required), Reply::Done) => {
                self.awaiting = Awaiting::Shell(required);
                true
            },
            (Awaiting::Shell(false), Reply::Failed(ErrorKind::UserCommand)) => {
                self.awaiting = Awaiting::Shell(false);
                true
            },
            (Awaiting::Spawned, Reply::Spawned(cwd)) => {
                self.awaiting = Awaiting::Spawned;
                self.search_paths = ShowPaths { cwd: cwd, search_paths: Vec::new() };
                true
            },
            (Awaiting::Paths, Reply::Paths(paths)) => {
                self.awaiting = Awaiting::Paths;
                self.search_paths = paths;
                true
            },
            (Awaiting::Targets, Reply::Targets(targets)) => {
                self.awaiting = Awaiting::Targets;
                self.targets = targets;
                true
            },
            (Awaiting::EvalCommands(path, staged), Reply::EvalCommands(commands)) => {
                self.awaiting = Awaiting::EvalCommands(path.clone(), staged);
                if !staged {
                    self.eval_commands.insert(path, commands);
                } else if commands.len() > 0 {
                    self.staged.insert(path, commands);
                }
                true
            },
            (Awaiting::Added(path), Reply::Prompt(summary)) => {
                self.awaiting = Awaiting::Added(path.clone());
                self.log.record(summary);
                self.targets.insert_source_path(path, TargetKind::Path);
                true
            },
            (Awaiting::Interpreted(path, kind, loaded), Reply::Prompt(summary)) => {
                self.awaiting = Awaiting::Interpreted(path.clone(), kind, loaded);
                self.log.record(summary);
                if !loaded {
                    self.targets.insert_source_path(path, kind);
                }
                true
            },
            (awaiting, _) => {
                self.awaiting = awaiting;
                false
            },
        }
    }

    /// Runs the first hook of `event` at or after position `from` (the first
    /// shell hook, with `shell_only`).
    fn run_hooks(&mut self, event: LifecycleEvent, shell_only: bool, from: usize) -> (action: Option<
        Action,
    >)
        ensures
            final(self).opts == old(self).opts,
            (final(self)@, action) == hooks_outcome(
                old(self)@,
                old(self).opts,
                event,
                shell_only,
                from,
            ),
    {
        proof {
            lemma_next_hook(self.opts.hooks@, event, shell_only, from as int);
        }
        let at = self.opts.hooks.next(event, shell_only, from);
        if at >= self.opts.hooks.hooks.len() {
            return None;
        }
        self.steps.push_front(Step::Hooks(event, shell_only, at + 1));
        match &self.opts.hooks.hooks[at].command {
            HookCommand::Ghci(_) => {
                self.awaiting = Awaiting::Prompt;
                Some(Action::RunCommand(at))
            },
            HookCommand::Shell(command) => {
                let background = command.is_async && !is_startup(event);
                self.awaiting = Awaiting::Shell(self.opts.hooks.hooks[at].required);
                Some(Action::RunShellHook(at, background))
            },
        }
    }

    /// Adds the file `path` to `ghci`, unless it is a target.
    fn add_module(&mut self, path: NormalPath) -> (action: Option<Action>)
        ensures
            final(self).opts == old(self).opts,
            (final(self)@, action) == addition_outcome(old(self)@, path),
    {
        if self.targets.contains_source_path(path.absolute()) {
            return None;
        }
        self.steps.push_front(Step::RefreshEval(path.clone()));
        self.awaiting = Awaiting::Added(path.clone());
        Some(Action::AddModule(path))
    }

    /// Reads the eval commands of the file `path` again, if eval is enabled.
    fn refresh_eval_commands_for_path(&mut self, path: NormalPath) -> (action: Option<Action>)
        ensures
            final(self).opts == old(self).opts,
            (final(self)@, action) == refresh_outcome(old(self)@, old(self).opts, path),
    {
        if !self.opts.enable_eval {
            return None;
        }
        self.awaiting = Awaiting::EvalCommands(path.clone(), false);
        Some(Action::ReadEvalCommands(path))
    }

    /// Reads the eval commands of the target at position `at`, if eval is
    /// enabled and there is such a target.
    fn refresh_eval_commands(&mut self, at: usize) -> (action: Option<Action>)
        ensures
            final(self).opts == old(self).opts,
            (final(self)@, action) == refresh_target_outcome(old(self)@, old(self).opts, at),
    {
        if !self.opts.enable_eval || at >= self.targets.len() {
            return None;
        }
        match self.targets.get(at) {
            Some(target) => {
                let path = target.path.clone();
                self.steps.push_front(Step::RefreshTarget(at + 1));
                self.awaiting = Awaiting::EvalCommands(path.clone(), true);
                Some(Action::ReadEvalCommands(path))
            },
            None => None,
        }
    }

    /// Ends a compilation at `event`: reports it, and after a success queues
    /// the eval commands and the test hooks.
    fn conclude(&mut self, event: LifecycleEvent) -> (action: Option<Action>)
        ensures
            final(self).opts == old(self).opts,
            (final(self)@, action) == conclusion_outcome(old(self)@, old(self).opts, event),
    {
        let failed = match self.log.result() {
            Some(CompilationResult::Failed) => true,
            _ => false,
        };
        self.awaiting = Awaiting::Nothing;
        if failed {
            return Some(Action::Report(event, false));
        }
        self.jobs = if self.opts.enable_eval {
            self.eval_commands.flatten()
        } else {
            Vec::new()
        };
        self.steps.push_front(Step::Hooks(LifecycleEvent::Test, false, 0));
        self.steps.push_front(Step::EvalNext(0));
        Some(Action::Report(event, true))
    }

    /// Runs the eval command at position `at`, if there is one: its module is
    /// interpreted, and the evaluation is queued behind that.
    fn eval(&mut self, at: usize) -> (action: Option<Action>)
        ensures
            final(self).opts == old(self).opts,
            (final(self)@, action) == eval_outcome(old(self)@, at),
    {
        if at >= self.jobs.len() {
            return None;
        }
        let ghost before = self.steps@;
        let job = self.jobs[at].clone();
        let info = self.targets.module_import_name(&job.path);
        self.awaiting = Awaiting::Interpreted(job.path.clone(), info.kind, info.loaded);
        self.steps.push_front(Step::EvalNext(at + 1));
        self.steps.push_front(Step::RefreshEval(job.path.clone()));
        self.steps.insert(1, Step::Emit(Action::Eval(job)));
        assert(self.steps@ =~= seq![Step::RefreshEval(job.path)] + (seq![
            Step::Emit(Action::Eval(job)),
        ] + (seq![Step::EvalNext((at + 1) as usize)] + before)));
        Some(Action::InterpretModule(info.name))
    }

    /// Takes one step, which has been removed from the steps.
    fn take(&mut self, step: Step) -> (action: Option<Action>)
        ensures
            final(self).opts == old(self).opts,
            (final(self)@, action) == outcome(old(self)@, old(self).opts, step),
    {
        match step {
            Step::Emit(action) => {
                self.awaiting = expectation(&action);
                Some(action)
            },
            Step::Hooks(event, shell_only, from) => self.run_hooks(event, shell_only, from),
            Step::AddModule(path) => self.add_module(path),
            Step::RefreshEval(path) => self.refresh_eval_commands_for_path(path),
            Step::BeginRefresh => {
                if self.opts.enable_eval {
                    self.staged = EvalCommands::new();
                }
                None
            },
            Step::RefreshTarget(at) => self.refresh_eval_commands(at),
            Step::CommitRefresh => {
                if self.opts.enable_eval {
                    let mut staged = EvalCommands::new();
                    std::mem::swap(&mut staged, &mut self.staged);
                    self.eval_commands = staged;
                }
                None
            },
            Step::Conclude(event) => self.conclude(event),
            Step::EvalNext(at) => self.eval(at),
            Step::Reset => {
                self.targets = ModuleSet::new();
                self.eval_commands = EvalCommands::new();
                self.staged = EvalCommands::new();
                self.jobs = Vec::new();
                None
            },
        }
    }

    /// Works through the steps up to the first that has something for the
    /// caller to do, and hands that out.
    fn progress(&mut self) -> (action: Action)
        ensures
            final(self).opts == old(self).opts,
            (final(self)@, action) == progressed(old(self)@, old(self).opts),
    {
        loop
            invariant
                self.opts == old(self).opts,
                progressed(self@, self.opts) == progressed(old(self)@, old(self).opts),
            decreases self.steps@.len(),
        {
            let ghost before = self@;
            let step = match self.steps.pop_front() {
                Some(step) => step,
                None => {
                    self.awaiting = Awaiting::Nothing;
                    return Action::Done;
                },
            };
            assert(self@ == SessionState { steps: before.steps.drop_first(), ..before });
            proof {
                lemma_idle_step(self@, self.opts, step);
            }
            match self.take(step) {
                Some(action) => {
                    return action;
                },
                None => {},
            }
        }
    }

    /// Takes in what came of the last action, and says what to do next.
    ///
    /// Where the action failed, or `reply` is not of the kind that the last
    /// action calls for, the operation is given up: the result is
    /// [`Action::Failed`], nothing is left to do, and what the session knows
    /// of `ghci` stays as it was. Only a shell hook that is not required may
    /// fail, as a command of the user, without ending the operation.
    pub fn advance(&mut self, reply: Reply) -> (action: Action)
        ensures
            final(self).spec_opts() == old(self).spec_opts(),
            (final(self)@, action) == advanced(old(self)@, old(self).spec_opts(), reply),
    {
        if self.receive(reply) {
            self.progress()
        } else {
            self.steps.clear();
            self.awaiting = Awaiting::Nothing;
            Action::Failed(self.fatal)
        }
    }
}

} // verus!

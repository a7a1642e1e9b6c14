use ghciwatch::command::{ClonableCommand, MaybeAsyncCommand};
use ghciwatch::error::ErrorKind;
use ghciwatch::eval::{EvalCommand, EvalKind};
use ghciwatch::hooks::{Hook, HookCommand, HookOpts, LifecycleEvent, When};
use ghciwatch::log::{CompilationLog, CompilationResult, CompilationSummary};
use ghciwatch::opts::{GhciOpts, GhciWriter};
use ghciwatch::path::NormalPath;
use ghciwatch::reload::{FileEvent, GhciReloadKind, GlobMatch, MatchedEvent};
use ghciwatch::session::{Action, Ghci, Reply, ShowPaths};
use ghciwatch::stdin;
use ghciwatch::targets::{ModuleSet, Target, TargetKind};

/// A stand-in for `ghci` and the file system.
struct World {
    /// The source files: relative path, module name, eval commands.
    files: Vec<(String, String, Vec<(usize, String)>)>,
    /// How the next compilations end.
    result: CompilationResult,
    /// The action that fails, by its name, and how.
    failing: Option<(String, ErrorKind)>,
    /// The names of the actions that were performed.
    trace: Vec<String>,
    /// How many commands `ghci` was given.
    commands: usize,
    /// How many prompts `ghci` printed.
    prompts: usize,
}

fn path(relative: &str) -> NormalPath {
    NormalPath::new(&format!("/project/{relative}"), relative)
}

fn name(action: &Action) -> String {
    match action {
        Action::Done => "done".to_string(),
        Action::Failed(fatal) => format!("failed {fatal}"),
        Action::ClearScreen => "clear".to_string(),
        Action::RunShellHook(at, false) => format!("shell {at}"),
        Action::RunShellHook(at, true) => format!("shell {at} &"),
        Action::Spawn => "spawn".to_string(),
        Action::AwaitStartup => "await-startup".to_string(),
        Action::Configure => "configure".to_string(),
        Action::ShowPaths => stdin::show_paths(),
        Action::ShowTargets => stdin::show_targets(),
        Action::ReadEvalCommands(path) => format!("read {}", path.relative()),
        Action::AddModule(path) => stdin::add_module(path.relative()),
        Action::InterpretModule(module) => stdin::interpret_module(module),
        Action::Reload => stdin::reload(),
        Action::Eval(job) => format!("eval {}", job.describe()),
        Action::RunCommand(at) => format!("command {at}"),
        Action::WriteErrorLog => "write-error-log".to_string(),
        Action::Report(event, succeeded) => format!("report {event:?} {succeeded}"),
        Action::Stop => "stop".to_string(),
        Action::PruneCommandHandles => "prune".to_string(),
        Action::Interrupt => "interrupt".to_string(),
    }
}

impl World {
    fn new(files: &[(&str, &str)]) -> World {
        World {
            files: files
                .iter()
                .map(|(path, module)| (path.to_string(), module.to_string(), Vec::new()))
                .collect(),
            result: CompilationResult::Succeeded,
            failing: None,
            trace: Vec::new(),
            commands: 0,
            prompts: 0,
        }
    }

    fn summary(&self) -> Option<CompilationSummary> {
        Some(CompilationSummary { result: self.result, modules_loaded: self.files.len() })
    }

    fn eval_commands(&self, path: &NormalPath) -> Vec<EvalCommand> {
        self.files
            .iter()
            .filter(|(relative, _, _)| relative == path.relative())
            .flat_map(|(_, _, commands)| commands.iter())
            .map(|(line, command)| EvalCommand {
                line: *line,
                kind: EvalKind::Line,
                command: command.clone(),
            })
            .collect()
    }

    fn targets(&self) -> ModuleSet {
        let mut set = ModuleSet::new();
        for (relative, module, _) in &self.files {
            set.insert(Target {
                path: path(relative),
                name: Some(module.clone()),
                kind: TargetKind::Module,
                loaded: true,
            });
        }
        set
    }

    fn perform(&mut self, action: &Action) -> Reply {
        let performed = name(action);
        self.trace.push(performed.clone());
        if let Some((failing, kind)) = &self.failing {
            if *failing == performed {
                return Reply::Failed(*kind);
            }
        }
        let reply = self.answer(action);
        if matches!(
            action,
            Action::AwaitStartup
                | Action::Configure
                | Action::ShowPaths
                | Action::ShowTargets
                | Action::AddModule(_)
                | Action::InterpretModule(_)
                | Action::Reload
                | Action::Eval(_)
                | Action::RunCommand(_)
                | Action::Interrupt
        ) {
            self.commands += 1;
        }
        if matches!(reply, Reply::Prompt(_) | Reply::Paths(_) | Reply::Targets(_)) {
            self.prompts += 1;
        }
        reply
    }

    fn answer(&self, action: &Action) -> Reply {
        match action {
            Action::Spawn => Reply::Spawned("/project".to_string()),
            Action::AwaitStartup | Action::Configure => Reply::Prompt(None),
            Action::ShowPaths => Reply::Paths(ShowPaths {
                cwd: "/project".to_string(),
                search_paths: vec!["/project".to_string()],
            }),
            Action::ShowTargets => Reply::Targets(self.targets()),
            Action::ReadEvalCommands(path) => Reply::EvalCommands(self.eval_commands(path)),
            Action::AddModule(_) | Action::Reload => Reply::Prompt(self.summary()),
            Action::InterpretModule(_) | Action::Eval(_) | Action::RunCommand(_) => {
                Reply::Prompt(None)
            }
            Action::Interrupt => Reply::Prompt(self.summary()),
            _ => Reply::Done,
        }
    }

    /// Performs the actions of the session until it has none left. Returns the
    /// last action.
    fn drive(&mut self, ghci: &mut Ghci) -> Action {
        let mut reply = Reply::Done;
        loop {
            let action = ghci.advance(reply);
            match action {
                Action::Done | Action::Failed(_) => return action,
                _ => reply = self.perform(&action),
            }
        }
    }

    fn take_trace(&mut self) -> Vec<String> {
        std::mem::take(&mut self.trace)
    }
}

fn options(enable_eval: bool, hooks: Vec<Hook>) -> GhciOpts {
    GhciOpts {
        command: ClonableCommand::new("repl"),
        error_path: None,
        enable_eval,
        hooks: HookOpts { hooks },
        source_extensions: vec!["src".to_string()],
        no_interrupt_reloads: false,
        stdout_writer: GhciWriter::Stdout,
        stderr_writer: GhciWriter::Stderr,
        clear: false,
    }
}

fn started(world: &mut World, opts: GhciOpts) -> Ghci {
    let mut ghci = Ghci::new(opts);
    assert!(matches!(world.drive(&mut ghci), Action::Done));
    ghci.initialize(CompilationLog::new(), [LifecycleEvent::Startup(When::After)]);
    assert!(matches!(world.drive(&mut ghci), Action::Done));
    ghci
}

fn modified(relative: &str) -> MatchedEvent {
    MatchedEvent {
        event: FileEvent::Modify(path(relative)),
        restart_match: GlobMatch::Unmatched,
        reload_match: GlobMatch::Unmatched,
    }
}

fn removed(relative: &str) -> MatchedEvent {
    MatchedEvent {
        event: FileEvent::Remove(path(relative)),
        restart_match: GlobMatch::Unmatched,
        reload_match: GlobMatch::Unmatched,
    }
}

fn target_paths(ghci: &Ghci) -> Vec<String> {
    let targets = ghci.targets();
    (0..targets.len())
        .map(|at| targets.get(at).unwrap().path.relative().to_string())
        .collect()
}

fn ghci_hook(event: LifecycleEvent, command: &str) -> Hook {
    Hook { event, command: HookCommand::Ghci(command.to_string()), required: false }
}

fn shell_hook(event: LifecycleEvent, program: &str) -> Hook {
    Hook {
        event,
        command: HookCommand::Shell(MaybeAsyncCommand {
            is_async: false,
            command: ClonableCommand::new(program),
        }),
        required: false,
    }
}

fn background_hook(event: LifecycleEvent, program: &str) -> Hook {
    Hook {
        event,
        command: HookCommand::Shell(MaybeAsyncCommand {
            is_async: true,
            command: ClonableCommand::new(program),
        }),
        required: false,
    }
}

#[test]
fn startup_reads_targets_and_finds_no_eval_commands() {
    let mut world = World::new(&[("A.src", "A")]);
    let ghci = started(&mut world, options(true, Vec::new()));
    assert_eq!(ghci.opts().command.program, "repl");
    assert_eq!(target_paths(&ghci), vec!["A.src"]);
    assert_eq!(ghci.eval_commands().len(), 0);
    assert!(ghci.is_idle());
    assert_eq!(
        world.take_trace(),
        vec![
            "spawn",
            "await-startup",
            "configure",
            ":show paths",
            ":show targets",
            "read A.src",
            "write-error-log",
            "report Startup(After) true",
        ]
    );
    assert_eq!(ghci.search_paths().cwd, "/project");
    assert_eq!(ghci.search_paths().search_paths, vec!["/project"]);
}

#[test]
fn modified_target_is_reloaded_once() {
    let mut world = World::new(&[("A.src", "A")]);
    let mut ghci = started(&mut world, options(false, Vec::new()));
    world.take_trace();

    let events = vec![modified("A.src")];
    let actions = ghci.get_reload_actions(&events);
    assert!(actions.needs_restart.is_empty());
    assert!(actions.needs_add.is_empty());
    assert_eq!(actions.needs_reload.len(), 1);
    assert_eq!(actions.needs_reload[0].relative(), "A.src");

    assert_eq!(ghci.reload(&events), GhciReloadKind::Reload);
    assert!(matches!(world.drive(&mut ghci), Action::Done));
    let trace = world.take_trace();
    assert_eq!(trace.iter().filter(|action| *action == ":reload").count(), 1);
    assert_eq!(
        trace,
        vec![":reload", "write-error-log", "report Reload(After) true", "prune"]
    );
    assert_eq!(
        ghci.log().summary,
        Some(CompilationSummary { result: CompilationResult::Succeeded, modules_loaded: 1 })
    );
    assert_eq!(target_paths(&ghci), vec!["A.src"]);
}

#[test]
fn created_source_file_is_added() {
    let mut world = World::new(&[("A.src", "A")]);
    let mut ghci = started(&mut world, options(false, Vec::new()));
    world.take_trace();

    world.files.push(("B.src".to_string(), "B".to_string(), Vec::new()));
    let events = vec![modified("B.src")];
    let actions = ghci.get_reload_actions(&events);
    assert!(actions.needs_restart.is_empty());
    assert!(actions.needs_reload.is_empty());
    assert_eq!(actions.needs_add.len(), 1);
    assert_eq!(actions.needs_add[0].relative(), "B.src");

    assert_eq!(ghci.reload(&events), GhciReloadKind::Reload);
    assert!(matches!(world.drive(&mut ghci), Action::Done));
    assert_eq!(
        world.take_trace(),
        vec![":add B.src", "write-error-log", "report Reload(After) true", "prune"]
    );
    assert_eq!(target_paths(&ghci), vec!["A.src", "B.src"]);
}

#[test]
fn removed_target_restarts_the_session() {
    let mut world = World::new(&[("A.src", "A")]);
    let mut ghci = started(&mut world, options(false, Vec::new()));
    world.files.push(("B.src".to_string(), "B".to_string(), Vec::new()));
    assert_eq!(ghci.reload(&vec![modified("B.src")]), GhciReloadKind::Reload);
    assert!(matches!(world.drive(&mut ghci), Action::Done));
    assert_eq!(target_paths(&ghci), vec!["A.src", "B.src"]);
    world.take_trace();

    world.files.remove(0);
    let events = vec![removed("A.src")];
    let actions = ghci.get_reload_actions(&events);
    assert_eq!(actions.needs_restart.len(), 1);
    assert_eq!(actions.needs_restart[0].relative(), "A.src");
    assert!(actions.needs_reload.is_empty());
    assert!(actions.needs_add.is_empty());

    assert_eq!(ghci.reload(&events), GhciReloadKind::Restart);
    assert!(matches!(world.drive(&mut ghci), Action::Done));
    assert_eq!(
        world.take_trace(),
        vec![
            "stop",
            "spawn",
            "await-startup",
            "configure",
            ":show paths",
            ":show targets",
            "write-error-log",
            "report Restart(After) true",
        ]
    );
    assert_eq!(target_paths(&ghci), vec!["B.src"]);
}

#[test]
fn restart_absorbs_reloads_and_additions() {
    let mut world = World::new(&[("A.src", "A"), ("B.src", "B")]);
    let mut ghci = started(&mut world, options(false, Vec::new()));
    world.take_trace();

    let events = vec![modified("B.src"), modified("C.src"), removed("A.src")];
    assert_eq!(ghci.reload(&events), GhciReloadKind::Restart);
    assert!(matches!(world.drive(&mut ghci), Action::Done));
    let trace = world.take_trace();
    assert!(trace.iter().all(|action| !action.starts_with(":add") && action != ":reload"));
    assert_eq!(trace[0], "stop");
    assert_eq!(trace[1], "spawn");
}

#[test]
fn eval_commands_run_in_the_scope_of_their_module() {
    let mut world = World::new(&[("A.src", "A")]);
    world.files[0].2.push((3, "1+1".to_string()));
    let ghci = started(&mut world, options(true, Vec::new()));
    assert_eq!(ghci.eval_commands().len(), 1);
    let entry = ghci.eval_commands().get(0).unwrap();
    assert_eq!(entry.path.relative(), "A.src");
    assert_eq!(entry.commands.len(), 1);
    assert_eq!(entry.commands[0].line, 3);
    assert_eq!(entry.commands[0].command, "1+1");
    assert_eq!(
        world.take_trace(),
        vec![
            "spawn",
            "await-startup",
            "configure",
            ":show paths",
            ":show targets",
            "read A.src",
            "write-error-log",
            "report Startup(After) true",
            ":add *A",
            "read A.src",
            "eval A.src:3: >>> 1+1",
        ]
    );
    assert_eq!(stdin::eval("A", "1+1"), vec![":module + *A", "1+1", ":module - *A"]);
}

#[test]
fn eval_is_skipped_when_disabled() {
    let mut world = World::new(&[("A.src", "A")]);
    world.files[0].2.push((3, "1+1".to_string()));
    let ghci = started(&mut world, options(false, Vec::new()));
    assert_eq!(ghci.eval_commands().len(), 0);
    assert!(world.take_trace().iter().all(|action| !action.starts_with("read")
        && !action.starts_with("eval")));
}

#[test]
fn eval_of_a_file_added_by_path_names_it_by_path() {
    let mut world = World::new(&[("A.src", "A")]);
    let mut ghci = started(&mut world, options(true, Vec::new()));
    world.take_trace();
    // A file that was added by its path has no import name: it is
    // interpreted under its relative path.
    world.files.push(("B.src".to_string(), "B".to_string(), vec![(7, "2*3".to_string())]));
    assert_eq!(ghci.reload(&vec![modified("B.src")]), GhciReloadKind::Reload);
    assert!(matches!(world.drive(&mut ghci), Action::Done));
    let trace = world.take_trace();
    assert_eq!(
        trace,
        vec![
            ":add B.src",
            "read B.src",
            "write-error-log",
            "report Reload(After) true",
            ":add *B.src",
            "read B.src",
            "eval B.src:7: >>> 2*3",
            "prune",
        ]
    );
    let targets = ghci.targets();
    let added = targets.get(1).unwrap();
    assert_eq!(added.kind, TargetKind::Path);
    assert!(added.loaded);
    assert_eq!(added.name, None);
}

#[test]
fn failed_compilation_runs_neither_eval_nor_tests() {
    let mut world = World::new(&[("A.src", "A")]);
    world.files[0].2.push((3, "1+1".to_string()));
    let hooks = vec![ghci_hook(LifecycleEvent::Test, "runTests")];
    let mut ghci = started(&mut world, options(true, hooks));
    let after_start = world.take_trace();
    assert_eq!(after_start.last().map(String::as_str), Some("command 0"));

    world.result = CompilationResult::Failed;
    assert_eq!(ghci.reload(&vec![modified("A.src")]), GhciReloadKind::Reload);
    assert!(matches!(world.drive(&mut ghci), Action::Done));
    assert_eq!(
        world.take_trace(),
        vec![
            ":reload",
            "read A.src",
            "write-error-log",
            "report Reload(After) false",
            "prune",
        ]
    );
    assert_eq!(ghci.log().result(), Some(CompilationResult::Failed));
}

#[test]
fn hooks_run_in_order_at_their_events() {
    let hooks = vec![
        ghci_hook(LifecycleEvent::Reload(When::After), "after-1"),
        shell_hook(LifecycleEvent::Startup(When::Before), "before-startup"),
        ghci_hook(LifecycleEvent::Startup(When::Before), "not-a-shell-hook"),
        ghci_hook(LifecycleEvent::Reload(When::Before), "before-1"),
        shell_hook(LifecycleEvent::Reload(When::After), "after-2"),
        ghci_hook(LifecycleEvent::Test, "test"),
        ghci_hook(LifecycleEvent::Startup(When::After), "after-startup"),
        ghci_hook(LifecycleEvent::Restart(When::Before), "before-restart"),
        ghci_hook(LifecycleEvent::Restart(When::After), "after-restart"),
    ];
    let mut world = World::new(&[("A.src", "A")]);
    let mut ghci = started(&mut world, options(false, hooks));
    assert_eq!(
        world.take_trace(),
        vec![
            "shell 1",
            "spawn",
            "await-startup",
            "configure",
            ":show paths",
            ":show targets",
            "write-error-log",
            "command 6",
            "report Startup(After) true",
            "command 5",
        ]
    );
    assert_eq!(ghci.opts().hooks.select(LifecycleEvent::Reload(When::After)), vec![0, 4]);

    assert_eq!(ghci.reload(&vec![modified("A.src")]), GhciReloadKind::Reload);
    assert!(matches!(world.drive(&mut ghci), Action::Done));
    assert_eq!(
        world.take_trace(),
        vec![
            "command 3",
            ":reload",
            "write-error-log",
            "command 0",
            "shell 4",
            "report Reload(After) true",
            "command 5",
            "prune",
        ]
    );

    assert_eq!(ghci.reload(&vec![removed("A.src")]), GhciReloadKind::Restart);
    assert!(matches!(world.drive(&mut ghci), Action::Done));
    assert_eq!(
        world.take_trace(),
        vec![
            "command 7",
            "stop",
            "shell 1",
            "spawn",
            "await-startup",
            "configure",
            ":show paths",
            ":show targets",
            "write-error-log",
            "command 6",
            "command 8",
            "report Restart(After) true",
            "command 5",
        ]
    );
}

#[test]
fn screen_is_cleared_before_reloads_and_restarts() {
    let mut opts = options(false, Vec::new());
    opts.clear = true;
    let mut world = World::new(&[("A.src", "A")]);
    let mut ghci = started(&mut world, opts);
    assert!(world.take_trace().iter().all(|action| action != "clear"));

    assert_eq!(ghci.reload(&vec![modified("A.src")]), GhciReloadKind::Reload);
    assert!(matches!(world.drive(&mut ghci), Action::Done));
    assert_eq!(world.take_trace()[0], "clear");

    assert_eq!(ghci.reload(&vec![removed("A.src")]), GhciReloadKind::Restart);
    assert!(matches!(world.drive(&mut ghci), Action::Done));
    assert_eq!(world.take_trace()[0], "clear");

    assert_eq!(ghci.reload(&vec![modified("notes.txt")]), GhciReloadKind::Noop);
    assert!(matches!(world.drive(&mut ghci), Action::Done));
    assert_eq!(world.take_trace(), vec!["prune"]);
}

#[test]
fn adding_a_target_sends_no_add() {
    let mut world = World::new(&[("A.src", "A")]);
    let mut ghci = started(&mut world, options(false, Vec::new()));
    world.take_trace();

    // Two events for one new file: the second addition finds it a target.
    let mut second = modified("B.src");
    if let FileEvent::Modify(path) = &mut second.event {
        path.relative = "./B.src".to_string();
    }
    let events = vec![modified("B.src"), second];
    let actions = ghci.get_reload_actions(&events);
    assert_eq!(actions.needs_add.len(), 2);
    assert_eq!(ghci.reload(&events), GhciReloadKind::Reload);
    assert!(matches!(world.drive(&mut ghci), Action::Done));
    let trace = world.take_trace();
    assert_eq!(trace.iter().filter(|action| action.starts_with(":add")).count(), 1);
    assert_eq!(target_paths(&ghci), vec!["A.src", "B.src"]);
}

#[test]
fn targets_only_grow_between_restarts() {
    let mut world = World::new(&[("A.src", "A")]);
    let mut ghci = started(&mut world, options(true, Vec::new()));
    let mut known = target_paths(&ghci);
    for relative in ["B.src", "A.src", "C.src", "notes.txt", "B.src"] {
        ghci.reload(&vec![modified(relative)]);
        let mut reply = Reply::Done;
        loop {
            let action = ghci.advance(reply);
            let now = target_paths(&ghci);
            assert!(known.iter().all(|path| now.contains(path)));
            known = now;
            match action {
                Action::Done => break,
                _ => reply = world.perform(&action),
            }
        }
    }
    assert_eq!(known, vec!["A.src", "B.src", "C.src"]);
}

#[test]
fn interrupted_reload_can_be_repeated() {
    let mut world = World::new(&[("A.src", "A")]);
    let mut ghci = started(&mut world, options(false, Vec::new()));
    world.take_trace();

    let events = vec![modified("B.src"), modified("C.src"), modified("A.src")];
    assert_eq!(ghci.reload(&events), GhciReloadKind::Reload);
    // The first file is added; then new events arrive.
    let first = ghci.advance(Reply::Done);
    assert_eq!(name(&first), ":add B.src");
    let reply = world.perform(&first);
    let second = ghci.advance(reply);
    assert_eq!(name(&second), ":add C.src");
    assert!(!ghci.is_idle());

    let interrupt = ghci.interrupt();
    assert!(matches!(interrupt, Action::Interrupt));
    let reply = world.perform(&interrupt);
    assert!(matches!(ghci.advance(reply), Action::Done));
    assert!(ghci.is_idle());
    assert_eq!(target_paths(&ghci), vec!["A.src", "B.src"]);
    world.take_trace();

    assert_eq!(ghci.reload(&events), GhciReloadKind::Reload);
    assert!(matches!(world.drive(&mut ghci), Action::Done));
    assert_eq!(
        world.take_trace(),
        vec![":add C.src", ":reload", "write-error-log", "report Reload(After) true", "prune"]
    );
    assert_eq!(target_paths(&ghci), vec!["A.src", "B.src", "C.src"]);
    assert!(ghci.is_idle());
}

#[test]
fn failed_action_ends_the_reload_and_leaves_the_session_alive() {
    let mut world = World::new(&[("A.src", "A")]);
    let mut ghci = started(&mut world, options(false, Vec::new()));
    world.take_trace();

    world.failing = Some((":add B.src".to_string(), ErrorKind::Io));
    assert_eq!(ghci.reload(&vec![modified("B.src")]), GhciReloadKind::Reload);
    assert!(matches!(world.drive(&mut ghci), Action::Failed(false)));
    assert_eq!(world.take_trace(), vec![":add B.src"]);
    assert!(ghci.is_idle());
    assert_eq!(target_paths(&ghci), vec!["A.src"]);

    world.failing = None;
    assert_eq!(ghci.reload(&vec![modified("B.src")]), GhciReloadKind::Reload);
    assert!(matches!(world.drive(&mut ghci), Action::Done));
    assert_eq!(target_paths(&ghci), vec!["A.src", "B.src"]);
}

#[test]
fn reply_of_the_wrong_kind_ends_the_operation() {
    let mut ghci = Ghci::new(options(false, Vec::new()));
    assert!(matches!(ghci.advance(Reply::Done), Action::Spawn));
    // A started process is answered with its working directory, not a prompt.
    assert!(matches!(ghci.advance(Reply::Prompt(None)), Action::Failed(true)));
    assert!(ghci.is_idle());
    assert!(matches!(ghci.advance(Reply::Done), Action::Done));
    assert!(matches!(ghci.advance(Reply::Prompt(None)), Action::Failed(true)));
}

#[test]
fn output_read_after_an_interrupt_does_not_reach_the_log() {
    let mut world = World::new(&[("A.src", "A")]);
    let mut ghci = started(&mut world, options(false, Vec::new()));
    ghci.reload(&vec![modified("A.src")]);
    assert!(matches!(ghci.advance(Reply::Done), Action::Reload));
    assert!(matches!(ghci.interrupt(), Action::Interrupt));
    let summary = CompilationSummary { result: CompilationResult::Failed, modules_loaded: 0 };
    assert!(matches!(ghci.advance(Reply::Prompt(Some(summary))), Action::Done));
    assert_eq!(ghci.log().summary, None);
}

#[test]
fn later_summary_replaces_the_earlier() {
    let mut log = CompilationLog::new();
    assert_eq!(log.result(), None);
    log.record(Some(CompilationSummary { result: CompilationResult::Failed, modules_loaded: 2 }));
    assert_eq!(log.result(), Some(CompilationResult::Failed));
    log.record(None);
    assert_eq!(log.result(), Some(CompilationResult::Failed));
    log.record(Some(CompilationSummary { result: CompilationResult::Succeeded, modules_loaded: 3 }));
    assert_eq!(
        log.summary,
        Some(CompilationSummary { result: CompilationResult::Succeeded, modules_loaded: 3 })
    );
}

#[test]
fn initialization_takes_the_log_it_is_given() {
    let mut world = World::new(&[("A.src", "A")]);
    world.files[0].2.push((1, "main".to_string()));
    let mut ghci = Ghci::new(options(true, vec![ghci_hook(LifecycleEvent::Test, "test")]));
    let failed = CompilationLog {
        summary: Some(CompilationSummary { result: CompilationResult::Failed, modules_loaded: 0 }),
    };
    // Queued behind the launch, which has not been performed yet.
    ghci.initialize(failed, [LifecycleEvent::Startup(When::After)]);
    assert!(matches!(world.drive(&mut ghci), Action::Done));
    let trace = world.take_trace();
    assert_eq!(trace[0], "spawn");
    assert_eq!(trace.last().map(String::as_str), Some("report Startup(After) false"));
    assert_eq!(ghci.eval_commands().len(), 1);
}

#[test]
fn explicit_restart_starts_a_new_epoch() {
    let mut world = World::new(&[("A.src", "A")]);
    world.files[0].2.push((1, "main".to_string()));
    let mut ghci = started(&mut world, options(true, Vec::new()));
    assert_eq!(ghci.eval_commands().len(), 1);
    world.take_trace();

    world.files = vec![("Z.src".to_string(), "Z".to_string(), Vec::new())];
    ghci.restart();
    assert!(matches!(world.drive(&mut ghci), Action::Done));
    assert_eq!(target_paths(&ghci), vec!["Z.src"]);
    assert_eq!(ghci.eval_commands().len(), 0);
    assert_eq!(world.take_trace()[0], "stop");
}

#[test]
fn failure_while_ghci_is_made_ready_is_fatal() {
    let mut world = World::new(&[("A.src", "A")]);
    world.failing = Some((":show targets".to_string(), ErrorKind::Parse));
    let mut ghci = Ghci::new(options(false, Vec::new()));
    assert!(matches!(world.drive(&mut ghci), Action::Done));
    ghci.initialize(CompilationLog::new(), [LifecycleEvent::Startup(When::After)]);
    assert!(matches!(world.drive(&mut ghci), Action::Failed(true)));

    let mut world = World::new(&[("A.src", "A")]);
    world.failing = Some(("spawn".to_string(), ErrorKind::Spawn));
    let mut ghci = Ghci::new(options(false, Vec::new()));
    assert!(matches!(world.drive(&mut ghci), Action::Failed(true)));
}

#[test]
fn failure_during_a_restart_is_fatal() {
    let mut world = World::new(&[("A.src", "A")]);
    let mut ghci = started(&mut world, options(false, Vec::new()));
    world.failing = Some(("spawn".to_string(), ErrorKind::Spawn));
    assert_eq!(ghci.reload(&vec![removed("A.src")]), GhciReloadKind::Restart);
    assert!(matches!(world.drive(&mut ghci), Action::Failed(true)));

    let mut world = World::new(&[("A.src", "A")]);
    let mut ghci = started(&mut world, options(false, Vec::new()));
    world.failing = Some(("await-startup".to_string(), ErrorKind::UnexpectedExit));
    ghci.restart();
    assert!(matches!(world.drive(&mut ghci), Action::Failed(true)));
}

#[test]
fn failed_shell_hook_is_passed_over_unless_required() {
    let hooks = vec![
        shell_hook(LifecycleEvent::Reload(When::Before), "lint"),
        ghci_hook(LifecycleEvent::Reload(When::Before), ":set -Wall"),
    ];
    let mut world = World::new(&[("A.src", "A")]);
    let mut ghci = started(&mut world, options(false, hooks));
    world.take_trace();
    world.failing = Some(("shell 0".to_string(), ErrorKind::UserCommand));
    assert_eq!(ghci.reload(&vec![modified("A.src")]), GhciReloadKind::Reload);
    assert!(matches!(world.drive(&mut ghci), Action::Done));
    assert_eq!(
        world.take_trace(),
        vec![
            "shell 0",
            "command 1",
            ":reload",
            "write-error-log",
            "report Reload(After) true",
            "prune",
        ]
    );

    // The same hook, required.
    let mut required = shell_hook(LifecycleEvent::Reload(When::Before), "lint");
    required.required = true;
    let mut world = World::new(&[("A.src", "A")]);
    let mut ghci = started(&mut world, options(false, vec![required]));
    world.take_trace();
    world.failing = Some(("shell 0".to_string(), ErrorKind::UserCommand));
    assert_eq!(ghci.reload(&vec![modified("A.src")]), GhciReloadKind::Reload);
    assert!(matches!(world.drive(&mut ghci), Action::Failed(false)));
    assert_eq!(world.take_trace(), vec!["shell 0"]);

    // A hook that could not be run at all ends the step, required or not.
    let hooks = vec![shell_hook(LifecycleEvent::Reload(When::Before), "lint")];
    let mut world = World::new(&[("A.src", "A")]);
    let mut ghci = started(&mut world, options(false, hooks));
    world.failing = Some(("shell 0".to_string(), ErrorKind::Io));
    assert_eq!(ghci.reload(&vec![modified("A.src")]), GhciReloadKind::Reload);
    assert!(matches!(world.drive(&mut ghci), Action::Failed(false)));
}

#[test]
fn failed_ghci_hook_ends_the_step() {
    let hooks = vec![ghci_hook(LifecycleEvent::Reload(When::Before), ":set -Wall")];
    let mut world = World::new(&[("A.src", "A")]);
    let mut ghci = started(&mut world, options(false, hooks));
    world.take_trace();
    world.failing = Some(("command 0".to_string(), ErrorKind::UserCommand));
    assert_eq!(ghci.reload(&vec![modified("A.src")]), GhciReloadKind::Reload);
    assert!(matches!(world.drive(&mut ghci), Action::Failed(false)));
    assert_eq!(world.take_trace(), vec!["command 0"]);
}

#[test]
fn shell_hooks_run_in_the_background_where_marked() {
    let hooks = vec![
        background_hook(LifecycleEvent::Startup(When::Before), "warm-cache"),
        background_hook(LifecycleEvent::Startup(When::After), "notify"),
        shell_hook(LifecycleEvent::Startup(When::After), "format"),
    ];
    let mut world = World::new(&[("A.src", "A")]);
    started(&mut world, options(false, hooks));
    let trace = world.take_trace();
    // Before `ghci` is started every shell hook is run to its end.
    assert_eq!(trace[0], "shell 0");
    assert!(trace.contains(&"shell 1 &".to_string()));
    assert!(trace.contains(&"shell 2".to_string()));
}

#[test]
fn as_many_prompts_are_observed_as_commands_are_issued() {
    let hooks = vec![
        ghci_hook(LifecycleEvent::Startup(When::After), "after-startup"),
        shell_hook(LifecycleEvent::Reload(When::Before), "lint"),
        ghci_hook(LifecycleEvent::Reload(When::After), "after-reload"),
        ghci_hook(LifecycleEvent::Test, "test"),
    ];
    let mut world = World::new(&[("A.src", "A")]);
    world.files[0].2.push((3, "1+1".to_string()));
    let mut ghci = started(&mut world, options(true, hooks));
    assert!(world.commands > 0);
    assert_eq!(world.commands, world.prompts);

    for events in [
        vec![modified("A.src")],
        vec![modified("B.src"), modified("C.src")],
        vec![modified("notes.txt")],
        vec![removed("A.src"), modified("D.src")],
    ] {
        ghci.reload(&events);
        assert!(matches!(world.drive(&mut ghci), Action::Done));
        assert_eq!(world.commands, world.prompts);
    }
    let issued = world
        .take_trace()
        .iter()
        .filter(|action| {
            action.starts_with(':')
                || action.starts_with("command")
                || action.starts_with("eval")
                || *action == "await-startup"
                || *action == "configure"
        })
        .count();
    assert_eq!(issued, world.commands);
}

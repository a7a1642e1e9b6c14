//! Lifecycle events, and the hooks that users attach to them.

use crate::command::MaybeAsyncCommand;
use vstd::prelude::*;

verus! {

/// Whether a hook runs before or after the step it is attached to.
#[derive(Debug, Clone, Copy, PartialEq, Eq, Structural)]
pub enum When {
    /// Before the step.
    Before,
    /// After the step.
    After,
}

/// The points in the life of a session to which hooks can be attached.
#[derive(Debug, Clone, Copy, PartialEq, Eq, Structural)]
pub enum LifecycleEvent {
    /// The tests are run, after a compilation that succeeded.
    Test,
    /// `ghci` is started.
    Startup(When),
    /// Modules are reloaded or added.
    Reload(When),
    /// `ghci` is restarted.
    Restart(When),
}

/// What a hook runs.
#[derive(Debug)]
pub enum HookCommand {
    /// A command for `ghci`.
    Ghci(String),
    /// A command for the shell.
    Shell(MaybeAsyncCommand),
}

/// A command to run at a point in the life of the session.
#[derive(Debug)]
pub struct Hook {
    /// When the command runs.
    pub event: LifecycleEvent,
    /// The command.
    pub command: HookCommand,
    /// Whether a failure of the command ends the step that runs it.
    pub required: bool,
}

/// The hooks of a session, in the order in which the user gave them.
#[derive(Debug)]
pub struct HookOpts {
    /// The hooks.
    pub hooks: Vec<Hook>,
}

/// Whether `hook` runs at `event`; with `shell_only`, whether it moreover is a
/// shell command.
pub open spec fn hook_matches(hook: Hook, event: LifecycleEvent, shell_only: bool) -> bool {
    hook.event == event && (shell_only ==> hook.command is Shell)
}

/// Whether the shell hook `hook`, run at `event`, runs beside the session
/// rather than holding it up: it is marked so, and `ghci` is not about to be
/// started.
pub open spec fn runs_in_background(hook: Hook, event: LifecycleEvent) -> bool {
    match hook.command {
        HookCommand::Shell(command) => command.is_async && event != LifecycleEvent::Startup(
            When::Before,
        ),
        HookCommand::Ghci(_) => false,
    }
}

/// The position of the first hook at or after `from` that matches, or the
/// number of hooks where there is none.
pub open spec fn next_hook(hooks: Seq<Hook>, event: LifecycleEvent, shell_only: bool, from: int) -> int
    decreases hooks.len() - from,
{
    if from < 0 || from >= hooks.len() {
        hooks.len() as int
    } else if hook_matches(hooks[from], event, shell_only) {
        from
    } else {
        next_hook(hooks, event, shell_only, from + 1)
    }
}

/// `next_hook` gives a position at or after `from`; the hook there matches,
/// and none between `from` and it does.
pub proof fn lemma_next_hook(hooks: Seq<Hook>, event: LifecycleEvent, shell_only: bool, from: int)
    requires
        0 <= from,
    ensures
        next_hook(hooks, event, shell_only, from) <= hooks.len(),
        from <= hooks.len() ==> from <= next_hook(hooks, event, shell_only, from),
        next_hook(hooks, event, shell_only, from) < hooks.len() ==> hook_matches(
            hooks[next_hook(hooks, event, shell_only, from)],
            event,
            shell_only,
        ),
        forall|i: int|
            from <= i < next_hook(hooks, event, shell_only, from) ==> !hook_matches(
                #[trigger] hooks[i],
                event,
                shell_only,
            ),
    decreases hooks.len() - from,
{
    if from < hooks.len() && !hook_matches(hooks[from], event, shell_only) {
        lemma_next_hook(hooks, event, shell_only, from + 1);
    }
}

impl Hook {
    /// Whether the hook runs at `event`; with `shell_only`, whether it
    /// moreover is a shell command.
    pub fn matches(&self, event: LifecycleEvent, shell_only: bool) -> (matches: bool)
        ensures
            matches == hook_matches(*self, event, shell_only),
    {
        let shell = match &self.command {
            HookCommand::Shell(_) => true,
            HookCommand::Ghci(_) => false,
        };
        self.event == event && (!shell_only || shell)
    }
}

impl View for HookOpts {
    type V = Seq<Hook>;

    open spec fn view(&self) -> Seq<Hook> {
        self.hooks@
    }
}

impl HookOpts {
    /// No hooks.
    pub fn new() -> (opts: Self)
        ensures
            opts@.len() == 0,
    {
        HookOpts { hooks: Vec::new() }
    }

    /// The position of the first hook at or after `from` that runs at `event`
    /// (and, with `shell_only`, is a shell command), or the number of hooks
    /// where there is none.
    pub fn next(&self, event: LifecycleEvent, shell_only: bool, from: usize) -> (at: usize)
        ensures
            at == next_hook(self@, event, shell_only, from as int),
            at <= self@.len(),
    {
        if from >= self.hooks.len() {
            return self.hooks.len();
        }
        let mut at: usize = from;
        while at < self.hooks.len()
            invariant
                from <= at <= self.hooks@.len(),
                next_hook(self@, event, shell_only, from as int) == next_hook(
                    self@,
                    event,
                    shell_only,
                    at as int,
                ),
            decreases self.hooks@.len() - at,
        {
            if self.hooks[at].matches(event, shell_only) {
                return at;
            }
            at = at + 1;
        }
        at
    }

    /// The positions of the hooks that run at `event`, in the order in which
    /// the user gave them.
    pub fn select(&self, event: LifecycleEvent) -> (selected: Vec<usize>)
        ensures
            forall|i: int| 0 <= i < selected@.len() ==> (#[trigger] selected@[i]) < self@.len(),
            forall|i: int|
                0 <= i < selected@.len() ==> (#[trigger] self@[selected@[i] as int]).event == event,
            forall|i: int, j: int|
                0 <= i < j < selected@.len() ==> (#[trigger] selected@[i]) < (#[trigger] selected@[j]),
            forall|at: int|
                0 <= at < self@.len() && (#[trigger] self@[at]).event == event ==> selected@.contains(
                    at as usize,
                ),
    {
        let mut selected: Vec<usize> = Vec::new();
        let mut at: usize = 0;
        while at < self.hooks.len()
            invariant
                at <= self.hooks@.len(),
                forall|i: int| 0 <= i < selected@.len() ==> (#[trigger] selected@[i]) < at,
                forall|i: int|
                    0 <= i < selected@.len() ==> (#[trigger] self@[selected@[i] as int]).event
                        == event,
                forall|i: int, j: int|
                    0 <= i < j < selected@.len() ==> (#[trigger] selected@[i]) < (
                    #[trigger] selected@[j]),
                forall|k: int|
                    0 <= k < at && (#[trigger] self@[k]).event == event ==> selected@.contains(
                        k as usize,
                    ),
            decreases self.hooks@.len() - at,
        {
            if self.hooks[at].event == event {
                let ghost before = selected@;
                selected.push(at);
                assert(selected@[before.len() as int] == at);
                assert forall|k: int|
                    0 <= k < at + 1 && (#[trigger] self@[k]).event == event implies selected@.contains(
                    k as usize,
                ) by {
                    if k < at {
                        let i = choose|i: int| 0 <= i < before.len() && before[i] == k as usize;
                        assert(selected@[i] == k as usize);
                    }
                }
            }
            at = at + 1;
        }
        selected
    }
}

} // verus!

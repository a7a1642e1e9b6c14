//! What holds of every session, whatever the events and the replies.

use crate::hooks::{LifecycleEvent, When};
use crate::log::CompilationSummary;
use crate::opts::GhciOpts;
use crate::path::NormalPath;
use crate::session::{
    advanced, clear_steps, finish_steps, halted, outcome, progressed, received, reload_steps,
    restart_steps, Action, Awaiting, Reply, SessionState, Step,
};
use crate::targets::{
    distinct_keys, has_key, keys_of, lemma_inserted, lemma_inserted_keys, lemma_position_of, Target,
    TargetKind,
};
use vstd::prelude::*;

verus! {

/// Whether `action` has `ghci` run up to a prompt.
pub open spec fn asks_ghci(action: Action) -> bool {
    match action {
        Action::AwaitStartup => true,
        Action::Configure => true,
        Action::ShowPaths => true,
        Action::ShowTargets => true,
        Action::AddModule(_) => true,
        Action::InterpretModule(_) => true,
        Action::Reload => true,
        Action::Eval(_) => true,
        Action::RunCommand(_) => true,
        Action::Interrupt => true,
        _ => false,
    }
}

/// Whether the reply that is waited for is one that `ghci` gives at a prompt.
pub open spec fn expects_prompt(awaiting: Awaiting) -> bool {
    match awaiting {
        Awaiting::Prompt => true,
        Awaiting::Resync => true,
        Awaiting::Paths => true,
        Awaiting::Targets => true,
        Awaiting::Added(_) => true,
        Awaiting::Interpreted(_, _, _) => true,
        _ => false,
    }
}

/// Whether `reply` tells of a prompt of `ghci`.
pub open spec fn bears_prompt(reply: Reply) -> bool {
    match reply {
        Reply::Prompt(_) => true,
        Reply::Paths(_) => true,
        Reply::Targets(_) => true,
        _ => false,
    }
}

/// Whether the session is between two epochs: `ghci` is being replaced, or
/// its targets are being read for the first time.
pub open spec fn restarting(s: SessionState) -> bool {
    s.awaiting is Targets || s.steps.contains(Step::Reset) || s.steps.contains(
        Step::Emit(Action::ShowTargets),
    )
}

/// The state of a session that was interrupted in `s`.
pub open spec fn interrupted(s: SessionState) -> SessionState {
    SessionState { steps: Seq::empty(), awaiting: Awaiting::Resync, ..s }
}

/// A step that is neither a reset nor a reading of the targets leaves the
/// targets as they are, and adds neither to the steps.
proof fn lemma_step_within_epoch(s: SessionState, opts: GhciOpts, step: Step)
    requires
        step != Step::Reset,
        step != Step::Emit(Action::ShowTargets),
        !s.steps.contains(Step::Reset),
        !s.steps.contains(Step::Emit(Action::ShowTargets)),
    ensures
        outcome(s, opts, step).0.targets == s.targets,
        !outcome(s, opts, step).0.steps.contains(Step::Reset),
        !outcome(s, opts, step).0.steps.contains(Step::Emit(Action::ShowTargets)),
        outcome(s, opts, step).1 is Some ==> !(outcome(s, opts, step).0.awaiting is Targets),
{
    let after = outcome(s, opts, step).0;
    let offset = after.steps.len() - s.steps.len();
    assert forall|i: int| 0 <= i < after.steps.len() implies after.steps[i] != Step::Reset
        && after.steps[i] != Step::Emit(Action::ShowTargets) by {
        if i >= offset {
            assert(after.steps[i] == s.steps[i - offset]);
            assert(s.steps.contains(s.steps[i - offset]));
        }
    }
}

/// The steps of `steps` after the first are steps of `steps`.
proof fn lemma_rest(steps: Seq<Step>)
    requires
        steps.len() > 0,
    ensures
        forall|step: Step| #[trigger] steps.drop_first().contains(step) ==> steps.contains(step),
{
    let rest = steps.drop_first();
    assert forall|step: Step| #[trigger] rest.contains(step) implies steps.contains(step) by {
        let i = choose|i: int| 0 <= i < rest.len() && rest[i] == step;
        assert(steps[i + 1] == step);
    }
}

/// Steps that hold neither a reset nor a reading of the targets leave the
/// targets as they are, and lead to steps that hold neither.
proof fn lemma_progress_within_epoch(s: SessionState, opts: GhciOpts)
    requires
        !s.steps.contains(Step::Reset),
        !s.steps.contains(Step::Emit(Action::ShowTargets)),
    ensures
        progressed(s, opts).0.targets == s.targets,
        !restarting(progressed(s, opts).0),
    decreases s.steps.len(),
{
    if s.steps.len() > 0 {
        let rest = s.steps.drop_first();
        let taken = SessionState { steps: rest, ..s };
        lemma_rest(s.steps);
        assert(s.steps.contains(s.steps[0]));
        lemma_step_within_epoch(taken, opts, s.steps[0]);
        let (next, action) = outcome(taken, opts, s.steps[0]);
        if action is None {
            lemma_progress_within_epoch(SessionState { steps: rest, ..next }, opts);
        }
    }
}

/// Within an epoch the set of targets only grows: unless `ghci` is being
/// replaced or its targets are being read, every file that is a target
/// before a reply is one after it, and the session is still within the epoch.
pub proof fn lemma_targets_grow(s: SessionState, opts: GhciOpts, reply: Reply)
    requires
        !restarting(s),
    ensures
        keys_of(s.targets).subset_of(keys_of(advanced(s, opts, reply).0.targets)),
        !restarting(advanced(s, opts, reply).0),
{
    match received(s, reply) {
        Some(taken) => {
            match (s.awaiting, reply) {
                (Awaiting::Added(path), Reply::Prompt(_)) => {
                    lemma_inserted_keys(s.targets, path, TargetKind::Path);
                },
                (Awaiting::Interpreted(path, kind, loaded), Reply::Prompt(_)) => {
                    lemma_inserted_keys(s.targets, path, kind);
                },
                _ => {},
            }
            assert(keys_of(s.targets).subset_of(keys_of(taken.targets)));
            assert(taken.steps == s.steps);
            lemma_progress_within_epoch(taken, opts);
        },
        None => {
            assert(!halted(s).steps.contains(Step::Reset));
            assert(!halted(s).steps.contains(Step::Emit(Action::ShowTargets)));
        },
    }
}

/// Whether every entry of `before` stands in `after` at its place, with its
/// path and its name: at most its kind and its mark as loaded have changed.
pub open spec fn entries_kept(before: Seq<Target>, after: Seq<Target>) -> bool {
    &&& before.len() <= after.len()
    &&& forall|i: int|
        0 <= i < before.len() ==> (#[trigger] after[i]).path == before[i].path && after[i].name
            == before[i].name
}

/// Within an epoch a target stays what it is: through every reply, each
/// entry of the targets keeps its place, its path and its name. What may
/// change is its kind and whether `ghci` holds it, and new entries may
/// follow.
pub proof fn lemma_targets_keep_entries(s: SessionState, opts: GhciOpts, reply: Reply)
    requires
        !restarting(s),
    ensures
        entries_kept(s.targets, advanced(s, opts, reply).0.targets),
{
    match received(s, reply) {
        Some(taken) => {
            match (s.awaiting, reply) {
                (Awaiting::Added(path), Reply::Prompt(_)) => {
                    lemma_position_of(s.targets, path.key());
                },
                (Awaiting::Interpreted(path, kind, loaded), Reply::Prompt(_)) => {
                    lemma_position_of(s.targets, path.key());
                },
                _ => {},
            }
            assert(entries_kept(s.targets, taken.targets));
            assert(taken.steps == s.steps);
            lemma_progress_within_epoch(taken, opts);
        },
        None => {},
    }
}

/// No file becomes a target twice: the entries of the targets stay distinct
/// through every reply.
pub proof fn lemma_targets_stay_distinct(s: SessionState, opts: GhciOpts, reply: Reply)
    requires
        distinct_keys(s.targets),
        reply matches Reply::Targets(targets) ==> distinct_keys(targets@),
    ensures
        distinct_keys(advanced(s, opts, reply).0.targets),
{
    match received(s, reply) {
        Some(taken) => {
            match (s.awaiting, reply) {
                (Awaiting::Added(path), Reply::Prompt(_)) => {
                    lemma_inserted(s.targets, path, TargetKind::Path);
                },
                (Awaiting::Interpreted(path, kind, loaded), Reply::Prompt(_)) => {
                    lemma_inserted(s.targets, path, kind);
                },
                _ => {},
            }
            lemma_progress_keeps_distinct(taken, opts);
        },
        None => {},
    }
}

/// Working through the steps keeps the entries of the targets distinct.
proof fn lemma_progress_keeps_distinct(s: SessionState, opts: GhciOpts)
    requires
        distinct_keys(s.targets),
    ensures
        distinct_keys(progressed(s, opts).0.targets),
    decreases s.steps.len(),
{
    if s.steps.len() > 0 {
        let rest = s.steps.drop_first();
        let (next, action) = outcome(SessionState { steps: rest, ..s }, opts, s.steps[0]);
        if action is None {
            lemma_progress_keeps_distinct(SessionState { steps: rest, ..next }, opts);
        }
    }
}

/// Adding a file that is a target does nothing: the step is dropped, no
/// `:add` is sent for it, and the session goes on as if the step had not been
/// there.
pub proof fn lemma_add_of_target_is_dropped(s: SessionState, opts: GhciOpts, path: NormalPath)
    requires
        s.steps.len() > 0,
        s.steps[0] == Step::AddModule(path),
        has_key(s.targets, path.key()),
    ensures
        progressed(s, opts) == progressed(SessionState { steps: s.steps.drop_first(), ..s }, opts),
{
}

/// A file is added once: when `ghci` has answered an `:add`, the file is a
/// target, and a second addition of it, next in line, is dropped.
pub proof fn lemma_add_twice_adds_once(
    s: SessionState,
    opts: GhciOpts,
    path: NormalPath,
    summary: Option<CompilationSummary>,
)
    requires
        s.awaiting == Awaiting::Added(path),
        s.steps.len() > 0,
        s.steps[0] == Step::AddModule(path),
    ensures
        received(s, Reply::Prompt(summary)) is Some,
        has_key(received(s, Reply::Prompt(summary))->0.targets, path.key()),
        advanced(s, opts, Reply::Prompt(summary)) == progressed(
            SessionState {
                steps: s.steps.drop_first(),
                ..received(s, Reply::Prompt(summary))->0
            },
            opts,
        ),
{
    lemma_inserted_keys(s.targets, path, TargetKind::Path);
    let taken = received(s, Reply::Prompt(summary))->0;
    assert(keys_of(taken.targets).contains(path.key()));
}

/// An interrupted session is ready at the next prompt: whatever it was doing,
/// and whatever `ghci` printed on the way, nothing is left to do, and what
/// the session knows of targets, eval commands, paths and log is what it
/// knew when it was interrupted.
pub proof fn lemma_interrupt_leaves_session_ready(
    s: SessionState,
    opts: GhciOpts,
    summary: Option<CompilationSummary>,
)
    ensures
        advanced(interrupted(s), opts, Reply::Prompt(summary)) == (halted(s), Action::Done),
{
    let taken = received(interrupted(s), Reply::Prompt(summary))->0;
    assert(taken == interrupted(s));
    assert(progressed(taken, opts).0 =~= halted(s));
}

/// One path that asks for a restart decides the steps of the response: they
/// are those of a restart, whatever else asks to be reloaded or added.
pub proof fn lemma_restart_replaces_changes(
    restart: Seq<NormalPath>,
    reload: Seq<NormalPath>,
    add: Seq<NormalPath>,
    clear: bool,
)
    requires
        restart.len() > 0,
    ensures
        reload_steps(restart, reload, add, clear) == clear_steps(clear) + restart_steps(),
        forall|i: int|
            0 <= i < reload_steps(restart, reload, add, clear).len() ==> !((
            #[trigger] reload_steps(restart, reload, add, clear)[i]) is AddModule) && reload_steps(
                restart,
                reload,
                add,
                clear,
            )[i] != Step::Emit(Action::Reload),
{
    let steps = reload_steps(restart, reload, add, clear);
    assert forall|i: int| 0 <= i < steps.len() implies !(#[trigger] steps[i] is AddModule)
        && steps[i] != Step::Emit(Action::Reload) by {
        let offset = clear_steps(clear).len();
        if i >= offset {
            assert(steps[i] == restart_steps()[i - offset]);
        }
    }
}

/// Commands and prompts alternate. An action that has `ghci` run up to a
/// prompt leaves the session waiting for a reply that tells of that prompt,
/// and no other action does; and a reply that tells of a prompt where none
/// was due, or of none where one was due, ends the operation.
pub proof fn lemma_prompt_framing(s: SessionState, opts: GhciOpts, reply: Reply)
    ensures
        asks_ghci(advanced(s, opts, reply).1) == expects_prompt(advanced(s, opts, reply).0.awaiting),
        bears_prompt(reply) != expects_prompt(s.awaiting) ==> advanced(s, opts, reply).1
            == Action::Failed(s.fatal),
{
    match received(s, reply) {
        Some(taken) => {
            lemma_progress_framing(taken, opts);
        },
        None => {},
    }
}

/// Working through the steps ends with an action that has `ghci` run up to a
/// prompt exactly if the session then waits for a reply that tells of one.
proof fn lemma_progress_framing(s: SessionState, opts: GhciOpts)
    ensures
        asks_ghci(progressed(s, opts).1) == expects_prompt(progressed(s, opts).0.awaiting),
    decreases s.steps.len(),
{
    if s.steps.len() > 0 {
        let rest = s.steps.drop_first();
        let (next, action) = outcome(SessionState { steps: rest, ..s }, opts, s.steps[0]);
        if action is None {
            lemma_progress_framing(SessionState { steps: rest, ..next }, opts);
        }
    }
}

/// Whether each of `replies`, given in turn to a session in state `s`, is
/// taken in: none says that an action failed beyond what the session passes
/// over, and each is of the kind that the session waits for.
pub open spec fn accepted(s: SessionState, opts: GhciOpts, replies: Seq<Reply>) -> bool
    decreases replies.len(),
{
    replies.len() == 0 || (received(s, replies[0]) is Some && accepted(
        advanced(s, opts, replies[0]).0,
        opts,
        replies.drop_first(),
    ))
}

/// The state that a session in state `s` reaches through `replies`, and the
/// actions that it hands out on the way, one for each reply.
pub open spec fn run(s: SessionState, opts: GhciOpts, replies: Seq<Reply>) -> (
    SessionState,
    Seq<Action>,
)
    decreases replies.len(),
{
    if replies.len() == 0 {
        (s, Seq::empty())
    } else {
        let (next, action) = advanced(s, opts, replies[0]);
        let (last, actions) = run(next, opts, replies.drop_first());
        (last, seq![action] + actions)
    }
}

/// The number of `actions` that have `ghci` run up to a prompt.
pub open spec fn commands_issued(actions: Seq<Action>) -> nat
    decreases actions.len(),
{
    if actions.len() == 0 {
        0
    } else {
        commands_issued(actions.drop_first()) + if asks_ghci(actions[0]) {
            1nat
        } else {
            0nat
        }
    }
}

/// The number of `replies` that tell of a prompt.
pub open spec fn prompts_observed(replies: Seq<Reply>) -> nat
    decreases replies.len(),
{
    if replies.len() == 0 {
        0
    } else {
        prompts_observed(replies.drop_first()) + if bears_prompt(replies[0]) {
            1nat
        } else {
            0nat
        }
    }
}

/// The number of prompts that `ghci` still owes: one while the session waits
/// for a reply that tells of a prompt.
pub open spec fn prompts_due(s: SessionState) -> nat {
    if expects_prompt(s.awaiting) {
        1
    } else {
        0
    }
}

/// As many prompts are observed as commands are issued. Through any replies
/// that the session takes in, the prompts that the replies tell of, with the
/// one that may still be due at the end, are as many as the actions that had
/// `ghci` run up to a prompt, with the one that may have been due at the
/// start. From rest to rest the two numbers are equal.
pub proof fn lemma_prompts_match_commands(s: SessionState, opts: GhciOpts, replies: Seq<Reply>)
    requires
        accepted(s, opts, replies),
    ensures
        prompts_observed(replies) + prompts_due(run(s, opts, replies).0) == commands_issued(
            run(s, opts, replies).1,
        ) + prompts_due(s),
    decreases replies.len(),
{
    if replies.len() > 0 {
        let (next, action) = advanced(s, opts, replies[0]);
        let (last, actions) = run(next, opts, replies.drop_first());
        lemma_prompt_framing(s, opts, replies[0]);
        lemma_prompts_match_commands(next, opts, replies.drop_first());
        assert((seq![action] + actions).drop_first() == actions);
        assert(bears_prompt(replies[0]) == expects_prompt(s.awaiting));
    }
}

/// Whether `step` is the addition of the file `key`.
pub open spec fn adds_file(step: Step, key: Seq<char>) -> bool {
    step matches Step::AddModule(path) && path.key() == key
}

/// Whether the session in state `s` is yet to add the file `key`: the
/// addition is among its steps, or `ghci` is at it.
pub open spec fn addition_pending(s: SessionState, key: Seq<char>) -> bool {
    (s.awaiting matches Awaiting::Added(path) && path.key() == key) || exists|i: int|
        0 <= i < s.steps.len() && adds_file(#[trigger] s.steps[i], key)
}

/// The files that are targets of the session in state `s`, or are about to
/// be.
pub open spec fn promised(s: SessionState) -> Set<Seq<char>> {
    Set::new(|key: Seq<char>| has_key(s.targets, key) || addition_pending(s, key))
}

/// Whether the session in state `s` is at rest.
pub open spec fn at_rest(s: SessionState) -> bool {
    s.steps.len() == 0 && s.awaiting is Nothing
}

/// A step loses no target and no addition: a file that is a target, or whose
/// addition is the step or among the steps behind it, is a target after the
/// step, or its addition is among the steps, or `ghci` is at it.
proof fn lemma_step_keeps_promises(s: SessionState, opts: GhciOpts, step: Step, key: Seq<char>)
    requires
        step != Step::Reset,
        has_key(s.targets, key) || adds_file(step, key) || exists|i: int|
            0 <= i < s.steps.len() && adds_file(#[trigger] s.steps[i], key),
    ensures
        outcome(s, opts, step).1 is Some ==> promised(outcome(s, opts, step).0).contains(key),
        outcome(s, opts, step).1 is None ==> has_key(outcome(s, opts, step).0.targets, key)
            || exists|i: int| 0 <= i < s.steps.len() && adds_file(#[trigger] s.steps[i], key),
{
    let after = outcome(s, opts, step).0;
    if has_key(s.targets, key) {
        assert(after.targets == s.targets);
    } else if adds_file(step, key) {
    } else if outcome(s, opts, step).1 is Some {
        let i = choose|i: int| 0 <= i < s.steps.len() && adds_file(#[trigger] s.steps[i], key);
        let offset = after.steps.len() - s.steps.len();
        assert(0 <= offset);
        assert(after.steps[offset + i] == s.steps[i]);
        assert(adds_file(after.steps[offset + i], key));
    }
}

/// Working through steps that hold no reset loses no target and no addition.
proof fn lemma_progress_keeps_promises(s: SessionState, opts: GhciOpts, key: Seq<char>)
    requires
        !s.steps.contains(Step::Reset),
        has_key(s.targets, key) || exists|i: int|
            0 <= i < s.steps.len() && adds_file(#[trigger] s.steps[i], key),
    ensures
        promised(progressed(s, opts).0).contains(key),
    decreases s.steps.len(),
{
    if s.steps.len() > 0 {
        let rest = s.steps.drop_first();
        let taken = SessionState { steps: rest, ..s };
        lemma_rest(s.steps);
        assert(s.steps.contains(s.steps[0]));
        if !has_key(s.targets, key) {
            let i = choose|i: int| 0 <= i < s.steps.len() && adds_file(#[trigger] s.steps[i], key);
            if i > 0 {
                assert(rest[i - 1] == s.steps[i]);
                assert(adds_file(rest[i - 1], key));
            }
        }
        lemma_step_keeps_promises(taken, opts, s.steps[0], key);
        let (next, action) = outcome(taken, opts, s.steps[0]);
        if action is None {
            lemma_progress_keeps_promises(SessionState { steps: rest, ..next }, opts, key);
        }
    }
}

/// Within an epoch no target and no addition is lost: a file that is a
/// target, or is about to be added, is one of the two after every reply that
/// the session takes in.
pub proof fn lemma_promises_kept(s: SessionState, opts: GhciOpts, reply: Reply)
    requires
        !restarting(s),
        received(s, reply) is Some,
    ensures
        promised(s).subset_of(promised(advanced(s, opts, reply).0)),
        !restarting(advanced(s, opts, reply).0),
{
    lemma_targets_grow(s, opts, reply);
    let taken = received(s, reply)->0;
    assert(taken.steps == s.steps);
    assert forall|key: Seq<char>| promised(s).contains(key) implies promised(
        advanced(s, opts, reply).0,
    ).contains(key) by {
        match (s.awaiting, reply) {
            (Awaiting::Added(path), Reply::Prompt(_)) => {
                lemma_inserted_keys(s.targets, path, TargetKind::Path);
                assert(keys_of(taken.targets).contains(path.key()));
                assert(has_key(s.targets, key) ==> keys_of(s.targets).contains(key));
                assert(keys_of(taken.targets).contains(key) ==> has_key(taken.targets, key));
            },
            (Awaiting::Interpreted(path, kind, loaded), Reply::Prompt(_)) => {
                lemma_inserted_keys(s.targets, path, kind);
                assert(has_key(s.targets, key) ==> keys_of(s.targets).contains(key));
                assert(keys_of(taken.targets).contains(key) ==> has_key(taken.targets, key));
            },
            _ => {},
        }
        lemma_progress_keeps_promises(taken, opts, key);
    }
}

/// What a session sets out to add, it has added when it comes to rest.
/// Within an epoch, through any replies that the session takes in, every file
/// that was a target or about to be added at the start is a target or about
/// to be added at the end; at rest, it is a target.
pub proof fn lemma_additions_become_targets(s: SessionState, opts: GhciOpts, replies: Seq<Reply>)
    requires
        !restarting(s),
        accepted(s, opts, replies),
    ensures
        promised(s).subset_of(promised(run(s, opts, replies).0)),
        at_rest(run(s, opts, replies).0) ==> promised(s).subset_of(
            keys_of(run(s, opts, replies).0.targets),
        ),
    decreases replies.len(),
{
    if replies.len() > 0 {
        lemma_promises_kept(s, opts, replies[0]);
        lemma_additions_become_targets(advanced(s, opts, replies[0]).0, opts, replies.drop_first());
    }
    let last = run(s, opts, replies).0;
    if at_rest(last) {
        assert forall|key: Seq<char>| promised(last).contains(key) implies keys_of(
            last.targets,
        ).contains(key) by {}
    }
}

/// A response that is no restart promises the files that are targets and the
/// files that it is to add, and stays within the epoch.
pub proof fn lemma_reload_promises_additions(
    begun: SessionState,
    reload: Seq<NormalPath>,
    add: Seq<NormalPath>,
    clear: bool,
)
    requires
        begun.steps == reload_steps(Seq::empty(), reload, add, clear),
        begun.awaiting is Nothing,
    ensures
        !restarting(begun),
        keys_of(begun.targets).subset_of(promised(begun)),
        forall|i: int| 0 <= i < add.len() ==> promised(begun).contains((#[trigger] add[i]).key()),
{
    let steps = begun.steps;
    let before = clear_steps(clear) + seq![
        Step::Hooks(LifecycleEvent::Reload(When::Before), false, 0),
    ];
    let adds = add.map_values(|path: NormalPath| Step::AddModule(path));
    let reloads = if reload.len() > 0 {
        seq![Step::Emit(Action::Reload)] + reload.map_values(
            |path: NormalPath| Step::RefreshEval(path),
        )
    } else {
        Seq::empty()
    };
    let finish = finish_steps(
        seq![LifecycleEvent::Reload(When::After)],
    );
    let prune = seq![Step::Emit(Action::PruneCommandHandles)];
    if reload.len() > 0 || add.len() > 0 {
        assert(steps == before + (adds + reloads) + finish + prune);
        assert forall|i: int| 0 <= i < steps.len() implies steps[i] != Step::Reset && steps[i]
            != Step::Emit(Action::ShowTargets) by {
            if i < before.len() {
                assert(steps[i] == before[i]);
            } else if i < before.len() + adds.len() {
                assert(steps[i] == adds[i - before.len()]);
            } else if i < before.len() + adds.len() + reloads.len() {
                assert(steps[i] == reloads[i - before.len() - adds.len()]);
            } else if i < before.len() + adds.len() + reloads.len() + finish.len() {
                assert(steps[i] == finish[i - before.len() - adds.len() - reloads.len()]);
            } else {
                assert(steps[i] == prune[0]);
            }
        }
        assert forall|i: int| 0 <= i < add.len() implies promised(begun).contains(
            (#[trigger] add[i]).key(),
        ) by {
            let at = before.len() + i;
            assert(0 <= at < steps.len());
            assert(steps[at] == adds[i]);
            assert(adds[i] == Step::AddModule(add[i]));
            assert(adds_file(begun.steps[at], add[i].key()));
            assert(addition_pending(begun, add[i].key()));
        }
    } else {
        assert(steps == prune);
        assert forall|i: int| 0 <= i < steps.len() implies steps[i] != Step::Reset && steps[i]
            != Step::Emit(Action::ShowTargets) by {}
    }
    assert forall|key: Seq<char>| keys_of(begun.targets).contains(key) implies promised(
        begun,
    ).contains(key) by {}
}

/// A reload that runs to its end adds what it set out to add. Where the
/// response to file events is no restart, and the session comes to rest
/// through replies that it takes in, every file that was a target is one
/// still, and every file that was to be added is one now. This holds of any
/// session, also of one that was interrupted in an earlier reload.
pub proof fn lemma_reload_adds_targets(
    begun: SessionState,
    opts: GhciOpts,
    reload: Seq<NormalPath>,
    add: Seq<NormalPath>,
    clear: bool,
    replies: Seq<Reply>,
)
    requires
        begun.steps == reload_steps(Seq::empty(), reload, add, clear),
        begun.awaiting is Nothing,
        accepted(begun, opts, replies),
        at_rest(run(begun, opts, replies).0),
    ensures
        keys_of(begun.targets).subset_of(keys_of(run(begun, opts, replies).0.targets)),
        forall|i: int|
            0 <= i < add.len() ==> has_key(
                run(begun, opts, replies).0.targets,
                (#[trigger] add[i]).key(),
            ),
{
    lemma_reload_promises_additions(begun, reload, add, clear);
    lemma_additions_become_targets(begun, opts, replies);
    let last = run(begun, opts, replies).0;
    assert forall|i: int| 0 <= i < add.len() implies has_key(
        last.targets,
        (#[trigger] add[i]).key(),
    ) by {
        assert(promised(begun).contains(add[i].key()));
        assert(keys_of(last.targets).contains(add[i].key()));
    }
}

} // verus!

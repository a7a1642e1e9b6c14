//! How file events are sorted into restarts, reloads and additions.

use crate::path::{opt_view, path_extension, path_file_name, NormalPath};
use crate::targets::{has_key, ModuleSet, Target};
use vstd::prelude::*;
use vstd::string::StringExecFns;

verus! {

/// What a set of globs says of a path.
#[derive(Debug, Clone, Copy, PartialEq, Eq, Structural)]
pub enum GlobMatch {
    /// No glob matches the path.
    Unmatched,
    /// The path is explicitly ignored.
    Ignore,
    /// The path is explicitly included.
    Whitelist,
}

/// A change to a file.
#[derive(Debug)]
pub enum FileEvent {
    /// The file was created or modified.
    Modify(NormalPath),
    /// The file was removed.
    Remove(NormalPath),
}

/// A change to a file, with what the session's two sets of globs say of its
/// path.
#[derive(Debug)]
pub struct MatchedEvent {
    /// What happened, and to which file.
    pub event: FileEvent,
    /// What the restart globs say of the path.
    pub restart_match: GlobMatch,
    /// What the reload globs say of the path.
    pub reload_match: GlobMatch,
}

/// What a file event asks of the session.
#[derive(Debug, Clone, Copy, PartialEq, Eq, Structural)]
pub enum ReloadAction {
    /// `ghci` must be restarted.
    Restart,
    /// A `:reload` picks the change up.
    Reload,
    /// The file must be added to the session.
    Add,
    /// Nothing.
    Ignore,
}

/// How a session responds to a set of file events.
#[derive(Debug, Clone, Copy, PartialEq, Eq, Structural)]
pub enum GhciReloadKind {
    /// No action is needed.
    Noop,
    /// Modules are reloaded or added. This can be interrupted.
    Reload,
    /// The whole session is restarted. This cannot be interrupted.
    Restart,
}

/// The paths that a set of file events touches, by what each asks for.
#[derive(Debug)]
pub struct ReloadActions {
    /// Paths that need a restart of `ghci`.
    pub needs_restart: Vec<NormalPath>,
    /// Paths that need a `:reload`.
    pub needs_reload: Vec<NormalPath>,
    /// Paths that need an `:add`.
    pub needs_add: Vec<NormalPath>,
}

/// The characters of each string of `strings`.
pub open spec fn views_of(strings: Seq<String>) -> Seq<Seq<char>> {
    strings.map_values(|s: String| s@)
}

/// Whether a file with this extension is a source file: the extension is one
/// of `extensions`.
pub open spec fn is_source_extension(
    extension: Option<Seq<char>>,
    extensions: Seq<Seq<char>>,
) -> bool {
    match extension {
        Some(extension) => extensions.contains(extension),
        None => false,
    }
}

/// Whether the file at `path` is a source file: its extension is one of
/// `extensions`.
pub open spec fn is_source_path(path: Seq<char>, extensions: Seq<Seq<char>>) -> bool {
    is_source_extension(path_extension(path), extensions)
}

/// What a change to a file asks of the session, from what is known of the
/// file: whether it was removed, what the restart globs and the reload globs
/// say of its path, its name and its extension, the extensions by which
/// source files are known, and whether it is a target.
///
/// A package description (extension `cabal`), a `ghci` startup script (name
/// `.ghci`) or a path that the restart globs include asks for a restart,
/// unless the restart globs ignore the path. So does a source file that was a
/// target and is removed, whatever the globs say: `ghci` cannot reload what is
/// gone. Of the rest, a path that the reload globs include is reloaded; a
/// modified source file that they do not ignore is reloaded where it is a
/// target and added where it is none. All else is ignored.
pub open spec fn decision(
    removed: bool,
    restart_match: GlobMatch,
    reload_match: GlobMatch,
    file_name: Option<Seq<char>>,
    extension: Option<Seq<char>>,
    extensions: Seq<Seq<char>>,
    target: bool,
) -> ReloadAction {
    let source = is_source_extension(extension, extensions);
    if (restart_match != GlobMatch::Ignore && (extension == Some("cabal"@) || file_name == Some(
        ".ghci"@,
    ) || restart_match == GlobMatch::Whitelist)) || (removed && source && target) {
        ReloadAction::Restart
    } else if reload_match == GlobMatch::Whitelist {
        ReloadAction::Reload
    } else if reload_match != GlobMatch::Ignore && !removed && source {
        if target {
            ReloadAction::Reload
        } else {
            ReloadAction::Add
        }
    } else {
        ReloadAction::Ignore
    }
}

/// What `event` asks of a session whose targets are `targets` and whose source
/// files are those with one of `extensions`: the [`decision`] for the file of
/// the event, by the name and the extension of its absolute path.
pub open spec fn classification(
    event: MatchedEvent,
    targets: Seq<Target>,
    extensions: Seq<Seq<char>>,
) -> ReloadAction {
    let path = event.event.path().key();
    decision(
        event.event is Remove,
        event.restart_match,
        event.reload_match,
        path_file_name(path),
        path_extension(path),
        extensions,
        has_key(targets, path),
    )
}

/// The paths of those of `events` that ask for `action`, in the order of the
/// events.
pub open spec fn selected(
    events: Seq<MatchedEvent>,
    targets: Seq<Target>,
    extensions: Seq<Seq<char>>,
    action: ReloadAction,
) -> Seq<NormalPath>
    decreases events.len(),
{
    if events.len() == 0 {
        Seq::empty()
    } else {
        let before = selected(events.drop_last(), targets, extensions, action);
        if classification(events.last(), targets, extensions) == action {
            before.push(events.last().event.path())
        } else {
            before
        }
    }
}

/// The response to events of which `restart` ask for a restart, `reload` for a
/// reload and `add` for an addition: a restart if any asks for one, else a
/// reload if any asks for a reload or an addition.
pub open spec fn kind_of(restart: nat, reload: nat, add: nat) -> GhciReloadKind {
    if restart > 0 {
        GhciReloadKind::Restart
    } else if reload > 0 || add > 0 {
        GhciReloadKind::Reload
    } else {
        GhciReloadKind::Noop
    }
}

impl GlobMatch {
    /// Whether the path is explicitly ignored.
    pub fn is_ignore(&self) -> (b: bool)
        ensures
            b == (*self == GlobMatch::Ignore),
    {
        match self {
            GlobMatch::Ignore => true,
            _ => false,
        }
    }

    /// Whether the path is explicitly included.
    pub fn is_whitelist(&self) -> (b: bool)
        ensures
            b == (*self == GlobMatch::Whitelist),
    {
        match self {
            GlobMatch::Whitelist => true,
            _ => false,
        }
    }
}

impl FileEvent {
    /// The file that the event is about.
    pub open spec fn path(&self) -> NormalPath {
        match self {
            FileEvent::Modify(path) => *path,
            FileEvent::Remove(path) => *path,
        }
    }

    /// The file that the event is about.
    pub fn as_path(&self) -> (path: &NormalPath)
        ensures
            *path == self.path(),
    {
        match self {
            FileEvent::Modify(path) => path,
            FileEvent::Remove(path) => path,
        }
    }

    /// Whether the file was created or modified.
    pub fn is_modify(&self) -> (b: bool)
        ensures
            b == (self is Modify),
    {
        match self {
            FileEvent::Modify(_) => true,
            FileEvent::Remove(_) => false,
        }
    }

    /// Whether the file was removed.
    pub fn is_remove(&self) -> (b: bool)
        ensures
            b == (self is Remove),
    {
        match self {
            FileEvent::Modify(_) => false,
            FileEvent::Remove(_) => true,
        }
    }
}

/// Whether a file with this extension is a source file: the extension is one
/// of `extensions`.
pub fn has_source_extension(extension: &Option<String>, extensions: &Vec<String>) -> (source: bool)
    ensures
        source == is_source_extension(opt_view(*extension), views_of(extensions@)),
{
    match extension {
        None => false,
        Some(wanted) => {
            let mut i: usize = 0;
            while i < extensions.len()
                invariant
                    i <= extensions@.len(),
                    opt_view(*extension) == Some(wanted@),
                    forall|j: int| 0 <= j < i ==> (#[trigger] views_of(extensions@)[j]) != wanted@,
                decreases extensions@.len() - i,
            {
                if extensions[i] == *wanted {
                    assert(views_of(extensions@)[i as int] == wanted@);
                    return true;
                }
                i = i + 1;
            }
            false
        },
    }
}

/// Whether `path` is a source file: its extension is one of `extensions`.
pub fn is_source_file(path: &NormalPath, extensions: &Vec<String>) -> (source: bool)
    ensures
        source == is_source_path(path.key(), views_of(extensions@)),
{
    has_source_extension(&path.extension(), extensions)
}

/// Whether `text` is there and holds the characters of `wanted`.
fn holds(text: &Option<String>, wanted: &str) -> (same: bool)
    ensures
        same == (opt_view(*text) == Some(wanted@)),
{
    match text {
        None => false,
        Some(text) => *text == String::from_str(wanted),
    }
}

/// Sorts one change to a file, from what is known of the file: see
/// [`decision`].
pub fn decide(
    removed: bool,
    restart_match: GlobMatch,
    reload_match: GlobMatch,
    file_name: &Option<String>,
    extension: &Option<String>,
    extensions: &Vec<String>,
    target: bool,
) -> (action: ReloadAction)
    ensures
        action == decision(
            removed,
            restart_match,
            reload_match,
            opt_view(*file_name),
            opt_view(*extension),
            views_of(extensions@),
            target,
        ),
{
    let source = has_source_extension(extension, extensions);
    if (!restart_match.is_ignore() && (holds(extension, "cabal") || holds(file_name, ".ghci")
        || restart_match.is_whitelist())) || (removed && source && target) {
        ReloadAction::Restart
    } else if reload_match.is_whitelist() {
        ReloadAction::Reload
    } else if !reload_match.is_ignore() && !removed && source {
        if target {
            ReloadAction::Reload
        } else {
            ReloadAction::Add
        }
    } else {
        ReloadAction::Ignore
    }
}

/// Sorts one file event: see [`classification`].
pub fn classify(event: &MatchedEvent, targets: &ModuleSet, extensions: &Vec<String>) -> (action:
    ReloadAction)
    ensures
        action == classification(*event, targets@, views_of(extensions@)),
{
    let path = event.event.as_path();
    decide(
        event.event.is_remove(),
        event.restart_match,
        event.reload_match,
        &path.file_name(),
        &path.extension(),
        extensions,
        targets.contains_source_path(path.absolute()),
    )
}

/// Sorts the paths of `events` by what each event asks for. Within each of the
/// three lists the paths stand in the order of their events; the path of an
/// event that asks for nothing is in none.
pub fn reload_actions(events: &Vec<MatchedEvent>, targets: &ModuleSet, extensions: &Vec<String>) -> (actions:
    ReloadActions)
    ensures
        actions.needs_restart@ == selected(
            events@,
            targets@,
            views_of(extensions@),
            ReloadAction::Restart,
        ),
        actions.needs_reload@ == selected(
            events@,
            targets@,
            views_of(extensions@),
            ReloadAction::Reload,
        ),
        actions.needs_add@ == selected(events@, targets@, views_of(extensions@), ReloadAction::Add),
{
    let mut needs_restart: Vec<NormalPath> = Vec::new();
    let mut needs_reload: Vec<NormalPath> = Vec::new();
    let mut needs_add: Vec<NormalPath> = Vec::new();
    let ghost exts = views_of(extensions@);
    let mut i: usize = 0;
    while i < events.len()
        invariant
            i <= events@.len(),
            exts == views_of(extensions@),
            needs_restart@ == selected(events@.take(i as int), targets@, exts, ReloadAction::Restart),
            needs_reload@ == selected(events@.take(i as int), targets@, exts, ReloadAction::Reload),
            needs_add@ == selected(events@.take(i as int), targets@, exts, ReloadAction::Add),
        decreases events@.len() - i,
    {
        let event = &events[i];
        proof {
            let next = events@.take(i + 1);
            assert(next.drop_last() == events@.take(i as int));
            assert(next.last() == events@[i as int]);
        }
        match classify(event, targets, extensions) {
            ReloadAction::Restart => needs_restart.push(event.event.as_path().clone()),
            ReloadAction::Reload => needs_reload.push(event.event.as_path().clone()),
            ReloadAction::Add => needs_add.push(event.event.as_path().clone()),
            ReloadAction::Ignore => {},
        }
        i = i + 1;
    }
    assert(events@.take(i as int) == events@);
    ReloadActions { needs_restart, needs_reload, needs_add }
}

impl ReloadActions {
    /// Whether any module needs to be added or reloaded.
    pub fn needs_add_or_reload(&self) -> (needed: bool)
        ensures
            needed == (self.needs_add@.len() > 0 || self.needs_reload@.len() > 0),
    {
        self.needs_add.len() > 0 || self.needs_reload.len() > 0
    }

    /// Whether `ghci` needs to be restarted.
    pub fn needs_restart(&self) -> (needed: bool)
        ensures
            needed == (self.needs_restart@.len() > 0),
    {
        self.needs_restart.len() > 0
    }

    /// The response that these paths ask for.
    pub open spec fn spec_kind(&self) -> GhciReloadKind {
        kind_of(self.needs_restart@.len(), self.needs_reload@.len(), self.needs_add@.len())
    }

    /// The response that these paths ask for: a restart if any path needs one,
    /// else a reload if any path needs to be reloaded or added.
    pub fn kind(&self) -> (kind: GhciReloadKind)
        ensures
            kind == self.spec_kind(),
    {
        if self.needs_restart() {
            GhciReloadKind::Restart
        } else if self.needs_add_or_reload() {
            GhciReloadKind::Reload
        } else {
            GhciReloadKind::Noop
        }
    }
}

/// Every event is sorted into exactly one of restart, reload, add and ignore:
/// the four selections together hold as many paths as there are events, and
/// the path of each event is in the selection of what the event asks for.
pub proof fn lemma_classification_partitions(
    events: Seq<MatchedEvent>,
    targets: Seq<Target>,
    extensions: Seq<Seq<char>>,
)
    ensures
        selected(events, targets, extensions, ReloadAction::Restart).len() + selected(
            events,
            targets,
            extensions,
            ReloadAction::Reload,
        ).len() + selected(events, targets, extensions, ReloadAction::Add).len() + selected(
            events,
            targets,
            extensions,
            ReloadAction::Ignore,
        ).len() == events.len(),
        forall|i: int|
            0 <= i < events.len() ==> selected(
                events,
                targets,
                extensions,
                classification(#[trigger] events[i], targets, extensions),
            ).contains(events[i].event.path()),
    decreases events.len(),
{
    if events.len() > 0 {
        let before = events.drop_last();
        lemma_classification_partitions(before, targets, extensions);
        assert forall|i: int| 0 <= i < events.len() implies selected(
            events,
            targets,
            extensions,
            classification(#[trigger] events[i], targets, extensions),
        ).contains(events[i].event.path()) by {
            let action = classification(events[i], targets, extensions);
            let chosen = selected(events, targets, extensions, action);
            if i == events.len() - 1 {
                assert(chosen.last() == events[i].event.path());
            } else {
                assert(before[i] == events[i]);
                let earlier = selected(before, targets, extensions, action);
                let at = choose|at: int| 0 <= at < earlier.len() && earlier[at] == events[i].event.path();
                assert(chosen[at] == events[i].event.path());
            }
        }
    }
}

/// A selection holds a path exactly if one of the events that ask for its
/// action is about that path.
pub proof fn lemma_selected_sources(
    events: Seq<MatchedEvent>,
    targets: Seq<Target>,
    extensions: Seq<Seq<char>>,
    action: ReloadAction,
    path: NormalPath,
)
    ensures
        selected(events, targets, extensions, action).contains(path) <==> exists|i: int|
            0 <= i < events.len() && classification(#[trigger] events[i], targets, extensions)
                == action && events[i].event.path() == path,
    decreases events.len(),
{
    let chosen = selected(events, targets, extensions, action);
    if events.len() > 0 {
        let before = events.drop_last();
        let earlier = selected(before, targets, extensions, action);
        lemma_selected_sources(before, targets, extensions, action, path);
        let n = events.len() - 1;
        if chosen.contains(path) {
            let at = choose|at: int| 0 <= at < chosen.len() && chosen[at] == path;
            if at < earlier.len() {
                assert(earlier[at] == path);
                let i = choose|i: int|
                    0 <= i < before.len() && classification(#[trigger] before[i], targets, extensions)
                        == action && before[i].event.path() == path;
                assert(events[i] == before[i]);
            } else {
                assert(events[n].event.path() == path);
            }
        }
        if exists|i: int|
            0 <= i < events.len() && classification(#[trigger] events[i], targets, extensions)
                == action && events[i].event.path() == path {
            let i = choose|i: int|
                0 <= i < events.len() && classification(#[trigger] events[i], targets, extensions)
                    == action && events[i].event.path() == path;
            if i == n {
                assert(chosen.last() == path);
            } else {
                assert(before[i] == events[i]);
                let at = choose|at: int| 0 <= at < earlier.len() && earlier[at] == path;
                assert(chosen[at] == path);
            }
        }
    }
}

/// One event that asks for a restart decides the response: it is a restart,
/// whatever the other events ask for.
pub proof fn lemma_restart_absorbs(
    events: Seq<MatchedEvent>,
    targets: Seq<Target>,
    extensions: Seq<Seq<char>>,
    i: int,
)
    requires
        0 <= i < events.len(),
        classification(events[i], targets, extensions) == ReloadAction::Restart,
    ensures
        kind_of(
            selected(events, targets, extensions, ReloadAction::Restart).len(),
            selected(events, targets, extensions, ReloadAction::Reload).len(),
            selected(events, targets, extensions, ReloadAction::Add).len(),
        ) == GhciReloadKind::Restart,
{
    lemma_selected_sources(events, targets, extensions, ReloadAction::Restart, events[i].event.path());
}

} // verus!

//! The set of targets of a `ghci` session.

use crate::path::NormalPath;
use vstd::prelude::*;

verus! {

/// How a target was handed to `ghci`.
#[derive(Debug, Clone, Copy, PartialEq, Eq, Structural)]
pub enum TargetKind {
    /// By the name of its module.
    Module,
    /// By the path of its source file.
    Path,
}

/// One target of the session.
#[derive(Debug)]
pub struct Target {
    /// The source file.
    pub path: NormalPath,
    /// The name under which the module is imported, where it is known.
    pub name: Option<String>,
    /// How the target was handed to `ghci`.
    pub kind: TargetKind,
    /// Whether `ghci` holds the target. A target that fails to compile is still
    /// a target, and must not be added a second time.
    pub loaded: bool,
}

/// How to name a source file to `ghci`.
#[derive(Debug)]
pub struct ImportInfo {
    /// The import name of the module where the target has one, else the
    /// relative path of the file.
    pub name: String,
    /// Whether the file is named by module or by path.
    pub kind: TargetKind,
    /// Whether `ghci` already holds the file as a target.
    pub loaded: bool,
}

/// The targets of a session: at most one entry for each source file, in the
/// order in which the files became targets.
#[derive(Debug)]
pub struct ModuleSet {
    entries: Vec<Target>,
}

/// Whether some entry of `entries` stands for the file `key`.
pub open spec fn has_key(entries: Seq<Target>, key: Seq<char>) -> bool {
    exists|i: int| 0 <= i < entries.len() && (#[trigger] entries[i]).path.key() == key
}

/// The files that `entries` stand for.
pub open spec fn keys_of(entries: Seq<Target>) -> Set<Seq<char>> {
    Set::new(|key: Seq<char>| has_key(entries, key))
}

/// No two entries of `entries` stand for one file.
pub open spec fn distinct_keys(entries: Seq<Target>) -> bool {
    forall|i: int, j: int|
        0 <= i < j < entries.len() ==> (#[trigger] entries[i]).path.key() != (
        #[trigger] entries[j]).path.key()
}

/// The position of the entry for `key` in `entries`, or the length of
/// `entries` where there is none.
pub open spec fn position_of(entries: Seq<Target>, key: Seq<char>) -> int
    decreases entries.len(),
{
    if entries.len() == 0 {
        0
    } else if entries[0].path.key() == key {
        0
    } else {
        1 + position_of(entries.drop_first(), key)
    }
}

/// `entries` after `path` was made a target of kind `kind`: a new last entry
/// where the file had none, else the same entries with the file's entry marked
/// as loaded and of that kind.
pub open spec fn inserted(entries: Seq<Target>, path: NormalPath, kind: TargetKind) -> Seq<
    Target,
> {
    let at = position_of(entries, path.key());
    if at < entries.len() {
        entries.update(
            at,
            Target { path: entries[at].path, name: entries[at].name, kind: kind, loaded: true },
        )
    } else {
        entries.push(Target { path: path, name: None, kind: kind, loaded: true })
    }
}

/// How `ghci` is told of the file `path`, given the targets `entries`.
pub open spec fn import_info(entries: Seq<Target>, path: NormalPath) -> ImportInfo {
    let at = position_of(entries, path.key());
    if at < entries.len() {
        ImportInfo {
            name: match entries[at].name {
                Some(name) => name,
                None => path.relative,
            },
            kind: entries[at].kind,
            loaded: entries[at].loaded,
        }
    } else {
        ImportInfo { name: path.relative, kind: TargetKind::Path, loaded: false }
    }
}

/// `position_of` finds the first entry for the key, if there is one.
pub proof fn lemma_position_of(entries: Seq<Target>, key: Seq<char>)
    ensures
        0 <= position_of(entries, key) <= entries.len(),
        position_of(entries, key) < entries.len() <==> has_key(entries, key),
        position_of(entries, key) < entries.len() ==> entries[position_of(
            entries,
            key,
        )].path.key() == key,
        forall|i: int| 0 <= i < position_of(entries, key) ==> (#[trigger] entries[i]).path.key() != key,
    decreases entries.len(),
{
    if entries.len() == 0 {
    } else if entries[0].path.key() == key {
    } else {
        let rest = entries.drop_first();
        lemma_position_of(rest, key);
        let at = position_of(rest, key);
        assert forall|i: int| 0 <= i < 1 + at implies (#[trigger] entries[i]).path.key() != key by {
            if i > 0 {
                assert(entries[i] == rest[i - 1]);
            }
        }
        if at < rest.len() {
            assert(entries[1 + at] == rest[at]);
        }
        if has_key(entries, key) {
            let i = choose|i: int| 0 <= i < entries.len() && (#[trigger] entries[i]).path.key() == key;
            assert(rest[i - 1] == entries[i]);
        }
    }
}

/// Making a file a target keeps every file that was a target, makes the file
/// one, and adds an entry only where the file had none.
pub proof fn lemma_inserted_keys(entries: Seq<Target>, path: NormalPath, kind: TargetKind)
    ensures
        keys_of(inserted(entries, path, kind)) == keys_of(entries).insert(path.key()),
        has_key(entries, path.key()) ==> inserted(entries, path, kind).len() == entries.len(),
        !has_key(entries, path.key()) ==> inserted(entries, path, kind).len() == entries.len() + 1,
{
    lemma_position_of(entries, path.key());
    let at = position_of(entries, path.key());
    let after = inserted(entries, path, kind);
    assert forall|i: int| 0 <= i < entries.len() implies (#[trigger] after[i]).path.key()
        == entries[i].path.key() by {}
    assert forall|key: Seq<char>| has_key(after, key) <==> (has_key(entries, key) || key
        == path.key()) by {
        if has_key(after, key) {
            let i = choose|i: int| 0 <= i < after.len() && (#[trigger] after[i]).path.key() == key;
            if i < entries.len() {
                assert(entries[i].path.key() == key);
            }
        }
        if has_key(entries, key) {
            let i = choose|i: int| 0 <= i < entries.len() && (#[trigger] entries[i]).path.key() == key;
            assert(after[i].path.key() == key);
        }
        if key == path.key() {
            if at < entries.len() {
                assert(after[at].path.key() == key);
            } else {
                assert(after[entries.len() as int].path.key() == key);
            }
        }
    }
    assert(keys_of(after) =~= keys_of(entries).insert(path.key()));
}

/// Making a file a target keeps the entries distinct.
pub proof fn lemma_inserted(entries: Seq<Target>, path: NormalPath, kind: TargetKind)
    requires
        distinct_keys(entries),
    ensures
        distinct_keys(inserted(entries, path, kind)),
        keys_of(inserted(entries, path, kind)) == keys_of(entries).insert(path.key()),
{
    lemma_position_of(entries, path.key());
    lemma_inserted_keys(entries, path, kind);
    let after = inserted(entries, path, kind);
    assert forall|i: int| 0 <= i < entries.len() implies (#[trigger] after[i]).path.key()
        == entries[i].path.key() by {}
    assert forall|i: int, j: int| 0 <= i < j < after.len() implies (#[trigger] after[i]).path.key() != (
    #[trigger] after[j]).path.key() by {
        if j < entries.len() {
            assert(entries[i].path.key() != entries[j].path.key());
        } else {
            assert(entries[i].path.key() != path.key());
        }
    }
}

impl Clone for Target {
    fn clone(&self) -> (res: Self)
        ensures
            res == *self,
    {
        let name = match &self.name {
            Some(name) => Some(name.clone()),
            None => None,
        };
        Target { path: self.path.clone(), name: name, kind: self.kind, loaded: self.loaded }
    }
}

impl View for ModuleSet {
    type V = Seq<Target>;

    closed spec fn view(&self) -> Seq<Target> {
        self.entries@
    }
}

impl ModuleSet {
    /// The invariant of the set: no file has two entries.
    #[verifier::type_invariant]
    pub open spec fn wf(&self) -> bool {
        distinct_keys(self@)
    }

    /// The files that are targets, each by the characters of its absolute path.
    pub open spec fn keys(&self) -> Set<Seq<char>> {
        keys_of(self@)
    }

    /// A set without targets.
    pub fn new() -> (set: Self)
        ensures
            set@ == Seq::<Target>::empty(),
    {
        ModuleSet { entries: Vec::new() }
    }

    /// The number of targets.
    pub fn len(&self) -> (n: usize)
        ensures
            n == self@.len(),
    {
        self.entries.len()
    }

    /// The target at position `index`, in the order in which the files became
    /// targets.
    pub fn get(&self, index: usize) -> (target: Option<&Target>)
        ensures
            target == if index < self@.len() {
                Some(&self@[index as int])
            } else {
                None
            },
    {
        if index < self.entries.len() {
            Some(&self.entries[index])
        } else {
            None
        }
    }

    /// The position of the entry for the file whose absolute path is `path`,
    /// or `len()` where it has none.
    fn position(&self, path: &str) -> (at: usize)
        ensures
            at == position_of(self@, path@),
            at <= self@.len(),
    {
        let wanted = path.to_owned();
        let mut at: usize = 0;
        proof {
            lemma_position_of(self@, path@);
        }
        while at < self.entries.len()
            invariant
                at <= self.entries@.len(),
                wanted@ == path@,
                forall|i: int| 0 <= i < at ==> (#[trigger] self.entries@[i]).path.key() != path@,
                0 <= position_of(self@, path@) <= self@.len(),
                position_of(self@, path@) < self@.len() ==> self@[position_of(
                    self@,
                    path@,
                )].path.key() == path@,
                forall|i: int|
                    0 <= i < position_of(self@, path@) ==> (#[trigger] self@[i]).path.key() != path@,
            decreases self.entries@.len() - at,
        {
            if self.entries[at].path.absolute == wanted {
                return at;
            }
            at = at + 1;
        }
        at
    }

    /// Whether the file whose absolute path is `path` is a target.
    pub fn contains_source_path(&self, path: &str) -> (found: bool)
        ensures
            found == self.keys().contains(path@),
    {
        proof {
            lemma_position_of(self@, path@);
        }
        self.position(path) < self.entries.len()
    }

    /// Makes `path` a target of kind `kind`. Where the file is a target
    /// already, its entry stays in place, with its path and name, and is marked
    /// as loaded and of that kind.
    pub fn insert_source_path(&mut self, path: NormalPath, kind: TargetKind)
        ensures
            final(self)@ == inserted(old(self)@, path, kind),
            final(self).keys() == old(self).keys().insert(path.key()),
    {
        proof {
            use_type_invariant(&*self);
            lemma_inserted(self@, path, kind);
        }
        let at = self.position(path.absolute());
        let mut entries: Vec<Target> = Vec::new();
        std::mem::swap(&mut entries, &mut self.entries);
        if at < entries.len() {
            let entry = entries[at].clone();
            entries.set(at, Target { path: entry.path, name: entry.name, kind: kind, loaded: true });
        } else {
            entries.push(Target { path: path, name: None, kind: kind, loaded: true });
        }
        self.entries = entries;
    }

    /// Adds `target` to the set, unless its file is a target already: then the
    /// set stays as it is.
    pub fn insert(&mut self, target: Target) -> (added: bool)
        ensures
            added == !old(self).keys().contains(target.path.key()),
            final(self)@ == if added {
                old(self)@.push(target)
            } else {
                old(self)@
            },
    {
        proof {
            use_type_invariant(&*self);
            lemma_position_of(self@, target.path.key());
        }
        let at = self.position(target.path.absolute());
        if at < self.entries.len() {
            false
        } else {
            let mut entries: Vec<Target> = Vec::new();
            std::mem::swap(&mut entries, &mut self.entries);
            entries.push(target);
            self.entries = entries;
            true
        }
    }

    /// How `ghci` is told of the file `path`: by the import name of its
    /// target where that is known, else by its relative path; with the kind of
    /// its target, or by path where it is none; and whether `ghci` holds it.
    pub fn module_import_name(&self, path: &NormalPath) -> (info: ImportInfo)
        ensures
            info == import_info(self@, *path),
    {
        let at = self.position(path.absolute());
        if at < self.entries.len() {
            let entry = &self.entries[at];
            let name = match &entry.name {
                Some(name) => name.clone(),
                None => path.relative.clone(),
            };
            ImportInfo { name: name, kind: entry.kind, loaded: entry.loaded }
        } else {
            ImportInfo { name: path.relative.clone(), kind: TargetKind::Path, loaded: false }
        }
    }
}

} // verus!

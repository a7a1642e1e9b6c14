//! Commands that source files ask to have evaluated, in comments.

use crate::path::{path_precedes, NormalPath};
use vstd::prelude::*;
use vstd::string::StringExecFns;

verus! {

/// How an eval command is written in its file.
#[derive(Debug, Clone, Copy, PartialEq, Eq, Structural)]
pub enum EvalKind {
    /// An expression on one line.
    Line,
    /// A block of several lines.
    Block,
}

/// A command found in a comment of a source file.
#[derive(Debug)]
pub struct EvalCommand {
    /// The line of the file on which the command stands, counted from one.
    pub line: usize,
    /// How the command is written.
    pub kind: EvalKind,
    /// The command, as it stands in the file.
    pub command: String,
}

/// The eval commands of one file.
#[derive(Debug)]
pub struct FileCommands {
    /// The file.
    pub path: NormalPath,
    /// Its commands, in the order in which they stand in the file.
    pub commands: Vec<EvalCommand>,
}

/// An eval command together with the file that holds it.
#[derive(Debug)]
pub struct EvalJob {
    /// The file.
    pub path: NormalPath,
    /// The command.
    pub command: EvalCommand,
}

/// The eval commands of a session: for each file at most one list of
/// commands. A file that is new to the collection is placed before the first
/// file that its path precedes, so that the files stand in the order of their
/// paths.
#[derive(Debug)]
pub struct EvalCommands {
    entries: Vec<FileCommands>,
}

/// The contents of an [`EvalCommands`]: files with their commands.
pub type EvalMap = Seq<(NormalPath, Seq<EvalCommand>)>;

/// The numeral of a digit.
pub open spec fn digit(d: nat) -> Seq<char> {
    if d == 0 {
        "0"@
    } else if d == 1 {
        "1"@
    } else if d == 2 {
        "2"@
    } else if d == 3 {
        "3"@
    } else if d == 4 {
        "4"@
    } else if d == 5 {
        "5"@
    } else if d == 6 {
        "6"@
    } else if d == 7 {
        "7"@
    } else if d == 8 {
        "8"@
    } else {
        "9"@
    }
}

/// The decimal numeral of `n`, without leading zeros.
pub open spec fn decimal(n: nat) -> Seq<char>
    decreases n,
{
    if n < 10 {
        digit(n)
    } else {
        decimal(n / 10) + digit(n % 10)
    }
}

/// The line that announces the evaluation of `job`: the relative path of the
/// file, the line of the command, and the command behind the marker `>>>`.
pub open spec fn announcement(job: EvalJob) -> Seq<char> {
    job.path.relative@ + ":"@ + decimal(job.command.line as nat) + ": >>> "@ + job.command.command@
}

/// Whether `map` holds commands for the file `key`.
pub open spec fn has_commands(map: EvalMap, key: Seq<char>) -> bool {
    exists|i: int| 0 <= i < map.len() && (#[trigger] map[i]).0.key() == key
}

/// No file has two entries in `map`.
pub open spec fn distinct_files(map: EvalMap) -> bool {
    forall|i: int, j: int|
        0 <= i < j < map.len() ==> (#[trigger] map[i]).0.key() != (#[trigger] map[j]).0.key()
}

/// The position of the entry for `key` in `map`, or the length of `map` where
/// there is none.
pub open spec fn file_position(map: EvalMap, key: Seq<char>) -> int
    decreases map.len(),
{
    if map.len() == 0 {
        0
    } else if map[0].0.key() == key {
        0
    } else {
        1 + file_position(map.drop_first(), key)
    }
}

/// The position of the first entry of `map` whose path `key` precedes, or the
/// length of `map` where there is none.
pub open spec fn insertion_point(map: EvalMap, key: Seq<char>) -> int
    decreases map.len(),
{
    if map.len() == 0 {
        0
    } else if path_precedes(key, map[0].0.key()) {
        0
    } else {
        1 + insertion_point(map.drop_first(), key)
    }
}

/// `map` after `commands` were recorded for `path`: they take the place of the
/// commands that the file had, or the file becomes a new entry, before the
/// first file that its path precedes.
pub open spec fn with_commands(map: EvalMap, path: NormalPath, commands: Seq<EvalCommand>) -> EvalMap {
    let at = file_position(map, path.key());
    if at < map.len() {
        map.update(at, (map[at].0, commands))
    } else {
        map.insert(insertion_point(map, path.key()), (path, commands))
    }
}

/// `insertion_point` gives a position in `map` or its length; `key` precedes
/// the path there, and none of the paths before it.
pub proof fn lemma_insertion_point(map: EvalMap, key: Seq<char>)
    ensures
        0 <= insertion_point(map, key) <= map.len(),
        insertion_point(map, key) < map.len() ==> path_precedes(
            key,
            map[insertion_point(map, key)].0.key(),
        ),
        forall|i: int|
            0 <= i < insertion_point(map, key) ==> !path_precedes(key, (#[trigger] map[i]).0.key()),
    decreases map.len(),
{
    if map.len() > 0 && !path_precedes(key, map[0].0.key()) {
        let rest = map.drop_first();
        lemma_insertion_point(rest, key);
        let at = insertion_point(rest, key);
        assert forall|i: int| 0 <= i < 1 + at implies !path_precedes(
            key,
            (#[trigger] map[i]).0.key(),
        ) by {
            if i > 0 {
                assert(map[i] == rest[i - 1]);
            }
        }
        if at < rest.len() {
            assert(map[1 + at] == rest[at]);
        }
    }
}

/// Each of `commands` with the file `path` that holds it.
pub open spec fn jobs_of(path: NormalPath, commands: Seq<EvalCommand>) -> Seq<EvalJob> {
    Seq::new(commands.len(), |i: int| EvalJob { path: path, command: commands[i] })
}

/// All commands of `map`, file after file, each with its file.
pub open spec fn flattened(map: EvalMap) -> Seq<EvalJob>
    decreases map.len(),
{
    if map.len() == 0 {
        Seq::empty()
    } else {
        flattened(map.drop_last()) + jobs_of(map.last().0, map.last().1)
    }
}

/// `file_position` finds the first entry for the key, if there is one.
pub proof fn lemma_file_position(map: EvalMap, key: Seq<char>)
    ensures
        0 <= file_position(map, key) <= map.len(),
        file_position(map, key) < map.len() <==> has_commands(map, key),
        file_position(map, key) < map.len() ==> map[file_position(map, key)].0.key() == key,
        forall|i: int| 0 <= i < file_position(map, key) ==> (#[trigger] map[i]).0.key() != key,
    decreases map.len(),
{
    if map.len() == 0 {
    } else if map[0].0.key() == key {
    } else {
        let rest = map.drop_first();
        lemma_file_position(rest, key);
        let at = file_position(rest, key);
        assert forall|i: int| 0 <= i < 1 + at implies (#[trigger] map[i]).0.key() != key by {
            if i > 0 {
                assert(map[i] == rest[i - 1]);
            }
        }
        if at < rest.len() {
            assert(map[1 + at] == rest[at]);
        }
        if has_commands(map, key) {
            let i = choose|i: int| 0 <= i < map.len() && (#[trigger] map[i]).0.key() == key;
            assert(rest[i - 1] == map[i]);
        }
    }
}

/// Recording commands for a file keeps the files distinct.
pub proof fn lemma_with_commands(map: EvalMap, path: NormalPath, commands: Seq<EvalCommand>)
    requires
        distinct_files(map),
    ensures
        distinct_files(with_commands(map, path, commands)),
{
    lemma_file_position(map, path.key());
    lemma_insertion_point(map, path.key());
    let after = with_commands(map, path, commands);
    let at = file_position(map, path.key());
    let point = insertion_point(map, path.key());
    assert forall|i: int, j: int| 0 <= i < j < after.len() implies (#[trigger] after[i]).0.key() != (
    #[trigger] after[j]).0.key() by {
        if at < map.len() {
            assert(after[i].0.key() == map[i].0.key());
            assert(after[j].0.key() == map[j].0.key());
        } else {
            let before = |k: int|
                if k < point {
                    k
                } else {
                    k - 1
                };
            if i == point {
                assert(after[j] == map[j - 1]);
            } else if j == point {
                assert(after[i] == map[i]);
            } else {
                assert(after[i] == map[before(i)]);
                assert(after[j] == map[before(j)]);
            }
        }
    }
}

/// The numeral of the digit `d`.
fn digit_numeral(d: usize) -> (numeral: &'static str)
    requires
        d < 10,
    ensures
        numeral@ == digit(d as nat),
{
    if d == 0 {
        "0"
    } else if d == 1 {
        "1"
    } else if d == 2 {
        "2"
    } else if d == 3 {
        "3"
    } else if d == 4 {
        "4"
    } else if d == 5 {
        "5"
    } else if d == 6 {
        "6"
    } else if d == 7 {
        "7"
    } else if d == 8 {
        "8"
    } else {
        "9"
    }
}

/// The decimal numeral of `n`.
pub fn decimal_numeral(n: usize) -> (numeral: String)
    ensures
        numeral@ == decimal(n as nat),
    decreases n,
{
    if n < 10 {
        String::from_str(digit_numeral(n))
    } else {
        decimal_numeral(n / 10).concat(digit_numeral(n % 10))
    }
}

impl EvalJob {
    /// The line that announces the evaluation of the command.
    pub fn describe(&self) -> (line: String)
        ensures
            line@ == announcement(*self),
    {
        let line = self.path.relative.clone().concat(":");
        let line = line.concat(decimal_numeral(self.command.line).as_str());
        let line = line.concat(": >>> ");
        line.concat(self.command.command.as_str())
    }
}

impl Clone for EvalCommand {
    fn clone(&self) -> (res: Self)
        ensures
            res == *self,
    {
        EvalCommand { line: self.line, kind: self.kind, command: self.command.clone() }
    }
}

impl View for FileCommands {
    type V = (NormalPath, Seq<EvalCommand>);

    open spec fn view(&self) -> (NormalPath, Seq<EvalCommand>) {
        (self.path, self.commands@)
    }
}

impl View for EvalCommands {
    type V = EvalMap;

    closed spec fn view(&self) -> EvalMap {
        self.entries@.map_values(|entry: FileCommands| entry@)
    }
}

impl EvalCommands {
    /// The invariant of the collection: no file has two entries.
    #[verifier::type_invariant]
    pub open spec fn wf(&self) -> bool {
        distinct_files(self@)
    }

    /// No commands.
    pub fn new() -> (commands: Self)
        ensures
            commands@ == Seq::<(NormalPath, Seq<EvalCommand>)>::empty(),
    {
        let commands = EvalCommands { entries: Vec::new() };
        assert(commands@ =~= Seq::<(NormalPath, Seq<EvalCommand>)>::empty());
        commands
    }

    /// The number of files for which commands are recorded.
    pub fn len(&self) -> (n: usize)
        ensures
            n == self@.len(),
    {
        self.entries.len()
    }

    /// The file at position `index`, with its commands.
    pub fn get(&self, index: usize) -> (entry: Option<&FileCommands>)
        ensures
            match entry {
                Some(entry) => index < self@.len() && entry@ == self@[index as int],
                None => index >= self@.len(),
            },
    {
        if index < self.entries.len() {
            Some(&self.entries[index])
        } else {
            None
        }
    }

    /// The position of the entry for the file whose absolute path is `path`,
    /// or `len()` where it has none.
    fn position(&self, path: &str) -> (at: usize)
        ensures
            at == file_position(self@, path@),
            at <= self@.len(),
    {
        let wanted = path.to_owned();
        let mut at: usize = 0;
        proof {
            lemma_file_position(self@, path@);
        }
        while at < self.entries.len()
            invariant
                at <= self.entries@.len(),
                self@.len() == self.entries@.len(),
                wanted@ == path@,
                forall|i: int| 0 <= i < at ==> (#[trigger] self@[i]).0.key() != path@,
                0 <= file_position(self@, path@) <= self@.len(),
                file_position(self@, path@) < self@.len() ==> self@[file_position(
                    self@,
                    path@,
                )].0.key() == path@,
                forall|i: int|
                    0 <= i < file_position(self@, path@) ==> (#[trigger] self@[i]).0.key() != path@,
            decreases self.entries@.len() - at,
        {
            assert(self@[at as int] == self.entries@[at as int]@);
            if self.entries[at].path.absolute == wanted {
                return at;
            }
            at = at + 1;
        }
        at
    }

    /// The position of the first entry whose path `path` precedes, or `len()`
    /// where there is none.
    fn insertion(&self, path: &NormalPath) -> (at: usize)
        ensures
            at == insertion_point(self@, path.key()),
            at <= self@.len(),
    {
        let mut at: usize = 0;
        proof {
            lemma_insertion_point(self@, path.key());
        }
        while at < self.entries.len()
            invariant
                at <= self.entries@.len(),
                self@.len() == self.entries@.len(),
                forall|i: int| 0 <= i < at ==> !path_precedes(path.key(), (#[trigger] self@[i]).0.key()),
                0 <= insertion_point(self@, path.key()) <= self@.len(),
                insertion_point(self@, path.key()) < self@.len() ==> path_precedes(
                    path.key(),
                    self@[insertion_point(self@, path.key())].0.key(),
                ),
                forall|i: int|
                    0 <= i < insertion_point(self@, path.key()) ==> !path_precedes(
                        path.key(),
                        (#[trigger] self@[i]).0.key(),
                    ),
            decreases self.entries@.len() - at,
        {
            assert(self@[at as int] == self.entries@[at as int]@);
            if path.precedes(&self.entries[at].path) {
                return at;
            }
            at = at + 1;
        }
        at
    }

    /// Records `commands` as the commands of `path`. They take the place of
    /// the commands that the file had, or the file becomes a new entry, before
    /// the first file that its path precedes.
    pub fn insert(&mut self, path: NormalPath, commands: Vec<EvalCommand>)
        ensures
            final(self)@ == with_commands(old(self)@, path, commands@),
    {
        proof {
            use_type_invariant(&*self);
            lemma_with_commands(self@, path, commands@);
        }
        let at = self.position(path.absolute());
        let point = if at < self.entries.len() {
            0
        } else {
            self.insertion(&path)
        };
        let ghost before = self@;
        let mut entries: Vec<FileCommands> = Vec::new();
        std::mem::swap(&mut entries, &mut self.entries);
        assert(self@ =~= Seq::<(NormalPath, Seq<EvalCommand>)>::empty());
        if at < entries.len() {
            let kept = entries[at].path.clone();
            assert(before[at as int] == entries@[at as int]@);
            entries.set(at, FileCommands { path: kept, commands: commands });
        } else {
            entries.insert(point, FileCommands { path: path, commands: commands });
        }
        assert(entries@.map_values(|entry: FileCommands| entry@) =~= with_commands(
            before,
            path,
            commands@,
        ));
        self.entries = entries;
    }

    /// All commands, file after file, each with its file.
    pub fn flatten(&self) -> (jobs: Vec<EvalJob>)
        ensures
            jobs@ == flattened(self@),
    {
        let mut jobs: Vec<EvalJob> = Vec::new();
        let mut i: usize = 0;
        while i < self.entries.len()
            invariant
                i <= self.entries@.len(),
                self@.len() == self.entries@.len(),
                jobs@ == flattened(self@.take(i as int)),
            decreases self.entries@.len() - i,
        {
            let entry = &self.entries[i];
            let ghost done = jobs@;
            proof {
                let next = self@.take(i + 1);
                assert(next.drop_last() == self@.take(i as int));
                assert(next.last() == entry@);
            }
            let mut j: usize = 0;
            while j < entry.commands.len()
                invariant
                    j <= entry.commands@.len(),
                    jobs@ == done + jobs_of(entry.path, entry.commands@).take(j as int),
                decreases entry.commands@.len() - j,
            {
                jobs.push(EvalJob { path: entry.path.clone(), command: entry.commands[j].clone() });
                assert(jobs_of(entry.path, entry.commands@).take(j + 1) == jobs_of(
                    entry.path,
                    entry.commands@,
                ).take(j as int).push(jobs_of(entry.path, entry.commands@)[j as int]));
                j = j + 1;
            }
            assert(jobs_of(entry.path, entry.commands@).take(j as int) == jobs_of(
                entry.path,
                entry.commands@,
            ));
            i = i + 1;
        }
        assert(self@.take(i as int) == self@);
        jobs
    }
}

} // verus!

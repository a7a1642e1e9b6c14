//! Normalized paths, and what the session reads from a path's final component.

use camino::Utf8Path;
use vstd::prelude::*;
use vstd::string::StringExecFns;

verus! {

/// A path in both of its normal forms: absolute, and relative to the working
/// directory of the session.
///
/// Two values name the same file when their absolute forms agree; the relative
/// form is what is shown to the user and written to `ghci`.
#[derive(Debug)]
pub struct NormalPath {
    /// The absolute form, by which the file is known.
    pub absolute: String,
    /// The form relative to the working directory of the session.
    pub relative: String,
}

/// The final component of `path`, as `Utf8Path::file_name` gives it on the
/// Unix targets that this crate builds for.
pub uninterp spec fn path_file_name(path: Seq<char>) -> Option<Seq<char>>;

/// Whether the path `a` comes before the path `b` in the order of
/// `Utf8Path`, which compares two paths component by component.
pub uninterp spec fn path_precedes(a: Seq<char>, b: Seq<char>) -> bool;

/// The position of the last `.` in `name[..end]`, or `-1` where there is none.
pub open spec fn last_dot(name: Seq<char>, end: int) -> int
    decreases end,
{
    if end <= 0 {
        -1
    } else if name[end - 1] == '.' {
        end - 1
    } else {
        last_dot(name, end - 1)
    }
}

/// The extension of a file name: what follows its last `.`, unless the name
/// holds no `.` or its only `.` is the first character.
pub open spec fn name_extension(name: Seq<char>) -> Option<Seq<char>> {
    let dot = last_dot(name, name.len() as int);
    if dot <= 0 {
        None
    } else {
        Some(name.subrange(dot + 1, name.len() as int))
    }
}

/// The extension of the final component of `path`, if it has both.
pub open spec fn path_extension(path: Seq<char>) -> Option<Seq<char>> {
    match path_file_name(path) {
        Some(name) => name_extension(name),
        None => None,
    }
}

/// The view of an optional string.
pub open spec fn opt_view(s: Option<String>) -> Option<Seq<char>> {
    match s {
        Some(s) => Some(s@),
        None => None,
    }
}

/// Calls `camino::Utf8Path::file_name` on `path`. The result is trusted to be
/// [`path_file_name`] of the path's characters: the final component of the path
/// if it has one, and `None` if the path ends in `..` or names the root.
#[verifier::external_body]
fn utf8_file_name(path: &str) -> (name: Option<String>)
    ensures
        opt_view(name) == path_file_name(path@),
{
    Utf8Path::new(path).file_name().map(|s| s.to_string())
}

/// Calls `camino::Utf8Path::extension` on `path`. The result is trusted to be
/// cut from the file name as the method's documentation says: `None` if there
/// is no file name, if the name holds no `.`, or if its only `.` comes first;
/// otherwise what follows the last `.`.
#[verifier::external_body]
fn utf8_extension(path: &str) -> (extension: Option<String>)
    ensures
        opt_view(extension) == path_extension(path@),
{
    Utf8Path::new(path).extension().map(|s| s.to_string())
}

/// Compares `a` and `b` as `camino::Utf8Path` orders them. The result is
/// trusted to be [`path_precedes`] of the characters of the two paths: whether
/// the components of `a` come before those of `b`.
#[verifier::external_body]
fn utf8_path_less(a: &str, b: &str) -> (less: bool)
    ensures
        less == path_precedes(a@, b@),
{
    Utf8Path::new(a) < Utf8Path::new(b)
}

impl Clone for NormalPath {
    fn clone(&self) -> (res: Self)
        ensures
            res == *self,
    {
        NormalPath { absolute: self.absolute.clone(), relative: self.relative.clone() }
    }
}

impl PartialEq for NormalPath {
    fn eq(&self, other: &Self) -> (same: bool) {
        self.absolute == other.absolute
    }
}

impl vstd::std_specs::cmp::PartialEqSpecImpl for NormalPath {
    open spec fn obeys_eq_spec() -> bool {
        true
    }

    open spec fn eq_spec(&self, other: &Self) -> bool {
        self.absolute@ == other.absolute@
    }
}

impl Eq for NormalPath {

}

impl NormalPath {
    /// A path from its two forms.
    pub fn new(absolute: &str, relative: &str) -> (path: Self)
        ensures
            path.absolute@ == absolute@,
            path.relative@ == relative@,
    {
        NormalPath { absolute: String::from_str(absolute), relative: String::from_str(relative) }
    }

    /// What identifies the file: the characters of the absolute form.
    pub open spec fn key(&self) -> Seq<char> {
        self.absolute@
    }

    /// The absolute form.
    pub fn absolute(&self) -> (s: &str)
        ensures
            s@ == self.absolute@,
    {
        self.absolute.as_str()
    }

    /// The form relative to the session's working directory.
    pub fn relative(&self) -> (s: &str)
        ensures
            s@ == self.relative@,
    {
        self.relative.as_str()
    }

    /// Whether this path comes before `other` in the order of paths.
    pub fn precedes(&self, other: &NormalPath) -> (before: bool)
        ensures
            before == path_precedes(self.key(), other.key()),
    {
        utf8_path_less(self.absolute.as_str(), other.absolute.as_str())
    }

    /// The final component of the path.
    pub fn file_name(&self) -> (name: Option<String>)
        ensures
            opt_view(name) == path_file_name(self.key()),
    {
        utf8_file_name(self.absolute.as_str())
    }

    /// The extension of the final component of the path.
    pub fn extension(&self) -> (extension: Option<String>)
        ensures
            opt_view(extension) == path_extension(self.key()),
    {
        utf8_extension(self.absolute.as_str())
    }
}

} // verus!

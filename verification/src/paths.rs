//! File-system paths, which this crate carries and never looks into.

use vstd::prelude::*;
use std::path::PathBuf;

verus! {

/// `std::path::PathBuf`, as a value that is carried and compared, with
/// nothing known of what is inside.
#[verifier::external_type_specification]
#[verifier::external_body]
pub struct ExPathBuf(PathBuf);

/// `PathBuf::clone`: the copy is the same path.
pub assume_specification[ <PathBuf as Clone>::clone ](path: &PathBuf) -> (copy: PathBuf)
    ensures
        copy == *path,
;

/// The path that `PathBuf::from` makes of a text.
pub uninterp spec fn path_from(text: Seq<char>) -> PathBuf;

/// The path that `Path::join` makes of a path and a name to add to it.
pub uninterp spec fn joined(base: PathBuf, name: Seq<char>) -> PathBuf;

/// The text that `Path::display` shows for a path.
pub uninterp spec fn shown(path: PathBuf) -> Seq<char>;

/// `Path::display`, written to a string. The text depends on the path alone.
#[verifier::external_body]
pub(crate) fn show(path: &PathBuf) -> (text: String)
    ensures
        text@ == shown(*path),
{
    path.display().to_string()
}

/// `PathBuf::from` on a string slice. The path depends on the text alone.
#[verifier::external_body]
pub(crate) fn path_of(text: &str) -> (path: PathBuf)
    ensures
        path == path_from(text@),
{
    PathBuf::from(text)
}

/// `Path::join` with a string slice. The result depends on the path and the
/// name alone.
#[verifier::external_body]
pub(crate) fn join(base: &PathBuf, name: &str) -> (path: PathBuf)
    ensures
        path == joined(*base, name@),
{
    base.join(name)
}

/// `dirs::home_dir`: the home directory of the user, as the environment of
/// the process gives it. Nothing is known of the outcome.
#[verifier::external_body]
pub(crate) fn home_directory() -> (home: Option<PathBuf>) {
    dirs::home_dir()
}

} // verus!

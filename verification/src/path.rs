//! The two questions the navigator asks about a path: what its last component
//! is called, and which directory holds it. Both are answered by the standard
//! library's `Path`, with the path syntax of the platform; the library takes
//! the answers as they come.

use vstd::prelude::*;

verus! {

/// The final component of a path as `std::path::Path::file_name` gives it,
/// or `None` where the path has none.
pub uninterp spec fn path_file_name(path: Seq<char>) -> Option<Seq<char>>;

/// The path without its final component as `std::path::Path::parent` gives it,
/// or `None` where the path has none.
pub uninterp spec fn path_parent(path: Seq<char>) -> Option<Seq<char>>;

/// `Path::file_name` on a path given as text. The result is a function of
/// the path alone; being a piece of the given text, it converts back to text
/// without loss.
#[verifier::external_body]
pub(crate) fn file_name(path: &str) -> (name: Option<String>)
    ensures
        name is Some == path_file_name(path@) is Some,
        name matches Some(n) ==> path_file_name(path@) == Some(n@),
{
    match std::path::Path::new(path).file_name() {
        Some(n) => Some(n.to_string_lossy().into_owned()),
        None => None,
    }
}

/// `Path::parent` on a path given as text. The result is a function of the
/// path alone; being a piece of the given text, it converts back to text
/// without loss.
#[verifier::external_body]
pub(crate) fn parent(path: &str) -> (up: Option<String>)
    ensures
        up is Some == path_parent(path@) is Some,
        up matches Some(p) ==> path_parent(path@) == Some(p@),
{
    match std::path::Path::new(path).parent() {
        Some(p) => Some(p.to_string_lossy().into_owned()),
        None => None,
    }
}

} // verus!

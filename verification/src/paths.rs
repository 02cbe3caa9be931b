//! Path arithmetic, which the standard library does for the viewer.

use vstd::prelude::*;

verus! {

/// The text of the path made by `std::path::Path::join` from the root's name
/// and a path below it, by the rules of the platform the library is built for.
pub uninterp spec fn joined_path(root_name: Seq<char>, path: Seq<char>) -> Seq<char>;

/// The text of the last component of a path, as `std::path::Path::file_name`
/// finds it; `None` where the path has no such component.
pub uninterp spec fn file_name_of_path(path: Seq<char>) -> Option<Seq<char>>;

/// Calls `std::path::Path::join` on the root's name and `path`, and gives the
/// joined path as text. The contract only names the result: on one platform
/// the same two texts give the same joined text.
#[verifier::external_body]
pub(crate) fn join_under_root(root_name: &str, path: &str) -> (joined: String)
    ensures
        joined@ == joined_path(root_name@, path@),
{
    std::path::Path::new(root_name).join(path).to_string_lossy().into_owned()
}

/// Calls `std::path::Path::file_name` on `path` and gives the component as
/// text. The contract only names the result: the same path gives the same
/// answer, a component or none.
#[verifier::external_body]
pub(crate) fn file_name(path: &str) -> (name: Option<String>)
    ensures
        match name {
            Some(text) => file_name_of_path(path@) == Some(text@),
            None => file_name_of_path(path@) is None,
        },
{
    match std::path::Path::new(path).file_name() {
        Some(component) => Some(component.to_string_lossy().into_owned()),
        None => None,
    }
}

} // verus!

//! Where the sentinel file of a lock lies, derived from the protected target.
use vstd::prelude::*;

verus! {

/// The fixed name of the sentinel file.
pub const LOCK_FILE: &'static str = "sm.lock";

/// The parent of a path, as `std::path::Path::parent` computes it.
pub uninterp spec fn parent_of(p: Seq<char>) -> Option<Seq<char>>;

/// Relies on `std::path::Path::parent`: the path without its final
/// component, or nothing where the path is empty or ends in a root.
/// The parent of a path given as UTF-8 is a prefix of it, so it is UTF-8 too
/// and the conversion back to a string loses nothing.
#[verifier::external_body]
fn path_parent(p: &str) -> (r: Option<String>)
    ensures
        r matches Some(s) ==> parent_of(p@) == Some(s@),
        r is None ==> parent_of(p@) is None,
        p@.len() == 0 ==> r is None,
{
    std::path::Path::new(p).parent().map(|q| q.to_string_lossy().into_owned())
}

/// A path with a file name adjoined, as `std::path::Path::join` computes it.
pub uninterp spec fn joined(base: Seq<char>, name: Seq<char>) -> Seq<char>;

/// Relies on `std::path::Path::join`: the base path with the name adjoined.
/// Joining two UTF-8 strings gives UTF-8, so the conversion loses nothing.
#[verifier::external_body]
fn path_join(base: &str, name: &str) -> (r: String)
    ensures
        r@ == joined(base@, name@),
{
    std::path::Path::new(base).join(name).to_string_lossy().into_owned()
}

/// The folder that holds the sentinel: the target itself, or its parent
/// when the target is a single file; nothing when a file target has no
/// parent.
pub open spec fn folder_for(target: Seq<char>, single_file: bool) -> Option<Seq<char>> {
    if single_file {
        parent_of(target)
    } else {
        Some(target)
    }
}

/// The sentinel file inside a lock folder.
pub open spec fn sentinel_in(folder: Seq<char>) -> Seq<char> {
    joined(folder, LOCK_FILE@)
}

/// The folder in which the lock for `target` is taken.
pub fn lock_folder(target: &str, single_file: bool) -> (r: Option<String>)
    ensures
        r is None <==> folder_for(target@, single_file) is None,
        r matches Some(f) ==> folder_for(target@, single_file) == Some(f@),
{
    if single_file {
        path_parent(target)
    } else {
        Some(target.to_owned())
    }
}

/// The path of the sentinel file inside `folder`.
pub fn sentinel_path(folder: &str) -> (r: String)
    ensures
        r@ == sentinel_in(folder@),
{
    path_join(folder, LOCK_FILE)
}

} // verus!

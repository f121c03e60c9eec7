//! The three path operations of the standard library that the engine leans on,
//! over paths held as text.
//!
//! Their results are named, not spelled out: how a path splits and joins is
//! the platform's business.

use vstd::prelude::*;

verus! {

/// What `std::path::Path::file_name` gives for `path`, on the platform the
/// crate is built for: the final component, if the path has one.
pub uninterp spec fn path_file_name(path: Seq<char>) -> Option<Seq<char>>;

/// What `std::path::Path::parent` gives for `path`, on the platform the
/// crate is built for: the path without its final component, if there is one.
pub uninterp spec fn path_parent(path: Seq<char>) -> Option<Seq<char>>;

/// What `std::path::Path::join` gives for `name` adjoined to `dir`, on the
/// platform the crate is built for.
pub uninterp spec fn path_join(dir: Seq<char>, name: Seq<char>) -> Seq<char>;

/// Calls `std::path::Path::file_name` on `path`. Trusted: the result is what
/// the name [`path_file_name`] stands for, as text.
#[verifier::external_body]
pub(crate) fn file_name_of(path: &str) -> (name: Option<String>)
    ensures
        name.deep_view() == path_file_name(path@),
{
    std::path::Path::new(path).file_name().map(|name| name.to_string_lossy().into_owned())
}

/// Calls `std::path::Path::parent` on `path`. Trusted: the result is what
/// the name [`path_parent`] stands for, as text.
#[verifier::external_body]
pub(crate) fn parent_of(path: &str) -> (parent: Option<String>)
    ensures
        parent.deep_view() == path_parent(path@),
{
    std::path::Path::new(path).parent().map(|parent| parent.to_string_lossy().into_owned())
}

/// Calls `std::path::Path::join` to adjoin `name` to `dir`. Trusted: the
/// result is what the name [`path_join`] stands for, as text.
#[verifier::external_body]
pub(crate) fn join_path(dir: &str, name: &str) -> (joined: String)
    ensures
        joined@ == path_join(dir@, name@),
{
    std::path::Path::new(dir).join(name).to_string_lossy().into_owned()
}

} // verus!

//! Path operations on textual paths. The component rules are std's
//! (`std::path::Path`); this module names their results so that the planning
//! code can state its contracts in terms of them.

use vstd::prelude::*;

verus! {

/// What `Path::parent` gives for a path: `None` for a root or an empty path.
pub uninterp spec fn path_parent(p: Seq<char>) -> Option<Seq<char>>;

/// What `Path::file_name` gives: the final component, `None` when the path ends
/// in `..` or is a root.
pub uninterp spec fn path_file_name(p: Seq<char>) -> Option<Seq<char>>;

/// What `Path::extension` gives: the part of the file name after its last dot.
pub uninterp spec fn path_extension(p: Seq<char>) -> Option<Seq<char>>;

/// What `Path::join` gives for a base and a relative part.
pub uninterp spec fn path_join(base: Seq<char>, part: Seq<char>) -> Seq<char>;

/// What `Path::starts_with` says: `base` is a prefix of `p`, component-wise.
pub uninterp spec fn path_starts_with(p: Seq<char>, base: Seq<char>) -> bool;

/// Relies on `std::path::Path::parent`; a parent of a UTF-8 path is UTF-8, so
/// the lossy conversion keeps it whole.
#[verifier::external_body]
pub(crate) fn parent_of(p: &str) -> (r: Option<String>)
    ensures
        r.deep_view() == path_parent(p@),
{
    std::path::Path::new(p).parent().map(|d| d.to_string_lossy().into_owned())
}

/// Relies on `std::path::Path::file_name`.
#[verifier::external_body]
pub(crate) fn file_name_of(p: &str) -> (r: Option<String>)
    ensures
        r.deep_view() == path_file_name(p@),
{
    std::path::Path::new(p).file_name().map(|n| n.to_string_lossy().into_owned())
}

/// Relies on `std::path::Path::extension`.
#[verifier::external_body]
pub(crate) fn extension_of(p: &str) -> (r: Option<String>)
    ensures
        r.deep_view() == path_extension(p@),
{
    std::path::Path::new(p).extension().map(|e| e.to_string_lossy().into_owned())
}

/// Relies on `std::path::Path::join`.
#[verifier::external_body]
pub(crate) fn join_path(base: &str, part: &str) -> (r: String)
    ensures
        r@ == path_join(base@, part@),
{
    std::path::Path::new(base).join(part).to_string_lossy().into_owned()
}

/// Relies on `std::path::Path::starts_with`.
#[verifier::external_body]
pub(crate) fn starts_with_path(p: &str, base: &str) -> (r: bool)
    ensures
        r == path_starts_with(p@, base@),
{
    std::path::Path::new(p).starts_with(base)
}

/// The directory that `PathBuf::pop` leaves: the parent, or the path itself
/// when it has none.
pub open spec fn popped(p: Seq<char>) -> Seq<char> {
    match path_parent(p) {
        Some(d) => d,
        None => p,
    }
}

/// The directory that holds `p`, or `p` itself when it has no parent.
pub fn containing_dir(p: &str) -> (r: String)
    ensures
        r@ == popped(p@),
{
    match parent_of(p) {
        Some(d) => d,
        None => String::from_str(p),
    }
}

} // verus!

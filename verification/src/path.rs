//! Paths as text, compared and taken apart as the platform does it.

use vstd::prelude::*;

verus! {

/// Whether the platform takes two path texts for the same path.
pub uninterp spec fn path_texts_equal(a: Seq<char>, b: Seq<char>) -> bool;

/// The final component of a path, where it has one that names something.
pub uninterp spec fn path_text_file_name(path: Seq<char>) -> Option<Seq<char>>;

/// Calls `==` on two `std::path::Path`s.  The answer depends on the two texts
/// alone, and a path equals itself.  How the platform tells the components of
/// other texts apart is not stated.
#[verifier::external_body]
pub(crate) fn paths_equal(a: &str, b: &str) -> (r: bool)
    ensures
        r == path_texts_equal(a@, b@),
        a@ == b@ ==> r,
{
    std::path::Path::new(a) == std::path::Path::new(b)
}

/// Calls `Path::file_name`, the final component of the path if there is one.
/// The answer depends on the text of the path alone; how the platform finds
/// that component is not stated.
#[verifier::external_body]
pub(crate) fn path_file_name(path: &str) -> (r: Option<String>)
    ensures
        (match r {
            Some(name) => Some(name@),
            None => None,
        }) == path_text_file_name(path@),
{
    match std::path::Path::new(path).file_name() {
        Some(name) => Some(name.to_string_lossy().into_owned()),
        None => None,
    }
}

/// Whether two texts name the same path.
pub open spec fn same_path(a: Seq<char>, b: Seq<char>) -> bool {
    a == b || path_texts_equal(a, b)
}

/// Whether two texts name the same path.
pub fn is_same_path(a: &str, b: &str) -> (r: bool)
    ensures
        r == same_path(a@, b@),
{
    paths_equal(a, b)
}

/// Whether two paths that may be missing are the same: both are missing, or
/// both are there and name the same path.
pub open spec fn same_optional_path(a: Option<Seq<char>>, b: Option<Seq<char>>) -> bool {
    match (a, b) {
        (Some(a), Some(b)) => same_path(a, b),
        (None, None) => true,
        _ => false,
    }
}

/// Whether two paths that may be missing are the same.
pub fn is_same_optional_path(a: &Option<String>, b: &Option<String>) -> (r: bool)
    ensures
        r == same_optional_path(crate::text::optional_text(*a), crate::text::optional_text(*b)),
{
    match (a, b) {
        (Some(a), Some(b)) => is_same_path(a.as_str(), b.as_str()),
        (None, None) => true,
        _ => false,
    }
}

} // verus!

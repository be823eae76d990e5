//! Path arithmetic, done by `std::path`.
//!
//! How a path splits into components depends on the rules of the platform, so
//! the results are named here rather than spelled out. Paths are handed over
//! as text; none of these functions looks at the file system.

use vstd::prelude::*;

verus! {

/// The path that `std::path::Path::join` makes of `base` and `tail`.
pub uninterp spec fn joined_path(base: Seq<char>, tail: Seq<char>) -> Seq<char>;

/// What `std::path::Path::file_stem` takes to be the stem of `path`.
pub uninterp spec fn file_stem_of(path: Seq<char>) -> Option<Seq<char>>;

/// What `std::path::Path::extension` takes to be the extension of `path`.
pub uninterp spec fn extension_of(path: Seq<char>) -> Option<Seq<char>>;

/// Calls `std::path::Path::join` on `base` with `tail`. Trusted: the result is
/// a function of the two texts alone.
#[verifier::external_body]
pub(crate) fn join_path(base: &str, tail: &str) -> (joined: String)
    ensures
        joined@ == joined_path(base@, tail@),
{
    std::path::Path::new(base).join(tail).to_string_lossy().into_owned()
}

/// Calls `std::path::Path::file_stem` on `path`. Trusted: whether there is a
/// stem, and which, is a function of the text alone.
#[verifier::external_body]
pub(crate) fn file_stem(path: &str) -> (stem: Option<String>)
    ensures
        match stem {
            Some(text) => file_stem_of(path@) == Some(text@),
            None => file_stem_of(path@) is None,
        },
{
    match std::path::Path::new(path).file_stem() {
        Some(stem) => Some(stem.to_string_lossy().into_owned()),
        None => None,
    }
}

/// Calls `std::path::Path::extension` on `path`. Trusted: whether there is an
/// extension, and which, is a function of the text alone.
#[verifier::external_body]
pub(crate) fn extension(path: &str) -> (extension: Option<String>)
    ensures
        match extension {
            Some(text) => extension_of(path@) == Some(text@),
            None => extension_of(path@) is None,
        },
{
    match std::path::Path::new(path).extension() {
        Some(extension) => Some(extension.to_string_lossy().into_owned()),
        None => None,
    }
}

} // verus!

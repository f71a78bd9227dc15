//! File-system paths as text, and the path algebra of the standard
//! library behind a small trusted boundary.
//!
//! A path is held as a `String`. The four operations below are carried out
//! by `std::path`; each result is given a name, so that the contracts of the
//! rest of the crate can say exactly which call produced which path. The
//! names stand for what the standard library does on the platform that the
//! crate is built for. Nothing here touches the file system.

use vstd::prelude::*;

verus! {

/// What `Path::join` makes of `base` and `rel`.
pub uninterp spec fn joined(base: Seq<char>, rel: Seq<char>) -> Seq<char>;

/// What `Path::extension` finds in `path`.
pub uninterp spec fn extension_of(path: Seq<char>) -> Option<Seq<char>>;

/// What `Path::strip_prefix` leaves of `path` below `base`, if `path` lies
/// below `base`.
pub uninterp spec fn relative_to(path: Seq<char>, base: Seq<char>) -> Option<Seq<char>>;

/// What `Path::with_extension` makes of `path` when its extension is set
/// to `ext`.
pub uninterp spec fn extension_set(path: Seq<char>, ext: Seq<char>) -> Seq<char>;

/// The text holds no path separator.
pub open spec fn separator_free(text: Seq<char>) -> bool {
    forall|i: int| 0 <= i < text.len() ==> text[i] != '/' && text[i] != '\\'
}

/// Calls `std::path::Path::join`. Trusted: the result is the path that the
/// standard library builds from the two texts, whatever that is; the
/// contract only gives it its name.
#[verifier::external_body]
pub(crate) fn join(base: &str, rel: &str) -> (r: String)
    ensures
        r@ == joined(base@, rel@),
{
    std::path::Path::new(base).join(rel).to_string_lossy().into_owned()
}

/// Calls `std::path::Path::extension`. Trusted: the result is the
/// extension that the standard library finds, or `None` where it finds
/// none; the contract only gives it its name.
#[verifier::external_body]
pub(crate) fn extension(path: &str) -> (r: Option<String>)
    ensures
        match r {
            Some(e) => extension_of(path@) == Some(e@),
            None => extension_of(path@) is None,
        },
{
    match std::path::Path::new(path).extension() {
        Some(e) => Some(e.to_string_lossy().into_owned()),
        None => None,
    }
}

/// Calls `std::path::Path::strip_prefix`. Trusted: the result is the
/// remainder that the standard library returns, or `None` where it reports
/// that `base` is no prefix of `path`; the contract only gives it its name.
#[verifier::external_body]
pub(crate) fn strip_prefix(path: &str, base: &str) -> (r: Option<String>)
    ensures
        match r {
            Some(rest) => relative_to(path@, base@) == Some(rest@),
            None => relative_to(path@, base@) is None,
        },
{
    match std::path::Path::new(path).strip_prefix(base) {
        Ok(rest) => Some(rest.to_string_lossy().into_owned()),
        Err(_) => None,
    }
}

/// Calls `std::path::Path::with_extension`. Trusted: the result is the
/// path that the standard library returns; the contract only gives it its
/// name. The standard library panics on an extension that holds a path
/// separator, so such an extension is not admitted.
#[verifier::external_body]
pub(crate) fn with_extension(path: &str, ext: &str) -> (r: String)
    requires
        separator_free(ext@),
    ensures
        r@ == extension_set(path@, ext@),
{
    std::path::Path::new(path).with_extension(ext).to_string_lossy().into_owned()
}

} // verus!

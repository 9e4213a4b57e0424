//! File-system paths, held as text.
//!
//! Paths are composed and taken apart by `std::path`, which this module calls
//! and does not re-implement.  What `std::path` computes is a function of the
//! text it is given, on the platform the crate is built for; each such result
//! has a name here, so that contracts elsewhere can say exactly which path a
//! function returns.

use vstd::prelude::*;

verus! {

/// The path that `std::path::Path::join` yields for `base` extended by `rel`.
pub uninterp spec fn joined(base: Seq<char>, rel: Seq<char>) -> Seq<char>;

/// The extension that `std::path::Path::extension` finds in `path`, if any.
pub uninterp spec fn extension_of(path: Seq<char>) -> Option<Seq<char>>;

/// The path that `std::path::PathBuf::set_extension` leaves when `path` is
/// given the empty extension.
pub uninterp spec fn extension_removed(path: Seq<char>) -> Seq<char>;

/// The parent that `std::path::Path::parent` finds for `path`, if any.
pub uninterp spec fn parent_of(path: Seq<char>) -> Option<Seq<char>>;

/// `base` extended by `rel`.
///
/// Calls `std::path::Path::join`.  The contract claims only that the result
/// is the one path `joined` names for these two texts.
#[verifier::external_body]
pub(crate) fn join(base: &str, rel: &str) -> (r: String)
    ensures
        r@ == joined(base@, rel@),
{
    std::path::Path::new(base).join(rel).to_string_lossy().into_owned()
}

/// The extension of `path`, without its dot.
///
/// Calls `std::path::Path::extension`.  The contract claims only that the
/// result is what `extension_of` names for this text: absent exactly when
/// that is absent.
#[verifier::external_body]
pub(crate) fn extension(path: &str) -> (r: Option<String>)
    ensures
        match r {
            Some(e) => extension_of(path@) == Some(e@),
            None => extension_of(path@) is None,
        },
{
    match std::path::Path::new(path).extension() {
        Some(found) => Some(found.to_string_lossy().into_owned()),
        None => None,
    }
}

/// `path` with its extension, if it has one, taken off.
///
/// Calls `std::path::PathBuf::set_extension` with the empty extension.  The
/// contract claims only that the result is the path `extension_removed`
/// names for this text.
#[verifier::external_body]
pub(crate) fn strip_extension(path: &str) -> (r: String)
    ensures
        r@ == extension_removed(path@),
{
    let mut owned = std::path::PathBuf::from(path);
    owned.set_extension("");
    owned.to_string_lossy().into_owned()
}

/// The directory that holds `path`.
///
/// Calls `std::path::Path::parent`.  The contract claims only that the
/// result is what `parent_of` names for this text: absent exactly when that
/// is absent.
#[verifier::external_body]
pub(crate) fn parent(path: &str) -> (r: Option<String>)
    ensures
        match r {
            Some(p) => parent_of(path@) == Some(p@),
            None => parent_of(path@) is None,
        },
{
    match std::path::Path::new(path).parent() {
        Some(found) => Some(found.to_string_lossy().into_owned()),
        None => None,
    }
}

/// Whether `path` carries the extension `wanted`.
pub fn has_extension(path: &str, wanted: &str) -> (r: bool)
    ensures
        r == (extension_of(path@) == Some(wanted@)),
{
    match extension(path) {
        Some(found) => crate::text::same(found.as_str(), wanted),
        None => false,
    }
}

} // verus!

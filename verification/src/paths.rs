//! Path syntax of the host platform, taken from the standard library.
//!
//! How a path falls into components differs between platforms, so the
//! library does not spell it out: it names what the standard library
//! answers on the platform it is built for.

use vstd::prelude::*;
use crate::text::optional_text;

verus! {

/// The final component of `path`, or `None` where the path has no such
/// component.
pub uninterp spec fn path_file_name(path: Seq<char>) -> Option<Seq<char>>;

/// The path without its final component, or `None` where the path has no
/// parent.
pub uninterp spec fn path_parent(path: Seq<char>) -> Option<Seq<char>>;

/// Calls `std::path::Path::file_name`. The result is the final component as
/// text, named by `path_file_name`.
#[verifier::external_body]
pub(crate) fn file_name_of(path: &str) -> (r: Option<String>)
    ensures
        optional_text(r) == path_file_name(path@),
{
    match std::path::Path::new(path).file_name() {
        Some(name) => Some(name.to_string_lossy().into_owned()),
        None => None,
    }
}

/// Calls `std::path::Path::parent`. The result is the parent as text, named
/// by `path_parent`.
#[verifier::external_body]
pub(crate) fn parent_of(path: &str) -> (r: Option<String>)
    ensures
        optional_text(r) == path_parent(path@),
{
    match std::path::Path::new(path).parent() {
        Some(parent) => Some(parent.to_string_lossy().into_owned()),
        None => None,
    }
}

} // verus!

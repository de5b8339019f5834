//! What `std::path::Path` says of a path that is given as text.
//!
//! Nothing in this file is proved: each function hands a call on to
//! `std::path::Path`, and its contract gives the outcome a name. A path is
//! read by the rules of the platform that the library is built for, so what
//! the names stand for differs between platforms; on one platform each is a
//! function of the text alone.

use crate::records::optional_text;
use vstd::prelude::*;

verus! {

/// What `std::path::Path::parent` returns for the path written as `path`, as
/// text; `None` where it returns `None`.
pub uninterp spec fn path_parent(path: Seq<char>) -> Option<Seq<char>>;

/// What `std::path::Path::file_name` returns for the path written as `path`,
/// as text; `None` where it returns `None`.
pub uninterp spec fn path_file_name(path: Seq<char>) -> Option<Seq<char>>;

/// What `std::path::Path::extension` returns for the path written as `path`,
/// as text; `None` where it returns `None`.
pub uninterp spec fn path_extension(path: Seq<char>) -> Option<Seq<char>>;

/// Calls `std::path::Path::parent` on `path` and returns the parent as text.
/// The contract only names the outcome: it is `path_parent` of the text of
/// `path`, whatever that is.
#[verifier::external_body]
pub(crate) fn parent_directory(path: &str) -> (r: Option<String>)
    ensures
        optional_text(r) == path_parent(path@),
{
    match std::path::Path::new(path).parent() {
        Some(parent) => Some(parent.to_string_lossy().to_string()),
        None => None,
    }
}

/// Calls `std::path::Path::file_name` on `path` and returns the name as
/// text. The contract only names the outcome: it is `path_file_name` of the
/// text of `path`, whatever that is.
#[verifier::external_body]
pub(crate) fn file_name_of(path: &str) -> (r: Option<String>)
    ensures
        optional_text(r) == path_file_name(path@),
{
    match std::path::Path::new(path).file_name() {
        Some(name) => Some(name.to_string_lossy().to_string()),
        None => None,
    }
}

/// Calls `std::path::Path::extension` on `path` and returns the extension as
/// text. The contract only names the outcome: it is `path_extension` of the
/// text of `path`, whatever that is.
#[verifier::external_body]
pub(crate) fn extension_of(path: &str) -> (r: Option<String>)
    ensures
        optional_text(r) == path_extension(path@),
{
    match std::path::Path::new(path).extension() {
        Some(extension) => Some(extension.to_string_lossy().to_string()),
        None => None,
    }
}

} // verus!

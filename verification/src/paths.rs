//! Path and case operations of the standard library, as used on the textual
//! paths this crate works with.
//!
//! Each operation is carried out by the standard library itself. Its result is
//! a function of the text given to it, on the platform the crate is built
//! for, and is known to the verifier only under the name declared here.

use std::path::Path;
use vstd::prelude::*;
use vstd::string::*;
use crate::text::opt_text;

verus! {

/// What `std::path::Path::extension` yields for the path written as `path`.
pub uninterp spec fn path_extension(path: Seq<char>) -> Option<Seq<char>>;

/// What `std::path::Path::file_name` yields for the path written as `path`.
pub uninterp spec fn path_file_name(path: Seq<char>) -> Option<Seq<char>>;

/// What `std::path::Path::parent` yields for the path written as `path`.
pub uninterp spec fn path_parent(path: Seq<char>) -> Option<Seq<char>>;

/// What `std::path::Path::join` yields for `base` extended by `part`.
pub uninterp spec fn path_join(base: Seq<char>, part: Seq<char>) -> Seq<char>;

/// What `str::to_lowercase` yields for `text`.
pub uninterp spec fn lowercase(text: Seq<char>) -> Seq<char>;

/// Calls `std::path::Path::extension`. The contract only names the result:
/// the extension of `path`, if it has one, as `path_extension` of its text.
#[verifier::external_body]
pub(crate) fn extension_of(path: &str) -> (r: Option<String>)
    ensures
        opt_text(r) == path_extension(path@),
{
    match Path::new(path).extension() {
        Some(extension) => Some(extension.to_string_lossy().into_owned()),
        None => None,
    }
}

/// Calls `std::path::Path::file_name`. The contract only names the result:
/// the final component of `path`, if it has one, as `path_file_name` of its
/// text.
#[verifier::external_body]
pub(crate) fn file_name_of(path: &str) -> (r: Option<String>)
    ensures
        opt_text(r) == path_file_name(path@),
{
    match Path::new(path).file_name() {
        Some(name) => Some(name.to_string_lossy().into_owned()),
        None => None,
    }
}

/// Calls `std::path::Path::parent`. The contract only names the result: the
/// path without its final component, if there is one, as `path_parent` of
/// its text.
#[verifier::external_body]
pub(crate) fn parent_of(path: &str) -> (r: Option<String>)
    ensures
        opt_text(r) == path_parent(path@),
{
    match Path::new(path).parent() {
        Some(parent) => Some(parent.to_string_lossy().into_owned()),
        None => None,
    }
}

/// Calls `std::path::Path::join`. The contract only names the result:
/// `base` extended by `part`, as `path_join` of the two texts.
#[verifier::external_body]
pub(crate) fn join(base: &str, part: &str) -> (r: String)
    ensures
        r@ == path_join(base@, part@),
{
    Path::new(base).join(part).to_string_lossy().into_owned()
}

/// Calls `str::to_lowercase`. The contract only names the result: the
/// lowercase form of `text`, as `lowercase` of its characters.
#[verifier::external_body]
pub(crate) fn to_lowercase(text: &str) -> (r: String)
    ensures
        r@ == lowercase(text@),
{
    text.to_lowercase()
}

} // verus!

//! File system paths as texts. The functions here hand the work to
//! `std::path`. What the parts of a path are is named, not restated; what
//! joining does is stated for the Unix paths that the console uses.

use vstd::prelude::*;
use crate::text::option_view;

verus! {

/// The extension of the file name of a path, as `Path::extension` finds
/// it.
pub uninterp spec fn path_extension(path: Seq<char>) -> Option<Seq<char>>;

/// The file name of a path without its extension, as `Path::file_stem`
/// finds it.
pub uninterp spec fn path_file_stem(path: Seq<char>) -> Option<Seq<char>>;

/// The path without its last component, as `Path::parent` finds it.
pub uninterp spec fn path_parent(path: Seq<char>) -> Option<Seq<char>>;

/// A path extended by another. A path that starts at the root replaces
/// the base; any other is appended to it, behind a `/` unless the base is
/// empty or ends in one.
pub open spec fn path_join(base: Seq<char>, more: Seq<char>) -> Seq<char> {
    if more.len() > 0 && more[0] == '/' {
        more
    } else if base.len() == 0 || base.last() == '/' {
        base + more
    } else {
        base + seq!['/'] + more
    }
}

/// Calls `Path::extension`; the result is named [`path_extension`].
#[verifier::external_body]
pub(crate) fn extension(path: &str) -> (r: Option<String>)
    ensures
        option_view(r) == path_extension(path@),
{
    std::path::Path::new(path).extension().and_then(|e| e.to_str()).map(|e| e.to_string())
}

/// Calls `Path::file_stem`; the result is named [`path_file_stem`].
#[verifier::external_body]
pub(crate) fn file_stem(path: &str) -> (r: Option<String>)
    ensures
        option_view(r) == path_file_stem(path@),
{
    std::path::Path::new(path).file_stem().and_then(|e| e.to_str()).map(|e| e.to_string())
}

/// Calls `Path::parent`; the result is named [`path_parent`].
#[verifier::external_body]
pub(crate) fn parent(path: &str) -> (r: Option<String>)
    ensures
        option_view(r) == path_parent(path@),
{
    std::path::Path::new(path).parent().and_then(|e| e.to_str()).map(|e| e.to_string())
}

/// Calls `Path::join`, which on Unix lets an absolute path replace the
/// base and appends any other, with one separator between the two where
/// the base does not end in one.
#[verifier::external_body]
pub(crate) fn join(base: &str, more: &str) -> (r: String)
    ensures
        r@ == path_join(base@, more@),
{
    std::path::Path::new(base).join(more).to_string_lossy().into_owned()
}

} // verus!

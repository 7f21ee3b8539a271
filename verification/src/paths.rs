//! File-system paths, carried as `std::path::PathBuf` and seen through their encoded bytes.
use vstd::prelude::*;
use std::path::PathBuf;

verus! {

/// `std::path::PathBuf`, an owned path.
#[verifier::external_type_specification]
#[verifier::external_body]
pub struct ExPathBuf(std::path::PathBuf);

/// The bytes a path holds, in the platform's encoding (`OsStr::as_encoded_bytes` of
/// `PathBuf::as_os_str`; on Unix the raw bytes of the name).
pub uninterp spec fn path_bytes(path: PathBuf) -> Seq<u8>;

/// The `Debug` rendering of the path with these bytes (quoted, with special characters
/// and invalid UTF-8 escaped).
pub uninterp spec fn path_debug_text(bytes: Seq<u8>) -> Seq<char>;

/// `<PathBuf as Clone>::clone` gives a path that holds the same bytes.
pub assume_specification[ <std::path::PathBuf as Clone>::clone ](path: &PathBuf) -> (copy: PathBuf)
    ensures
        path_bytes(copy) == path_bytes(*path),
;

/// Renders a path with its `Debug` implementation (`<PathBuf as Debug>::fmt`).
///
/// Claims that the text is `path_debug_text` of the path's bytes, a function of them alone.
#[verifier::external_body]
pub(crate) fn path_debug(path: &PathBuf) -> (s: String)
    ensures
        s@ == path_debug_text(path_bytes(*path)),
{
    format!("{:?}", path)
}

/// The length of a path in bytes (`OsStr::len` of `PathBuf::as_os_str`).
///
/// Claims that it is the number of the path's encoded bytes, which `OsStr::len` documents.
#[verifier::external_body]
pub(crate) fn path_len(path: &PathBuf) -> (n: usize)
    ensures
        n == path_bytes(*path).len(),
{
    path.as_os_str().len()
}

} // verus!

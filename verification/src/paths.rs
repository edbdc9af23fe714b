use vstd::prelude::*;

verus! {

#[verifier::external_type_specification]
#[verifier::external_body]
pub struct ExPathBuf(std::path::PathBuf);

/// The path value that wraps a given filename; `PathBuf::from` computes it
/// from the filename's characters alone.
pub uninterp spec fn path_of(filename: Seq<char>) -> std::path::PathBuf;

/// Convert a filename string to a `PathBuf`.
///
/// Relies on `std::path::PathBuf::from`, which wraps the given string as a
/// path value: a pure conversion determined by the filename alone.
#[verifier::external_body]
pub fn path(filename: &str) -> (r: std::path::PathBuf)
    ensures
        r == path_of(filename@),
{
    std::path::PathBuf::from(filename)
}

} // verus!

//! File-system paths as the configuration carries them.
//!
//! A path of the configuration is carried through as it is; nothing in the
//! library looks inside one.

use vstd::prelude::*;

verus! {

#[verifier::external_type_specification]
#[verifier::external_body]
pub struct ExPathBuf(std::path::PathBuf);

/// The path that a text names.
pub uninterp spec fn path_of_text(text: Seq<char>) -> std::path::PathBuf;

/// `PathBuf::clone`: the copy is the path it was made from.
pub assume_specification[ <std::path::PathBuf as std::clone::Clone>::clone ](
    path: &std::path::PathBuf,
) -> (copy: std::path::PathBuf)
    ensures
        copy == *path,
;

/// `PathBuf::from` on a text: the path that the text names.
#[verifier::external_body]
pub(crate) fn path_from_text(text: &str) -> (path: std::path::PathBuf)
    ensures
        path == path_of_text(text@),
{
    std::path::PathBuf::from(text)
}

} // verus!

//! File paths, which pass through this crate unread except for their text.

use vstd::prelude::*;
use std::path::PathBuf;

verus! {

/// `std::path::PathBuf`, whose inside is of no concern here.
#[verifier::external_type_specification]
#[verifier::external_body]
pub struct ExPathBuf(std::path::PathBuf);

/// The text of a path: what `Path::to_str` yields, which is nothing for a
/// path that is not valid Unicode.
pub uninterp spec fn path_text(p: PathBuf) -> Option<Seq<char>>;

/// `PathBuf::clone`: the copy is the same path.
pub assume_specification[ <PathBuf as Clone>::clone ](p: &PathBuf) -> (r: PathBuf)
    ensures
        r == *p,
;

/// `PathBuf::from` on a `String`: the path whose text is the string.
#[verifier::external_body]
pub(crate) fn path_from_string(s: String) -> (p: PathBuf)
    ensures
        path_text(p) == Some(s@),
{
    PathBuf::from(s)
}

/// `Path::to_str`: the text of a path that is valid Unicode.
#[verifier::external_body]
pub(crate) fn path_as_str(p: &PathBuf) -> (r: Option<&str>)
    ensures
        match r {
            Some(s) => path_text(*p) == Some(s@),
            None => path_text(*p) is None,
        },
{
    p.to_str()
}

} // verus!

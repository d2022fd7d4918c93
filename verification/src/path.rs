//! The path of a selected file. It is carried through untouched; all that is
//! read of it is the stem of the file's name.

use std::path::PathBuf;
use vstd::prelude::*;

verus! {

/// `std::path::PathBuf`.
#[verifier::external_type_specification]
#[verifier::external_body]
pub struct ExPathBuf(PathBuf);

/// The stem of the file name of `path`, the name without its last extension,
/// where the path has one and it is Unicode text: what `Path::file_stem` and
/// then `OsStr::to_str` give.
pub uninterp spec fn path_stem(path: PathBuf) -> Option<Seq<char>>;

/// Calls `Path::file_stem` and turns the name it finds into text with
/// `OsStr::to_str`. Claimed of it: the outcome is a function of the path alone.
#[verifier::external_body]
pub(crate) fn file_stem<'a>(path: &'a PathBuf) -> (stem: Option<&'a str>)
    ensures
        stem matches Some(text) ==> path_stem(*path) == Some(text@),
        stem is None ==> path_stem(*path) is None,
{
    path.file_stem().and_then(|name| name.to_str())
}

} // verus!

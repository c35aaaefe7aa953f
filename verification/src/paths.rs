//! Paths, held as text. What the path rules of the platform the library is
//! built for decide is asked of the standard library; the rest is decided
//! here.
use vstd::prelude::*;
use vstd::string::StringExecFns;

use crate::result::Error;

verus! {

/// What `std::path::Path::join` gives for a base path and a path to adjoin.
pub uninterp spec fn joined(base: Seq<char>, child: Seq<char>) -> Seq<char>;

/// What `std::path::Path::file_stem` gives for a path: the last component
/// without its extension, or nothing where the path has no file name.
pub uninterp spec fn file_stem_of(path: Seq<char>) -> Option<Seq<char>>;

/// What `std::path::Path::file_name` gives for a path: the last component,
/// or nothing where the path ends in `..` or is a root.
pub uninterp spec fn file_name_of(path: Seq<char>) -> Option<Seq<char>>;

/// Calls `std::path::Path::join`. Not proved: that the text returned is the
/// one the standard library computes from the two arguments, which
/// [`joined`] names. Both arguments are valid UTF-8, and so is the result.
#[verifier::external_body]
pub(crate) fn join(base: &str, child: &str) -> (r: String)
    ensures
        r@ == joined(base@, child@),
{
    std::path::Path::new(base).join(child).to_string_lossy().into_owned()
}

/// Calls `std::path::Path::file_stem`. Not proved: that the result is the
/// one the standard library computes from the path, which [`file_stem_of`]
/// names.
#[verifier::external_body]
pub(crate) fn file_stem(path: &str) -> (r: Option<String>)
    ensures
        opt_text(r) == file_stem_of(path@),
{
    let stem = std::path::Path::new(path).file_stem()?;
    Some(stem.to_string_lossy().into_owned())
}

/// Calls `std::path::Path::file_name`. Not proved: that the result is the
/// one the standard library computes from the path, which [`file_name_of`]
/// names.
#[verifier::external_body]
pub(crate) fn file_name(path: &str) -> (r: Option<String>)
    ensures
        opt_text(r) == file_name_of(path@),
{
    let name = std::path::Path::new(path).file_name()?;
    Some(name.to_string_lossy().into_owned())
}

/// Whether two string slices hold the same characters.
pub(crate) fn str_eq(a: &str, b: &str) -> (r: bool)
    ensures
        r == (a@ == b@),
{
    String::from_str(a) == String::from_str(b)
}

/// The views of an optional text.
pub open spec fn opt_text(o: Option<String>) -> Option<Seq<char>> {
    match o {
        Some(s) => Some(s@),
        None => None,
    }
}

/// The name for a path whose last component, extension removed, is `stem`.
pub open spec fn name_from_stem(stem: Option<Seq<char>>, path: Seq<char>) -> Result<
    Seq<char>,
    crate::result::ErrorView,
> {
    match stem {
        Some(s) => Ok(s),
        None => Err(crate::result::ErrorView::FailedToGetFileName(path)),
    }
}

/// The views of a text or an error.
pub open spec fn text_result(r: Result<String, Error>) -> Result<
    Seq<char>,
    crate::result::ErrorView,
> {
    match r {
        Ok(s) => Ok(s@),
        Err(e) => Err(e@),
    }
}

/// Turns the stem found for `path` into a name, or into the error that
/// names the path.
pub fn require_stem(stem: Option<String>, path: &str) -> (r: Result<String, Error>)
    ensures
        text_result(r) == name_from_stem(opt_text(stem), path@),
{
    match stem {
        Some(s) => Ok(s),
        None => Err(Error::FailedToGetFileName(String::from_str(path))),
    }
}

/// The file name of `path` without its extension.
pub fn file_name_without_extension(path: &str) -> (r: Result<String, Error>)
    ensures
        text_result(r) == name_from_stem(file_stem_of(path@), path@),
{
    require_stem(file_stem(path), path)
}

} // verus!

//! Probes of the file system and of path syntax.
use vstd::prelude::*;
use crate::shared::text::optional_text;

verus! {

/// The lower-case form of a text, as the standard library computes it.
pub uninterp spec fn lowercase_of(s: Seq<char>) -> Seq<char>;

/// Asks the file system whether `path` names an existing entry
/// (`Path::exists`). The answer depends on the disk, so nothing is
/// claimed of it.
#[verifier::external_body]
pub(crate) fn path_exists(path: &str) -> (r: bool) {
    std::path::Path::new(path).exists()
}

/// The extension of the file name that a path ends in, if it has one,
/// as the standard library tells by the path syntax of the platform that
/// the library is built for. The answer is read off the text alone: no
/// file system is asked.
pub uninterp spec fn extension_of(path: Seq<char>) -> Option<Seq<char>>;

/// The extension of the last component of `path` (`Path::extension`), as
/// text. The syntax differs between platforms and is not spelled out
/// here: the result is named.
#[verifier::external_body]
pub(crate) fn path_extension(path: &str) -> (r: Option<String>)
    ensures
        optional_text(r) == extension_of(path@),
{
    match std::path::Path::new(path).extension() {
        Some(ext) => match ext.to_str() {
            Some(text) => Some(text.to_string()),
            None => None,
        },
        None => None,
    }
}

/// The lower-case form of `s` (`str::to_lowercase`).
#[verifier::external_body]
pub(crate) fn to_lowercase(s: &str) -> (r: String)
    ensures
        r@ == lowercase_of(s@),
{
    s.to_lowercase()
}

/// Whether a path is absolute, as the standard library tells by the
/// path syntax of the platform that the library is built for. The answer
/// is read off the text alone: no file system is asked.
pub uninterp spec fn is_absolute_path(path: Seq<char>) -> bool;

/// The path `relative` taken from the directory `base`, as the standard
/// library joins paths by the path syntax of the platform that the
/// library is built for. The result is made from the two texts alone: no
/// file system is asked.
pub uninterp spec fn joined_path(base: Seq<char>, relative: Seq<char>) -> Seq<char>;

/// Whether `path` is absolute (`Path::is_absolute`). The syntax differs
/// between platforms and is not spelled out here: the answer is named.
#[verifier::external_body]
pub(crate) fn path_is_absolute(path: &str) -> (r: bool)
    ensures
        r == is_absolute_path(path@),
{
    std::path::Path::new(path).is_absolute()
}

/// The path `relative` taken from the directory `base` (`Path::join`),
/// as text. The syntax differs between platforms and is not spelled out
/// here: the result is named.
#[verifier::external_body]
pub(crate) fn path_join(base: &str, relative: &str) -> (r: String)
    ensures
        r@ == joined_path(base@, relative@),
{
    std::path::Path::new(base).join(relative).to_string_lossy().to_string()
}

} // verus!

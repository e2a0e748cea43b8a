//! File-system paths, and the questions asked of the disk about them.

use vstd::prelude::*;

verus! {

/// `std::path::PathBuf`, carried through the library unopened.
#[verifier::external_type_specification]
#[verifier::external_body]
pub struct ExPathBuf(std::path::PathBuf);

/// Calls `std::path::Path::is_dir`: whether the path names an existing directory. The
/// answer depends on the disk at the moment of the call, so nothing is claimed of it.
#[verifier::external_body]
pub fn path_is_dir(path: &std::path::PathBuf) -> (res: bool) {
    path.is_dir()
}

/// Calls `std::path::Path::exists`: whether the path names an existing file or
/// directory. The answer depends on the disk at the moment of the call, so nothing is
/// claimed of it.
#[verifier::external_body]
pub fn path_exists(path: &std::path::PathBuf) -> (res: bool) {
    path.exists()
}

/// The path that `<std::path::PathBuf as From<&str>>::from` makes of the text `text`.
pub uninterp spec fn path_named(text: Seq<char>) -> std::path::PathBuf;

/// Calls `<std::path::PathBuf as From<&str>>::from`: the path spelled `value`. The
/// result depends on `value` alone, and is named `path_named(value@)`; what is inside a
/// `PathBuf` is not visible here.
#[verifier::external_body]
pub fn path_from_str(value: &str) -> (res: std::path::PathBuf)
    ensures
        res == path_named(value@),
{
    std::path::PathBuf::from(value)
}

/// Calls `std::path::Path::display` and renders it as a `String`. A path made from a
/// string holds that string's bytes, which are valid Unicode and are written back
/// unchanged; of a path made otherwise (with bytes that are not Unicode) nothing is
/// claimed, since those bytes are rendered lossily.
#[verifier::external_body]
pub fn path_display(path: &std::path::PathBuf) -> (res: String)
    ensures
        forall|text: Seq<char>| *path == #[trigger] path_named(text) ==> res@ == text,
{
    path.display().to_string()
}

} // verus!

//! Locations that a native dialog hands back, and their resolution to local
//! paths.

use std::path::PathBuf;
use url::Url;
use vstd::prelude::*;

verus! {

/// `url::Url`, carried through as an opaque value.
#[verifier::external_type_specification]
#[verifier::external_body]
pub struct ExUrl(url::Url);

/// `std::path::PathBuf`, carried through as an opaque value.
#[verifier::external_type_specification]
#[verifier::external_body]
pub struct ExPathBuf(std::path::PathBuf);

/// `Url::to_file_path` of the `url` crate: the local path that a URL's path
/// component names, or an error where it names none. Nothing is claimed of
/// the result: which URLs convert, and to what, depends on the platform.
pub assume_specification[ url::Url::to_file_path ](url: &url::Url) -> (converted: Result<
    std::path::PathBuf,
    (),
>)
;

/// The text of a path, with every part that is not valid Unicode replaced by
/// U+FFFD: what `Path::to_string_lossy` returns for it.
pub uninterp spec fn lossy_text(path: PathBuf) -> Seq<char>;

/// `Path::to_string_lossy` of std, made into an owned `String`. The contract
/// only gives the result its name: that it is a function of the path alone
/// is all that is claimed.
#[verifier::external_body]
pub(crate) fn path_text(path: &PathBuf) -> (text: String)
    ensures
        text@ == lossy_text(*path),
{
    path.to_string_lossy().to_string()
}

/// What the user chose in a dialog: a file system path, or a URI that points
/// to a file (a `file://` URI, or a content URI on a mobile platform).
#[derive(Debug)]
pub enum FilePath {
    Url(Url),
    Path(PathBuf),
}

impl FilePath {
    /// The local path of this location, if it has one. A path is its own
    /// local path; whether a URI has one, and which, is for
    /// `Url::to_file_path` to say.
    pub fn into_path(self) -> (resolved: Option<PathBuf>)
        ensures
            self matches FilePath::Path(path) ==> resolved == Some(path),
    {
        match self {
            FilePath::Path(path) => Some(path),
            FilePath::Url(url) => match url.to_file_path() {
                Ok(path) => Some(path),
                Err(_) => None,
            },
        }
    }
}

} // verus!

//! Resolving the output file name from the download URL when the caller
//! hands the engine a directory instead of a file path.

use vstd::prelude::*;

verus! {

use crate::error::DownloadError;
use crate::pathutil::last_segment;
use crate::pathutil::spec_last_segment;

/// The hierarchical path component of the URL string `s`: `Some` exactly
/// when `s` parses as a URL that has `/`-separated path segments, and then
/// the percent-encoded path, which starts with `/`.
pub uninterp spec fn url_path_of(s: Seq<char>) -> Option<Seq<char>>;

/// Relies on `url::Url::parse` and `url::Url::path_segments`: a URL string
/// either fails to parse, or is cannot-be-a-base (no `/`-separated
/// segments), or has a path that starts with a `/` slash.  Which of the
/// three holds, and the path itself, depend on the URL string alone.
#[verifier::external_body]
fn url_file_path(s: &str) -> (r: Option<String>)
    ensures
        r is Some <==> url_path_of(s@) is Some,
        r matches Some(p) ==> url_path_of(s@) == Some(p@) && p@.len() >= 1 && p@[0] == '/',
{
    match url::Url::parse(s) {
        Ok(u) => {
            if u.path_segments().is_some() {
                Some(u.path().to_string())
            } else {
                None
            }
        },
        Err(_) => None,
    }
}

/// Resolves where the downloaded file is saved.  A path that is not a
/// directory is used as given.  For a directory, the file name is derived
/// from the last path segment of the URL and appended; a URL without a
/// usable (non-empty) final segment fails with `NotFileName`.
pub fn resolve_save_path(save_path: &str, save_path_is_dir: bool, url: &str) -> (r: Result<
    String,
    DownloadError,
>)
    ensures
        match r {
            Ok(path) => {
                if save_path_is_dir {
                    &&& url_path_of(url@) matches Some(p)
                    &&& spec_last_segment(url_path_of(url@).unwrap()).len() >= 1
                    &&& path@ == save_path@ + "/"@ + spec_last_segment(url_path_of(url@).unwrap())
                } else {
                    path@ == save_path@
                }
            },
            Err(e) => {
                &&& save_path_is_dir
                &&& (e matches DownloadError::NotFileName { url: u } && u@ == url@)
                &&& (url_path_of(url@) is None || spec_last_segment(
                    url_path_of(url@).unwrap(),
                ).len() == 0)
            },
        },
{
    if !save_path_is_dir {
        return Ok(String::from_str(save_path));
    }
    match url_file_path(url) {
        None => Err(DownloadError::NotFileName { url: String::from_str(url) }),
        Some(p) => {
            let seg = last_segment(p.as_str());
            if seg.unicode_len() == 0 {
                Err(DownloadError::NotFileName { url: String::from_str(url) })
            } else {
                Ok(String::from_str(save_path).concat("/").concat(seg))
            }
        },
    }
}

} // verus!

use vstd::prelude::*;
use vstd::string::StrSliceExecFns;

use crate::errors::FetchError;
use crate::text::split_at_char;
use crate::text::str_split;

verus! {

/// The path component of `url` as hyper's URI parser reads it, or `None`
/// when `url` does not parse as a URI at all.
pub uninterp spec fn url_path_of(url: Seq<char>) -> Option<Seq<char>>;

/// Relies on hyper's `Uri` (`str::parse::<hyper::Uri>` and `Uri::path`):
/// whether a string parses, and the path component it carries, depend on the
/// string alone.
#[verifier::external_body]
fn parse_url_path(url: &str) -> (r: Option<String>)
    ensures
        r.deep_view() == url_path_of(url@),
{
    match url.parse::<hyper::Uri>() {
        Ok(u) => Some(u.path().to_string()),
        Err(_) => None,
    }
}

/// The local filename for a URL path: its final slash-separated segment, or
/// `None` when that segment is empty (a path without segments, or one ending
/// in `/`, gives no usable filename).
pub open spec fn filename_of_path(path: Seq<char>) -> Option<Seq<char>> {
    let segs = split_at_char(path, '/');
    if segs.last().len() == 0 {
        None
    } else {
        Some(segs.last())
    }
}

/// The local filename a URL's content is cached under, or `None` when the
/// URL does not parse or its path carries no usable final segment.
pub open spec fn filename_of_url(url: Seq<char>) -> Option<Seq<char>> {
    match url_path_of(url) {
        Some(p) => filename_of_path(p),
        None => None,
    }
}

/// Extracts the final slash-separated segment of a URL path; an empty final
/// segment is rejected with `PathParsing`, never defaulted.
pub fn filename_from_path(path: &str) -> (r: Result<String, FetchError>)
    ensures
        match r {
            Ok(f) => filename_of_path(path@) == Some(f@),
            Err(e) => e == FetchError::PathParsing && filename_of_path(path@) is None,
        },
{
    let segs = str_split(path, '/');
    let last = &segs[segs.len() - 1];
    proof {
        assert(segs.deep_view()[segs@.len() - 1] == last@);
    }
    if last.as_str().unicode_len() == 0 {
        Err(FetchError::PathParsing)
    } else {
        Ok(last.clone())
    }
}

/// Derives the local filename for a download URL: the final segment of the
/// URL's path. Fails with `PathParsing` exactly when the URL does not parse
/// or its path has no non-empty final segment.
pub fn filename_for_url(url: &str) -> (r: Result<String, FetchError>)
    ensures
        match r {
            Ok(f) => filename_of_url(url@) == Some(f@),
            Err(e) => e == FetchError::PathParsing && filename_of_url(url@) is None,
        },
{
    match parse_url_path(url) {
        Some(p) => filename_from_path(p.as_str()),
        None => Err(FetchError::PathParsing),
    }
}

/// The fetch step's one decision: a network transfer happens only when the
/// URL's cache file is absent. A file left by an earlier fetch of the same
/// URL sits at the same derived path — `filename_of_url` is a function of the
/// URL — so a repeated fetch finds it, transfers nothing, and returns the
/// same path.
pub fn transfer_needed(cache_file_exists: bool) -> (r: bool)
    ensures
        r == !cache_file_exists,
{
    !cache_file_exists
}

} // verus!

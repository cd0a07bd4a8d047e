use vstd::prelude::*;

use crate::error::ApiError;
use crate::lines::{lines, lines_of, string_views};
use crate::transport::{decode_utf8, http_get, utf8_text};

verus! {

/// The address of the resource that `tail` names for the distribution
/// `dist`; both are put in as they are, without escaping.
pub open spec fn url_of(dist: Seq<char>, tail: Seq<char>) -> Seq<char> {
    "https://semver.io/"@ + dist + tail
}

/// Where the service lists the versions of `dist`.
pub open spec fn versions_url_of(dist: Seq<char>) -> Seq<char> {
    url_of(dist, "/versions"@)
}

/// Where the service gives the latest stable version of `dist`.
pub open spec fn stable_url_of(dist: Seq<char>) -> Seq<char> {
    url_of(dist, "/stable"@)
}

/// Where the service gives the latest unstable version of `dist`.
pub open spec fn unstable_url_of(dist: Seq<char>) -> Seq<char> {
    url_of(dist, "/unstable"@)
}

/// Where the service resolves the constraint `version` against `dist`.
pub open spec fn resolve_url_of(dist: Seq<char>, version: Seq<char>) -> Seq<char> {
    url_of(dist, "/resolve/"@ + version)
}

/// What a transfer handed back: the body's bytes, or `None` where the
/// exchange failed.
pub open spec fn fetched_view(fetched: Result<Vec<u8>, curl::Error>) -> Option<Seq<u8>> {
    match fetched {
        Ok(bytes) => Some(bytes@),
        Err(_) => None,
    }
}

/// The outcome of an operation that returns the body as it is, given what
/// the transfer handed back.
pub open spec fn text_result(fetched: Option<Seq<u8>>) -> Result<Seq<char>, ApiError> {
    match fetched {
        None => Err(ApiError::RequestFailure),
        Some(bytes) => match utf8_text(bytes) {
            Some(text) => Ok(text),
            None => Err(ApiError::InvalidResponse),
        },
    }
}

/// The outcome of an operation that returns the lines of the body, given
/// what the transfer handed back.
pub open spec fn lines_result(fetched: Option<Seq<u8>>) -> Result<Seq<Seq<char>>, ApiError> {
    match text_result(fetched) {
        Ok(text) => Ok(lines_of(text)),
        Err(e) => Err(e),
    }
}

/// The view of a result that holds a string.
pub open spec fn text_view(r: Result<String, ApiError>) -> Result<Seq<char>, ApiError> {
    match r {
        Ok(s) => Ok(s@),
        Err(e) => Err(e),
    }
}

/// The view of a result that holds a list of strings.
pub open spec fn lines_view(r: Result<Vec<String>, ApiError>) -> Result<Seq<Seq<char>>, ApiError> {
    match r {
        Ok(v) => Ok(string_views(v@)),
        Err(e) => Err(e),
    }
}

fn service_url(dist: &str, tail: &str) -> (r: String)
    ensures
        r@ == url_of(dist@, tail@),
{
    let mut url = String::from_str("https://semver.io/");
    url.append(dist);
    url.append(tail);
    url
}

/// The address of the list of versions of `dist`.
pub fn versions_url(dist: &str) -> (r: String)
    ensures
        r@ == versions_url_of(dist@),
{
    service_url(dist, "/versions")
}

/// The address of the latest stable version of `dist`.
pub fn stable_url(dist: &str) -> (r: String)
    ensures
        r@ == stable_url_of(dist@),
{
    service_url(dist, "/stable")
}

/// The address of the latest unstable version of `dist`.
pub fn unstable_url(dist: &str) -> (r: String)
    ensures
        r@ == unstable_url_of(dist@),
{
    service_url(dist, "/unstable")
}

/// The address at which the service resolves `version` against `dist`.
pub fn resolve_url(dist: &str, version: &str) -> (r: String)
    ensures
        r@ == resolve_url_of(dist@, version@),
{
    let mut tail = String::from_str("/resolve/");
    tail.append(version);
    service_url(dist, tail.as_str())
}

/// Turns what a transfer handed back into the body's text: a failed
/// transfer is a `RequestFailure`, a body that is not UTF-8 an
/// `InvalidResponse`; otherwise the text comes back exactly as received.
pub fn body_text(fetched: Result<Vec<u8>, curl::Error>) -> (r: Result<String, ApiError>)
    ensures
        text_view(r) == text_result(fetched_view(fetched)),
{
    match fetched {
        Err(_) => Err(ApiError::RequestFailure),
        Ok(bytes) => match decode_utf8(bytes) {
            Some(text) => Ok(text),
            None => Err(ApiError::InvalidResponse),
        },
    }
}

/// As [`body_text`], then splits the text into its lines.
pub fn body_lines(fetched: Result<Vec<u8>, curl::Error>) -> (r: Result<Vec<String>, ApiError>)
    ensures
        lines_view(r) == lines_result(fetched_view(fetched)),
{
    match body_text(fetched) {
        Ok(text) => Ok(lines(text.as_str())),
        Err(e) => Err(e),
    }
}

/// One GET of `url`, its body decoded as UTF-8 text.
fn get(url: &str) -> (r: Result<String, ApiError>)
    ensures
        exists|fetched: Option<Seq<u8>>| text_view(r) == text_result(fetched),
{
    let fetched = http_get(url);
    body_text(fetched)
}

/// The versions of `dist` that the service knows, one per line of its
/// answer, in the order it gave them.
pub fn versions(dist: String) -> (r: Result<Vec<String>, ApiError>)
    ensures
        exists|fetched: Option<Seq<u8>>| lines_view(r) == lines_result(fetched),
{
    let url = versions_url(dist.as_str());
    let fetched = http_get(url.as_str());
    body_lines(fetched)
}

/// The latest stable version of `dist`, as the service wrote it.
pub fn stable(dist: String) -> (r: Result<String, ApiError>)
    ensures
        exists|fetched: Option<Seq<u8>>| text_view(r) == text_result(fetched),
{
    let url = stable_url(dist.as_str());
    get(url.as_str())
}

/// The latest unstable version of `dist`, as the service wrote it.
pub fn unstable(dist: String) -> (r: Result<String, ApiError>)
    ensures
        exists|fetched: Option<Seq<u8>>| text_view(r) == text_result(fetched),
{
    let url = unstable_url(dist.as_str());
    get(url.as_str())
}

/// The version of `dist` that the constraint `version` resolves to, as the
/// service wrote it.
pub fn resolve(dist: String, version: String) -> (r: Result<String, ApiError>)
    ensures
        exists|fetched: Option<Seq<u8>>| text_view(r) == text_result(fetched),
{
    let url = resolve_url(dist.as_str(), version.as_str());
    get(url.as_str())
}

/// When the transfer fails, for whatever reason, every operation fails with
/// `RequestFailure`, never with `InvalidResponse`.
pub proof fn transfer_failure_is_request_failure(fetched: Result<Vec<u8>, curl::Error>)
    requires
        fetched is Err,
    ensures
        text_result(fetched_view(fetched)) == Err::<Seq<char>, ApiError>(
            ApiError::RequestFailure,
        ),
        lines_result(fetched_view(fetched)) == Err::<Seq<Seq<char>>, ApiError>(
            ApiError::RequestFailure,
        ),
{
}

/// When the transfer completes with a body that is not UTF-8, every
/// operation fails with `InvalidResponse`.
pub proof fn undecodable_body_is_invalid_response(bytes: Seq<u8>)
    requires
        utf8_text(bytes) is None,
    ensures
        text_result(Some(bytes)) == Err::<Seq<char>, ApiError>(ApiError::InvalidResponse),
        lines_result(Some(bytes)) == Err::<Seq<Seq<char>>, ApiError>(ApiError::InvalidResponse),
{
}

/// The outcome of an operation depends only on what the service answered:
/// asked twice of a service that answers the same, an operation gives the
/// same result both times.
pub proof fn same_answer_same_result(
    first: Result<Vec<u8>, curl::Error>,
    second: Result<Vec<u8>, curl::Error>,
)
    requires
        fetched_view(first) == fetched_view(second),
    ensures
        text_result(fetched_view(first)) == text_result(fetched_view(second)),
        lines_result(fetched_view(first)) == lines_result(fetched_view(second)),
{
}

} // verus!

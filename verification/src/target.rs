//! The URL a request fetches.

use vstd::prelude::*;
use crate::types::{CrawlError, CrawlErrorView, CrawlRequest};

verus! {

#[verifier::external_type_specification]
#[verifier::external_body]
pub struct ExUrl(url::Url);

/// What `url::Url::parse` makes of a text: the serialization of the parsed
/// URL, or the message of the parse error.
pub uninterp spec fn url_parse_result(text: Seq<char>) -> Result<Seq<char>, Seq<char>>;

/// The serialization of a parsed URL (`Url::as_str`, which `to_string` yields).
pub uninterp spec fn url_text(url: url::Url) -> Seq<char>;

/// Calls `url::Url::parse`. Claims that the outcome is the one named by
/// `url_parse_result` for the text: a URL serialized as named, or an error
/// whose message (its `Display`) is as named.
#[verifier::external_body]
fn parse_url(text: &str) -> (r: Result<url::Url, String>)
    ensures
        match (r, url_parse_result(text@)) {
            (Ok(u), Ok(t)) => url_text(u) == t,
            (Err(m), Err(t)) => m@ == t,
            _ => false,
        },
{
    match url::Url::parse(text) {
        Ok(u) => Ok(u),
        Err(e) => Err(e.to_string()),
    }
}

/// Calls `Url::to_string`, which writes the URL's serialization.
#[verifier::external_body]
pub(crate) fn url_string(url: &url::Url) -> (r: String)
    ensures
        r@ == url_text(*url),
{
    url.to_string()
}

/// The error for a request URL that the SSRF policy refuses, with the
/// policy's reason.
pub open spec fn ssrf_outcome(url: Seq<char>, reason: Seq<char>) -> CrawlErrorView {
    CrawlErrorView::SsrfPolicyViolation { url, reason }
}

/// Builds the error for a request URL that the SSRF policy refuses.
pub fn ssrf_violation(url: &str, reason: String) -> (r: CrawlError)
    ensures
        r@ == ssrf_outcome(url@, reason@),
{
    CrawlError::SsrfPolicyViolation { url: url.to_owned(), reason }
}

/// The error for a request URL that does not parse.
pub open spec fn invalid_url_outcome(url: Seq<char>, message: Seq<char>) -> CrawlErrorView {
    CrawlErrorView::SsrfPolicyViolation { url, reason: "invalid URL: "@ + message }
}

/// Builds the error for a request URL that does not parse, from the parser's
/// message.
pub fn invalid_url_error(url: &str, message: &str) -> (r: CrawlError)
    ensures
        r@ == invalid_url_outcome(url@, message@),
{
    let mut reason = "invalid URL: ".to_owned();
    reason.append(message);
    CrawlError::SsrfPolicyViolation { url: url.to_owned(), reason }
}

/// Parses the URL of a request; a URL that does not parse is refused as a
/// policy violation.
pub fn parse_target(req: &CrawlRequest) -> (r: Result<url::Url, CrawlError>)
    ensures
        match (r, url_parse_result(req.url@)) {
            (Ok(u), Ok(t)) => url_text(u) == t,
            (Err(e), Err(m)) => e@ == invalid_url_outcome(req.url@, m),
            _ => false,
        },
{
    match parse_url(req.url.as_str()) {
        Ok(u) => Ok(u),
        Err(m) => Err(invalid_url_error(req.url.as_str(), m.as_str())),
    }
}

} // verus!

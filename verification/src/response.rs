//! Decisions taken on a fetched response: how its status is treated, how its
//! headers are recorded, and whether its body is complete and unblocked.

use vstd::prelude::*;
use vstd::utf8::{decode_utf8, encode_utf8, valid_utf8};
use crate::response_headers::{first_value, grouped_append, lemma_append_then_values, names_unique, values_of, GroupedEntries, ResponseHeaders};
use crate::text::{ascii_lower, contains_text, decimal_text, parse_usize_text, parse_usize, push_decimal, str_contains, to_ascii_lower};
use crate::types::{CrawlError, CrawlErrorView, CrawlResponse};

verus! {

/// What the fetch does once the response status is known.
#[derive(Debug, Clone, PartialEq, Eq)]
pub enum StatusAction {
    /// A redirect: return the response as it is, redirects are the caller's.
    PassThrough,
    /// Fail with this error.
    Fail(CrawlError),
    /// A 403: read the body and ask whether a WAF blocked the request.
    InspectForbidden,
    /// Read the body and check it.
    ReadBody,
}

/// [`StatusAction`] as plain values.
pub enum StatusActionView {
    PassThrough,
    Fail(CrawlErrorView),
    InspectForbidden,
    ReadBody,
}

impl View for StatusAction {
    type V = StatusActionView;

    open spec fn view(&self) -> StatusActionView {
        match self {
            StatusAction::PassThrough => StatusActionView::PassThrough,
            StatusAction::Fail(e) => StatusActionView::Fail(e@),
            StatusAction::InspectForbidden => StatusActionView::InspectForbidden,
            StatusAction::ReadBody => StatusActionView::ReadBody,
        }
    }
}

/// How a status is treated: 3xx pass through; 401, 404, 408, 410, 429, 500,
/// 502 and 503 fail; 403 is inspected for a WAF block; all else is read.
pub open spec fn status_action(status: u16, url: Seq<char>) -> StatusActionView {
    if 300 <= status < 400 {
        StatusActionView::PassThrough
    } else if status == 401 {
        StatusActionView::Fail(CrawlErrorView::Unauthorized("unauthorized"@))
    } else if status == 403 {
        StatusActionView::InspectForbidden
    } else if status == 404 {
        StatusActionView::Fail(CrawlErrorView::NotFound("not_found: "@ + url))
    } else if status == 408 {
        StatusActionView::Fail(CrawlErrorView::Timeout("timeout"@))
    } else if status == 410 {
        StatusActionView::Fail(CrawlErrorView::Gone("gone"@))
    } else if status == 429 {
        StatusActionView::Fail(CrawlErrorView::RateLimited("rate_limited"@))
    } else if status == 500 {
        StatusActionView::Fail(CrawlErrorView::ServerError("server_error"@))
    } else if status == 502 {
        StatusActionView::Fail(CrawlErrorView::BadGateway("bad_gateway"@))
    } else if status == 503 {
        StatusActionView::Fail(CrawlErrorView::ServerError("service unavailable"@))
    } else {
        StatusActionView::ReadBody
    }
}

/// Redirects are handed back as they are: redirect handling stays with the
/// caller.
pub proof fn lemma_redirects_pass_through(status: u16, url: Seq<char>)
    requires
        300 <= status < 400,
    ensures
        status_action(status, url) == StatusActionView::PassThrough,
{
}

/// A response is read exactly when its status is neither a redirect (3xx)
/// nor one of the statuses handled up front: 401, 403, 404, 408, 410, 429,
/// 500, 502 and 503. Every other status, 2xx, other 4xx and other 5xx alike,
/// reaches the body checks.
pub proof fn lemma_other_statuses_are_read(status: u16, url: Seq<char>)
    ensures
        status_action(status, url) is ReadBody <==> !(300 <= status < 400) && status != 401 && status != 403
            && status != 404 && status != 408 && status != 410 && status != 429 && status != 500
            && status != 502 && status != 503,
{
}

/// Concatenation of two strings into a new `String`.
fn concat(a: &str, b: &str) -> (r: String)
    ensures
        r@ == a@ + b@,
{
    let mut r = a.to_owned();
    r.append(b);
    r
}

/// How the fetch proceeds for a response with `status` to a request for `url`.
pub fn classify_status(status: u16, url: &str) -> (r: StatusAction)
    ensures
        r@ == status_action(status, url@),
{
    if 300 <= status && status < 400 {
        StatusAction::PassThrough
    } else if status == 401 {
        StatusAction::Fail(CrawlError::Unauthorized("unauthorized".to_owned()))
    } else if status == 403 {
        StatusAction::InspectForbidden
    } else if status == 404 {
        StatusAction::Fail(CrawlError::NotFound(concat("not_found: ", url)))
    } else if status == 408 {
        StatusAction::Fail(CrawlError::Timeout("timeout".to_owned()))
    } else if status == 410 {
        StatusAction::Fail(CrawlError::Gone("gone".to_owned()))
    } else if status == 429 {
        StatusAction::Fail(CrawlError::RateLimited("rate_limited".to_owned()))
    } else if status == 500 {
        StatusAction::Fail(CrawlError::ServerError("server_error".to_owned()))
    } else if status == 502 {
        StatusAction::Fail(CrawlError::BadGateway("bad_gateway".to_owned()))
    } else if status == 503 {
        StatusAction::Fail(CrawlError::ServerError("service unavailable".to_owned()))
    } else {
        StatusAction::ReadBody
    }
}


/// Raw response headers as plain values: each name with its value when the
/// value is text (`None` for a value that is not visible ASCII).
pub type RawHeaders = Seq<(Seq<char>, Option<Seq<char>>)>;

/// The plain value of raw response headers.
pub open spec fn raw_view(pairs: Seq<(String, Option<String>)>) -> RawHeaders {
    pairs.map_values(|p: (String, Option<String>)| (p.0@, match p.1 {
        Some(v) => Some(v@),
        None => None,
    }))
}

/// The response headers grouped by lower-cased name, values in arrival
/// order; values that are not text are left out.
pub open spec fn grouped_headers(pairs: RawHeaders) -> GroupedEntries
    decreases pairs.len(),
{
    if pairs.len() == 0 {
        Seq::empty()
    } else {
        let prev = grouped_headers(pairs.drop_last());
        match pairs.last().1 {
            Some(v) => grouped_append(prev, ascii_lower(pairs.last().0), v),
            None => prev,
        }
    }
}

/// The text values of the raw headers whose lower-cased name is `name`, in
/// arrival order.
pub open spec fn text_values_named(pairs: RawHeaders, name: Seq<char>) -> Seq<Seq<char>>
    decreases pairs.len(),
{
    if pairs.len() == 0 {
        Seq::empty()
    } else {
        let prev = text_values_named(pairs.drop_last(), name);
        if ascii_lower(pairs.last().0) == name && pairs.last().1 is Some {
            prev.push(pairs.last().1->0)
        } else {
            prev
        }
    }
}

/// Recorded response headers hold, under each lower-cased name, exactly the
/// text values that arrived under a name lower-casing to it, in arrival
/// order; a name with no text value is absent; no name is recorded twice.
pub proof fn lemma_recorded_headers_group_by_lowered_name(pairs: RawHeaders, name: Seq<char>)
    ensures
        names_unique(grouped_headers(pairs)),
        values_of(grouped_headers(pairs), name) == (if text_values_named(pairs, name).len() > 0 {
            Some(text_values_named(pairs, name))
        } else {
            None
        }),
    decreases pairs.len(),
{
    if pairs.len() > 0 {
        let prev_pairs = pairs.drop_last();
        lemma_recorded_headers_group_by_lowered_name(prev_pairs, name);
        let prev = grouped_headers(prev_pairs);
        if let Some(v) = pairs.last().1 {
            let k = ascii_lower(pairs.last().0);
            if k == name {
                assert(k.push(' ').len() != k.len());
                lemma_append_then_values(prev, k, v, k.push(' '));
                let t = text_values_named(prev_pairs, name);
                if t.len() == 0 {
                    assert(seq![v] =~= t.push(v));
                }
            } else {
                lemma_append_then_values(prev, k, v, name);
            }
        }
    }
}

/// Groups raw response headers by lower-cased name.
pub fn collect_headers(pairs: &Vec<(String, Option<String>)>) -> (r: ResponseHeaders)
    ensures
        r@ == grouped_headers(raw_view(pairs@)),
{
    let mut h = ResponseHeaders::new();
    let mut i: usize = 0;
    while i < pairs.len()
        invariant
            i <= pairs@.len(),
            h@ == grouped_headers(raw_view(pairs@.take(i as int))),
        decreases pairs@.len() - i,
    {
        assert(raw_view(pairs@.take(i + 1)).drop_last() =~= raw_view(pairs@.take(i as int)));
        match &pairs[i].1 {
            Some(v) => {
                let name = to_ascii_lower(pairs[i].0.as_str());
                h.append(name, v.clone());
            },
            None => {},
        }
        i = i + 1;
    }
    assert(pairs@.take(pairs@.len() as int) =~= pairs@);
    h
}

/// The last value carried under the lower-cased name `name`: `None` when the
/// name does not occur, `Some(None)` when its last value is not text.
pub open spec fn last_raw_value(pairs: RawHeaders, name: Seq<char>) -> Option<Option<Seq<char>>>
    decreases pairs.len(),
{
    if pairs.len() == 0 {
        None
    } else if ascii_lower(pairs.last().0) == name {
        Some(pairs.last().1)
    } else {
        last_raw_value(pairs.drop_last(), name)
    }
}

/// The response content type: the last `content-type` value if it is text,
/// else empty.
pub open spec fn content_type_of(pairs: RawHeaders) -> Seq<char> {
    match last_raw_value(pairs, "content-type"@) {
        Some(Some(v)) => v,
        _ => Seq::empty(),
    }
}

/// The content type of a response, from its raw headers.
pub fn content_type(pairs: &Vec<(String, Option<String>)>) -> (r: String)
    ensures
        r@ == content_type_of(raw_view(pairs@)),
{
    let name = "content-type".to_owned();
    let mut i: usize = pairs.len();
    assert(pairs@.take(i as int) =~= pairs@);
    while i > 0
        invariant
            i <= pairs@.len(),
            name@ == "content-type"@,
            last_raw_value(raw_view(pairs@), name@) == last_raw_value(raw_view(pairs@.take(i as int)), name@),
        decreases i,
    {
        let lowered = to_ascii_lower(pairs[i - 1].0.as_str());
        assert(raw_view(pairs@.take(i as int)).drop_last() =~= raw_view(pairs@.take(i - 1)));
        if lowered == name {
            return match &pairs[i - 1].1 {
                Some(v) => v.clone(),
                None => String::new(),
            };
        }
        i = i - 1;
    }
    assert(raw_view(pairs@.take(0)) =~= Seq::<(Seq<char>, Option<Seq<char>>)>::empty());
    String::new()
}

/// `last_raw_value` finds the last pair whose lower-cased name is `name`,
/// wherever it stands.
proof fn lemma_last_raw_value_at(pairs: RawHeaders, name: Seq<char>, k: int)
    requires
        0 <= k < pairs.len(),
        ascii_lower(pairs[k].0) == name,
        forall|m: int| k < m < pairs.len() ==> ascii_lower(#[trigger] pairs[m].0) != name,
    ensures
        last_raw_value(pairs, name) == Some(pairs[k].1),
    decreases pairs.len(),
{
    if k < pairs.len() - 1 {
        let prev = pairs.drop_last();
        assert(ascii_lower(pairs[pairs.len() - 1].0) != name);
        assert forall|m: int| k < m < prev.len() implies ascii_lower(#[trigger] prev[m].0) != name by {
            assert(prev[m] == pairs[m]);
        }
        assert(prev[k] == pairs[k]);
        lemma_last_raw_value_at(prev, name, k);
    }
}

/// `last_raw_value` is `None` when no pair carries `name`.
proof fn lemma_last_raw_value_absent(pairs: RawHeaders, name: Seq<char>)
    requires
        forall|m: int| 0 <= m < pairs.len() ==> ascii_lower(#[trigger] pairs[m].0) != name,
    ensures
        last_raw_value(pairs, name) is None,
    decreases pairs.len(),
{
    if pairs.len() > 0 {
        let prev = pairs.drop_last();
        assert(ascii_lower(pairs[pairs.len() - 1].0) != name);
        assert forall|m: int| 0 <= m < prev.len() implies ascii_lower(#[trigger] prev[m].0) != name by {
            assert(prev[m] == pairs[m]);
        }
        lemma_last_raw_value_absent(prev, name);
    }
}

/// The content type is the value of the last header named `content-type`
/// (compared after ASCII lower-casing), whatever headers of other names
/// follow it; empty when that value is not text.
pub proof fn lemma_content_type_is_last_content_type_header(pairs: RawHeaders, k: int)
    requires
        0 <= k < pairs.len(),
        ascii_lower(pairs[k].0) == "content-type"@,
        forall|m: int| k < m < pairs.len() ==> ascii_lower(#[trigger] pairs[m].0) != "content-type"@,
    ensures
        content_type_of(pairs) == match pairs[k].1 {
            Some(v) => v,
            None => Seq::<char>::empty(),
        },
{
    lemma_last_raw_value_at(pairs, "content-type"@, k);
}

/// Without a `content-type` header the content type is empty.
pub proof fn lemma_no_content_type_header_is_empty(pairs: RawHeaders)
    requires
        forall|m: int| 0 <= m < pairs.len() ==> ascii_lower(#[trigger] pairs[m].0) != "content-type"@,
    ensures
        content_type_of(pairs) == Seq::<char>::empty(),
{
    lemma_last_raw_value_absent(pairs, "content-type"@);
}

/// The lower-cased first `server` header, or empty.
pub open spec fn server_of(headers: GroupedEntries) -> Seq<char> {
    match first_value(headers, "server"@) {
        Some(v) => ascii_lower(v),
        None => Seq::empty(),
    }
}

/// The server software named by a response, lower-cased.
pub fn server_name(headers: &ResponseHeaders) -> (r: String)
    ensures
        r@ == server_of(headers@),
{
    match headers.first("server") {
        Some(v) => to_ascii_lower(v.as_str()),
        None => String::new(),
    }
}

/// The error for a 403 response: a WAF block when the detector named a
/// vendor, a plain refusal otherwise.
pub open spec fn forbidden_outcome(waf_vendor: Option<Seq<char>>) -> CrawlErrorView {
    match waf_vendor {
        Some(v) => CrawlErrorView::WafBlocked { message: "waf/blocked detected: "@ + v, vendor: v },
        None => CrawlErrorView::Forbidden("forbidden"@),
    }
}

/// Builds the error for a 403 response given the WAF detector's verdict.
pub fn forbidden_error(waf_vendor: Option<String>) -> (r: CrawlError)
    ensures
        r@ == forbidden_outcome(match waf_vendor {
            Some(v) => Some(v@),
            None => None,
        }),
{
    match waf_vendor {
        Some(v) => CrawlError::WafBlocked { message: concat("waf/blocked detected: ", v.as_str()), vendor: v },
        None => CrawlError::Forbidden("forbidden".to_owned()),
    }
}

/// Phrases in an error chain that reveal a truncated or undecodable body.
pub open spec fn body_error_markers() -> Seq<Seq<char>> {
    seq![
        "content-length"@,
        "truncate"@,
        "incomplete"@,
        "end of file"@,
        "body error"@,
        "body from connection"@,
        "decoding response body"@,
        "error decoding"@,
    ]
}

/// A failed body read lost data: the error chain mentions one of the markers,
/// or the transport flags it as a body error.
pub open spec fn is_body_error(chain: Seq<char>, flagged_body: bool) -> bool {
    flagged_body || exists|i: int|
        0 <= i < body_error_markers().len() && contains_text(chain, #[trigger] body_error_markers()[i])
}

/// Whether a failed body read lost data.
pub fn body_error_detected(chain: &str, flagged_body: bool) -> (r: bool)
    ensures
        r == is_body_error(chain@, flagged_body),
{
    if flagged_body {
        return true;
    }
    let markers: [&str; 8] = [
        "content-length",
        "truncate",
        "incomplete",
        "end of file",
        "body error",
        "body from connection",
        "decoding response body",
        "error decoding",
    ];
    assert(markers@.map_values(|m: &str| m@) =~= body_error_markers());
    let mut i: usize = 0;
    while i < 8
        invariant
            i <= 8,
            markers@.map_values(|m: &str| m@) == body_error_markers(),
            forall|k: int| 0 <= k < i ==> !contains_text(chain@, #[trigger] body_error_markers()[k]),
        decreases 8 - i,
    {
        assert(markers@[i as int]@ == body_error_markers()[i as int]);
        if str_contains(chain, markers[i]) {
            return true;
        }
        i = i + 1;
    }
    false
}

/// The error for a failed body read: data loss when the body error was
/// detected, else the transport's own classification.
pub open spec fn body_read_outcome(
    chain: Seq<char>,
    flagged_body: bool,
    message: Seq<char>,
    fallback: CrawlErrorView,
) -> CrawlErrorView {
    if is_body_error(chain, flagged_body) {
        CrawlErrorView::DataLoss("data_loss: "@ + message)
    } else {
        fallback
    }
}

/// Builds the error for a failed body read from the error's chain of causes,
/// its body flag, its message, and the transport classification.
pub fn body_read_error(chain: &str, flagged_body: bool, message: &str, fallback: CrawlError) -> (r: CrawlError)
    ensures
        r@ == body_read_outcome(chain@, flagged_body, message@, fallback@),
{
    if body_error_detected(chain, flagged_body) {
        CrawlError::DataLoss(concat("data_loss: ", message))
    } else {
        fallback
    }
}

/// The body is shorter than the declared `content-length` by more than 100
/// bytes: the declared length, when so.
pub open spec fn truncated_length(headers: GroupedEntries, body_len: nat) -> Option<nat> {
    match first_value(headers, "content-length"@) {
        Some(text) => match parse_usize_text(text) {
            Some(expected) => if body_len < expected && expected - body_len > 100 {
                Some(expected)
            } else {
                None
            },
            None => None,
        },
        None => None,
    }
}

/// The data-loss error of a truncated body, naming the declared and the
/// received length.
pub open spec fn truncation_outcome(headers: GroupedEntries, body_len: nat) -> Option<CrawlErrorView> {
    match truncated_length(headers, body_len) {
        Some(expected) => Some(
            CrawlErrorView::DataLoss(
                "data_loss: expected "@ + decimal_text(expected) + " bytes, got "@ + decimal_text(
                    body_len,
                ),
            ),
        ),
        None => None,
    }
}

/// The data-loss error when a body of `body_len` bytes falls short of the
/// declared `content-length` by more than 100 bytes, else `None`.
pub fn truncation_error(headers: &ResponseHeaders, body_len: usize) -> (r: Option<CrawlError>)
    ensures
        match truncation_outcome(headers@, body_len as nat) {
            Some(e) => r matches Some(err) && err@ == e,
            None => r is None,
        },
{
    let expected = match headers.first("content-length") {
        Some(text) => parse_usize(text.as_str()),
        None => None,
    };
    if let Some(expected) = expected {
        if body_len < expected && expected - body_len > 100 {
            let mut m = "data_loss: expected ".to_owned();
            push_decimal(&mut m, expected);
            m.append(" bytes, got ");
            push_decimal(&mut m, body_len);
            return Some(CrawlError::DataLoss(m));
        }
    }
    None
}

/// A body is data loss exactly when the first `content-length` value parses
/// as a number `n` and the body falls short of `n` by more than 100 bytes,
/// however large `n` is; the error names both lengths.
pub proof fn lemma_truncation_is_a_shortfall_over_100_bytes(headers: GroupedEntries, body_len: nat)
    ensures
        (first_value(headers, "content-length"@) matches Some(t) && parse_usize_text(t) matches Some(n)
            && body_len < n && n - body_len > 100) ==> truncation_outcome(headers, body_len) == Some(
            CrawlErrorView::DataLoss(
                "data_loss: expected "@ + decimal_text(parse_usize_text(first_value(headers, "content-length"@)->0)->0)
                    + " bytes, got "@ + decimal_text(body_len),
            ),
        ),
        truncation_outcome(headers, body_len) is Some ==> (first_value(headers, "content-length"@) matches Some(t)
            && parse_usize_text(t) matches Some(n) && body_len < n && n - body_len > 100),
{
}

/// A truncated body is reported as data loss before anything else is
/// checked: whatever the status and the WAF detector's verdict.
pub proof fn lemma_truncation_decided_first(
    status: u16,
    headers: GroupedEntries,
    body_len: nat,
    body: Seq<char>,
    waf_vendor: Option<Seq<char>>,
)
    ensures
        truncation_outcome(headers, body_len) is Some ==> body_outcome(status, headers, body_len, body, waf_vendor)
            == truncation_outcome(headers, body_len),
{
}

/// Bodies shorter than this many bytes are checked for WAF challenge pages
/// even on a 200.
pub open spec fn challenge_body_limit() -> nat {
    5000
}

/// The outcome of a response whose body was read: data loss when the body is
/// truncated, a WAF block when a short 200 body was flagged by the detector,
/// the response otherwise.
pub open spec fn body_outcome(
    status: u16,
    headers: GroupedEntries,
    body_len: nat,
    body: Seq<char>,
    waf_vendor: Option<Seq<char>>,
) -> Option<CrawlErrorView> {
    match truncation_outcome(headers, body_len) {
        Some(e) => Some(e),
        None => if challenge_check_needed(status, body) && waf_vendor is Some {
            Some(
                CrawlErrorView::WafBlocked {
                    message: "waf/blocked detected on 2xx (body): "@ + waf_vendor->0,
                    vendor: waf_vendor->0,
                },
            )
        } else {
            None
        },
    }
}

/// A complete body is blocked exactly when it is a 200 whose decoded text is
/// under 5000 bytes and the WAF detector named a vendor; the error names
/// that vendor. Any other complete body is returned.
pub proof fn lemma_complete_bodies_blocked_only_as_short_challenges(
    status: u16,
    headers: GroupedEntries,
    body_len: nat,
    body: Seq<char>,
    waf_vendor: Option<Seq<char>>,
)
    requires
        truncation_outcome(headers, body_len) is None,
    ensures
        body_outcome(status, headers, body_len, body, waf_vendor) is Some <==> (status == 200 && text_byte_len(body)
            < 5000 && waf_vendor is Some),
        body_outcome(status, headers, body_len, body, waf_vendor) is Some ==> body_outcome(
            status,
            headers,
            body_len,
            body,
            waf_vendor,
        ) == Some(
            CrawlErrorView::WafBlocked {
                message: "waf/blocked detected on 2xx (body): "@ + waf_vendor->0,
                vendor: waf_vendor->0,
            },
        ),
{
}

/// What `String::from_utf8_lossy` makes of a body: the text, with each
/// invalid UTF-8 sequence replaced by U+FFFD.
pub uninterp spec fn lossy_utf8(bytes: Seq<u8>) -> Seq<char>;

/// Calls `String::from_utf8_lossy`. Claims the result named by `lossy_utf8`,
/// and, as the std documentation states, that valid UTF-8 is decoded
/// unchanged.
#[verifier::external_body]
fn decode_body(bytes: &[u8]) -> (r: String)
    ensures
        r@ == lossy_utf8(bytes@),
        valid_utf8(bytes@) ==> r@ == decode_utf8(bytes@),
{
    String::from_utf8_lossy(bytes).into_owned()
}

/// The length in bytes of the decoded body (`str::len`).
pub open spec fn text_byte_len(text: Seq<char>) -> nat {
    (encode_utf8(text).len() as usize) as nat
}

/// A short 200 body must be checked for a WAF challenge page.
pub open spec fn challenge_check_needed(status: u16, body: Seq<char>) -> bool {
    status == 200 && text_byte_len(body) < challenge_body_limit()
}

/// Whether a body must be checked for a WAF challenge page: a 200 whose
/// decoded body is shorter than the limit.
pub fn needs_challenge_check(status: u16, body_bytes: &Vec<u8>) -> (r: bool)
    ensures
        r == challenge_check_needed(status, lossy_utf8(body_bytes@)),
{
    let body = decode_body(body_bytes.as_slice());
    status == 200 && body.as_str().len() < 5000
}

/// A response returned as it is (a redirect): its body decoded leniently.
pub fn pass_through_response(
    status: u16,
    content_type: String,
    headers: ResponseHeaders,
    body_bytes: Vec<u8>,
) -> (r: CrawlResponse)
    ensures
        r.status == status,
        r.content_type@ == content_type@,
        r.headers@ == headers@,
        r.body_bytes@ == body_bytes@,
        r.body@ == lossy_utf8(body_bytes@),
        valid_utf8(body_bytes@) ==> r.body@ == decode_utf8(body_bytes@),
{
    let body = decode_body(body_bytes.as_slice());
    CrawlResponse { status, content_type, body, body_bytes, headers }
}

/// Finishes a fetch whose body was read: checks that the body is complete and
/// not a WAF challenge page, then assembles the response. `waf_vendor` is the
/// WAF detector's verdict on the decoded body.
pub fn finish_body(
    status: u16,
    content_type: String,
    headers: ResponseHeaders,
    body_bytes: Vec<u8>,
    waf_vendor: Option<String>,
) -> (r: Result<CrawlResponse, CrawlError>)
    ensures
        match body_outcome(
            status,
            headers@,
            body_bytes@.len(),
            lossy_utf8(body_bytes@),
            match waf_vendor {
                Some(v) => Some(v@),
                None => None,
            },
        ) {
            Some(e) => r matches Err(err) && err@ == e,
            None => r matches Ok(resp) && resp.status == status && resp.content_type@ == content_type@
                && resp.headers@ == headers@ && resp.body_bytes@ == body_bytes@ && resp.body@
                == lossy_utf8(body_bytes@) && (valid_utf8(body_bytes@) ==> resp.body@ == decode_utf8(
                body_bytes@,
            )),
        },
{
    if let Some(e) = truncation_error(&headers, body_bytes.len()) {
        return Err(e);
    }
    let body = decode_body(body_bytes.as_slice());
    if status == 200 && body.as_str().len() < 5000 {
        if let Some(vendor) = waf_vendor {
            return Err(
                CrawlError::WafBlocked {
                    message: concat("waf/blocked detected on 2xx (body): ", vendor.as_str()),
                    vendor,
                },
            );
        }
    }
    Ok(CrawlResponse { status, content_type, body, body_bytes, headers })
}

} // verus!

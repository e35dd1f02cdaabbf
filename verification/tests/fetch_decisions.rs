use crawlberg::response::{
    body_error_detected, body_read_error, classify_status, collect_headers, content_type, finish_body,
    forbidden_error, needs_challenge_check, pass_through_response, server_name, truncation_error, StatusAction,
};
use crawlberg::response_headers::ResponseHeaders;
use crawlberg::retry::{backoff_delay_ms, next_step, RetryStep};
use crawlberg::target::{invalid_url_error, parse_target, ssrf_violation};
use crawlberg::{is_retryable, CrawlError, CrawlRequest, CrawlResponse};

fn pair(name: &str, value: Option<&str>) -> (String, Option<String>) {
    (name.to_string(), value.map(|v| v.to_string()))
}

fn response(status: u16) -> CrawlResponse {
    pass_through_response(status, String::new(), ResponseHeaders::new(), Vec::new())
}

#[test]
fn statuses_are_classified() {
    let url = "http://example.com/x";
    assert_eq!(classify_status(301, url), StatusAction::PassThrough);
    assert_eq!(classify_status(399, url), StatusAction::PassThrough);
    assert_eq!(classify_status(200, url), StatusAction::ReadBody);
    assert_eq!(classify_status(204, url), StatusAction::ReadBody);
    assert_eq!(classify_status(400, url), StatusAction::ReadBody);
    assert_eq!(classify_status(403, url), StatusAction::InspectForbidden);
    assert_eq!(classify_status(401, url), StatusAction::Fail(CrawlError::Unauthorized("unauthorized".into())));
    assert_eq!(
        classify_status(404, url),
        StatusAction::Fail(CrawlError::NotFound("not_found: http://example.com/x".into()))
    );
    assert_eq!(classify_status(408, url), StatusAction::Fail(CrawlError::Timeout("timeout".into())));
    assert_eq!(classify_status(410, url), StatusAction::Fail(CrawlError::Gone("gone".into())));
    assert_eq!(classify_status(429, url), StatusAction::Fail(CrawlError::RateLimited("rate_limited".into())));
    assert_eq!(classify_status(500, url), StatusAction::Fail(CrawlError::ServerError("server_error".into())));
    assert_eq!(classify_status(502, url), StatusAction::Fail(CrawlError::BadGateway("bad_gateway".into())));
    assert_eq!(
        classify_status(503, url),
        StatusAction::Fail(CrawlError::ServerError("service unavailable".into()))
    );
}

#[test]
fn retryable_errors() {
    assert!(is_retryable(&CrawlError::ServerError("x".into())));
    assert!(is_retryable(&CrawlError::RateLimited("x".into())));
    assert!(is_retryable(&CrawlError::BadGateway("x".into())));
    assert!(!is_retryable(&CrawlError::Timeout("x".into())));
    assert!(!is_retryable(&CrawlError::Forbidden("x".into())));
    assert!(!is_retryable(&CrawlError::DataLoss("x".into())));
    assert!(!is_retryable(&CrawlError::WafBlocked { message: "m".into(), vendor: "v".into() }));
}

#[test]
fn backoff_doubles_from_one_hundred_ms() {
    assert_eq!(backoff_delay_ms(0), 100);
    assert_eq!(backoff_delay_ms(1), 200);
    assert_eq!(backoff_delay_ms(3), 800);
    assert_eq!(backoff_delay_ms(57), 100 * (1u64 << 57));
}

#[test]
fn retry_steps() {
    let codes = vec![503u16, 520];
    let ok = Ok(response(520));
    assert_eq!(next_step(0, 2, &codes, &ok), RetryStep::Retry);
    assert_eq!(next_step(2, 2, &codes, &ok), RetryStep::Deliver);
    assert_eq!(next_step(0, 2, &codes, &Ok(response(200))), RetryStep::Deliver);
    let server: Result<CrawlResponse, CrawlError> = Err(CrawlError::ServerError("server_error".into()));
    assert_eq!(next_step(1, 2, &codes, &server), RetryStep::Retry);
    assert_eq!(next_step(0, 0, &codes, &server), RetryStep::Deliver);
    let gone: Result<CrawlResponse, CrawlError> = Err(CrawlError::Gone("gone".into()));
    assert_eq!(next_step(0, 5, &codes, &gone), RetryStep::Deliver);
}

#[test]
fn headers_are_grouped_by_lowercase_name() {
    let pairs = vec![
        pair("Set-Cookie", Some("a=1")),
        pair("server", Some("CloudFlare")),
        pair("set-cookie", Some("b=2")),
        pair("x-bin", None),
        pair("content-type", Some("text/html")),
    ];
    let h = collect_headers(&pairs);
    assert_eq!(h.len(), 3);
    assert_eq!(h.get("set-cookie").unwrap(), &vec!["a=1".to_string(), "b=2".to_string()]);
    assert!(h.get("x-bin").is_none());
    assert_eq!(h.first("server").map(|s| s.as_str()), Some("CloudFlare"));
    assert_eq!(server_name(&h), "cloudflare");
    assert_eq!(server_name(&ResponseHeaders::new()), "");
    assert_eq!(h.clone(), h);
}

#[test]
fn content_type_is_the_last_value() {
    let pairs = vec![pair("content-type", Some("text/plain")), pair("Content-Type", Some("text/html"))];
    assert_eq!(content_type(&pairs), "text/html");
    let pairs = vec![pair("content-type", Some("text/plain")), pair("content-type", None)];
    assert_eq!(content_type(&pairs), "");
    assert_eq!(content_type(&vec![pair("server", Some("x"))]), "");
}

#[test]
fn forbidden_errors() {
    assert_eq!(forbidden_error(None), CrawlError::Forbidden("forbidden".into()));
    assert_eq!(
        forbidden_error(Some("cloudflare".into())),
        CrawlError::WafBlocked { message: "waf/blocked detected: cloudflare".into(), vendor: "cloudflare".into() }
    );
}

#[test]
fn body_errors_are_recognised() {
    assert!(body_error_detected("error decoding response body: unexpected EOF", false));
    assert!(body_error_detected("connection closed before message completed; end of file", false));
    assert!(body_error_detected("anything", true));
    assert!(!body_error_detected("connection refused", false));
    assert_eq!(
        body_read_error("request body truncated", false, "boom", CrawlError::Other("x".into())),
        CrawlError::DataLoss("data_loss: boom".into())
    );
    assert_eq!(
        body_read_error("connection refused", false, "boom", CrawlError::Other("x".into())),
        CrawlError::Other("x".into())
    );
}

#[test]
fn truncated_bodies_are_data_loss() {
    let h = collect_headers(&vec![pair("Content-Length", Some("500"))]);
    let r = finish_body(200, String::new(), h.clone(), vec![b'a'; 10], None);
    assert_eq!(r.unwrap_err(), CrawlError::DataLoss("data_loss: expected 500 bytes, got 10".into()));
    // Within 100 bytes of the declared length is accepted.
    let r = finish_body(200, String::new(), h.clone(), vec![b'a'; 400], None).unwrap();
    assert_eq!(r.body.len(), 400);
    // A declared length that does not parse is ignored.
    let h = collect_headers(&vec![pair("content-length", Some("lots"))]);
    assert!(finish_body(200, String::new(), h, vec![b'a'; 10], None).is_ok());
    let h = collect_headers(&vec![pair("content-length", Some("+150"))]);
    assert!(finish_body(200, String::new(), h, Vec::new(), None).is_err());
}

#[test]
fn short_ok_bodies_flagged_as_challenges_are_blocked() {
    let r = finish_body(200, "text/html".into(), ResponseHeaders::new(), b"challenge".to_vec(), Some("akamai".into()));
    assert_eq!(
        r.unwrap_err(),
        CrawlError::WafBlocked {
            message: "waf/blocked detected on 2xx (body): akamai".into(),
            vendor: "akamai".into()
        }
    );
    assert!(needs_challenge_check(200, &b"short".to_vec()));
    assert!(!needs_challenge_check(200, &vec![b'a'; 5000]));
    assert!(!needs_challenge_check(201, &b"short".to_vec()));
    let long = finish_body(200, String::new(), ResponseHeaders::new(), vec![b'a'; 5000], Some("akamai".into()));
    assert!(long.is_ok());
    let created = finish_body(201, String::new(), ResponseHeaders::new(), b"ok".to_vec(), Some("akamai".into()));
    let resp = created.unwrap();
    assert_eq!(resp.status, 201);
    assert_eq!(resp.body, "ok");
}

#[test]
fn bodies_are_decoded_leniently() {
    let r = pass_through_response(302, "text/html".into(), ResponseHeaders::new(), vec![0x66, 0xff, 0x6f]);
    assert_eq!(r.body, "f\u{FFFD}o");
    assert_eq!(r.body_bytes, vec![0x66, 0xff, 0x6f]);
    assert_eq!(r.status, 302);
}

#[test]
fn unparsable_urls_are_policy_violations() {
    let req = CrawlRequest::new("not a url");
    match parse_target(&req) {
        Err(CrawlError::SsrfPolicyViolation { url, reason }) => {
            assert_eq!(url, "not a url");
            assert_eq!(reason, "invalid URL: relative URL without a base");
        }
        other => panic!("unexpected {other:?}"),
    }
    assert_eq!(
        invalid_url_error("u", "m"),
        CrawlError::SsrfPolicyViolation { url: "u".into(), reason: "invalid URL: m".into() }
    );
}

#[test]
fn retries_stop_after_retry_count() {
    let codes: Vec<u16> = Vec::new();
    for retry_count in 0..5u32 {
        let mut attempts = 0;
        let mut delays = Vec::new();
        for attempt in 0..=retry_count {
            attempts += 1;
            let outcome: Result<CrawlResponse, CrawlError> = Err(CrawlError::RateLimited("rate_limited".into()));
            match next_step(attempt, retry_count, &codes, &outcome) {
                RetryStep::Deliver => break,
                RetryStep::Retry => delays.push(backoff_delay_ms(attempt)),
            }
        }
        assert_eq!(attempts, retry_count + 1);
        let expected: Vec<u64> = (0..retry_count).map(|a| 100u64 << a).collect();
        assert_eq!(delays, expected);
    }
}

#[test]
fn ssrf_refusals_carry_the_policy_reason() {
    assert_eq!(
        ssrf_violation("http://10.0.0.1/", "private address".to_string()),
        CrawlError::SsrfPolicyViolation { url: "http://10.0.0.1/".into(), reason: "private address".into() }
    );
}

#[test]
fn valid_utf8_bodies_are_kept() {
    let r = finish_body(200, String::new(), ResponseHeaders::new(), "héllo".as_bytes().to_vec(), None).unwrap();
    assert_eq!(r.body, "héllo");
}

#[test]
fn truncation_is_decided_before_the_challenge_check() {
    let h = collect_headers(&vec![pair("content-length", Some("1000"))]);
    assert_eq!(
        truncation_error(&h, 10),
        Some(CrawlError::DataLoss("data_loss: expected 1000 bytes, got 10".into()))
    );
    assert_eq!(truncation_error(&h, 899), Some(CrawlError::DataLoss("data_loss: expected 1000 bytes, got 899".into())));
    assert_eq!(truncation_error(&h, 900), None);
    assert_eq!(truncation_error(&h, 2000), None);
    assert_eq!(truncation_error(&ResponseHeaders::new(), 0), None);
    // A truncated short 200 body is data loss even when the detector flags it.
    let r = finish_body(200, String::new(), h, b"challenge".to_vec(), Some("akamai".into()));
    assert_eq!(r.unwrap_err(), CrawlError::DataLoss("data_loss: expected 1000 bytes, got 9".into()));
}

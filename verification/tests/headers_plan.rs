use crawlberg::builder::{build_get, header_tables_fit_check};
use crawlberg::headers::Headers;
use crawlberg::request::{plan_headers, HeaderOp};
use crawlberg::target::parse_target;
use crawlberg::{apply_headers, default_user_agent, AuthConfig, CrawlConfig, CrawlRequest, HttpFetchService};

fn header(name: &str, value: &str) -> HeaderOp {
    HeaderOp::Header { name: name.to_string(), value: value.to_string() }
}

fn built(config: &CrawlConfig, req: &CrawlRequest) -> reqwest::header::HeaderMap {
    let client = reqwest::Client::new();
    let rb = apply_headers(client.get("http://example.com"), config, req);
    rb.build().expect("request must build").headers().clone()
}

#[test]
fn default_plan_is_browser_defaults_then_user_agent() {
    let config = CrawlConfig::default();
    let req = CrawlRequest::new("http://example.com");
    let ops = plan_headers(&config, &req);
    let names: Vec<String> = ops
        .iter()
        .map(|op| match op {
            HeaderOp::Header { name, .. } => name.clone(),
            other => panic!("unexpected step {other:?}"),
        })
        .collect();
    assert_eq!(
        names,
        vec![
            "accept",
            "accept-language",
            "sec-ch-ua",
            "sec-ch-ua-mobile",
            "sec-ch-ua-platform",
            "sec-fetch-site",
            "sec-fetch-mode",
            "sec-fetch-dest",
            "upgrade-insecure-requests",
            "user-agent",
        ]
    );
    assert_eq!(ops[9], header("user-agent", default_user_agent()));
}

#[test]
fn caller_override_is_case_insensitive() {
    let mut config = CrawlConfig::default();
    config
        .custom_headers
        .insert("Sec-Fetch-Site".to_string(), "same-origin".to_string());
    let req = CrawlRequest::new("http://example.com");
    let ops = plan_headers(&config, &req);
    // The default is dropped; only the caller's value is applied, last.
    assert!(!ops.contains(&header("sec-fetch-site", "none")));
    assert_eq!(ops.last().unwrap(), &header("Sec-Fetch-Site", "same-origin"));
    let h = built(&config, &req);
    let values: Vec<_> = h.get_all("sec-fetch-site").iter().collect();
    assert_eq!(values, vec!["same-origin"]);
}

#[test]
fn custom_user_agent_header_suppresses_the_default_one() {
    let mut config = CrawlConfig::default();
    config.user_agent = Some("Configured/1.0".to_string());
    config
        .custom_headers
        .insert("User-Agent".to_string(), "Custom/2.0".to_string());
    let req = CrawlRequest::new("http://example.com");
    let h = built(&config, &req);
    let values: Vec<_> = h.get_all("user-agent").iter().collect();
    assert_eq!(values, vec!["Custom/2.0"]);
}

#[test]
fn request_headers_come_after_configured_ones() {
    let mut config = CrawlConfig::default();
    config.custom_headers.insert("x-a".to_string(), "config".to_string());
    let mut req = CrawlRequest::new("http://example.com");
    req.headers.insert("x-a".to_string(), "request".to_string());
    let ops = plan_headers(&config, &req);
    let n = ops.len();
    assert_eq!(ops[n - 2], header("x-a", "config"));
    assert_eq!(ops[n - 1], header("x-a", "request"));
    let h = built(&config, &req);
    let values: Vec<_> = h.get_all("x-a").iter().collect();
    assert_eq!(values, vec!["config", "request"]);
}

#[test]
fn basic_auth_is_applied() {
    let mut config = CrawlConfig::default();
    config.auth = Some(AuthConfig::Basic { username: "user".to_string(), password: "pass".to_string() });
    let req = CrawlRequest::new("http://example.com");
    let ops = plan_headers(&config, &req);
    assert_eq!(
        ops[10],
        HeaderOp::BasicAuth { username: "user".to_string(), password: "pass".to_string() }
    );
    let h = built(&config, &req);
    assert_eq!(h.get("authorization").unwrap(), "Basic dXNlcjpwYXNz");
}

#[test]
fn bearer_auth_is_applied() {
    let mut config = CrawlConfig::default();
    config.auth = Some(AuthConfig::Bearer { token: "tok".to_string() });
    let req = CrawlRequest::new("http://example.com");
    let h = built(&config, &req);
    assert_eq!(h.get("authorization").unwrap(), "Bearer tok");
}

#[test]
fn header_auth_is_applied() {
    let mut config = CrawlConfig::default();
    config.auth = Some(AuthConfig::Header { name: "x-api-key".to_string(), value: "secret".to_string() });
    let req = CrawlRequest::new("http://example.com");
    let ops = plan_headers(&config, &req);
    assert_eq!(ops[10], header("x-api-key", "secret"));
    let h = built(&config, &req);
    assert_eq!(h.get("x-api-key").unwrap(), "secret");
}

#[test]
fn headers_table_behaves_like_a_map() {
    let mut h = Headers::new();
    assert_eq!(h.insert("a".to_string(), "1".to_string()), None);
    assert_eq!(h.insert("b".to_string(), "2".to_string()), None);
    assert_eq!(h.insert("a".to_string(), "3".to_string()), Some("1".to_string()));
    assert_eq!(h.len(), 2);
    assert_eq!(h.name_at(0), "a");
    assert_eq!(h.value_at(0), "3");
    assert_eq!(h.get("b").map(|s| s.as_str()), Some("2"));
    assert!(h.get("A").is_none());
    assert!(!h.contains_key("c"));
    assert_eq!(h.clone(), h);
}

#[test]
fn get_request_targets_the_parsed_url() {
    let mut config = CrawlConfig::default();
    config.user_agent = Some("Agent/1".to_string());
    let req = CrawlRequest::new("http://Example.com");
    let url = parse_target(&req).expect("valid url");
    assert_eq!(url.as_str(), "http://example.com/");
    let service = HttpFetchService::new(reqwest::Client::new(), config).clone();
    assert_eq!(service.config().user_agent.as_deref(), Some("Agent/1"));
    let built = build_get(service.client(), &url, service.config(), &req).build().unwrap();
    assert_eq!(built.url().as_str(), "http://example.com/");
    assert_eq!(built.method(), reqwest::Method::GET);
    assert_eq!(built.headers().get("user-agent").unwrap(), "Agent/1");
}

#[test]
fn header_tables_fit_the_request_header_map() {
    let mut config = CrawlConfig::default();
    let mut req = CrawlRequest::new("http://example.com");
    assert!(header_tables_fit_check(&config, &req));
    for i in 0..6000 {
        config.custom_headers.insert(format!("x-c-{}", i), "v".to_string());
    }
    for i in 0..542 {
        req.headers.insert(format!("x-r-{}", i), "v".to_string());
    }
    assert!(header_tables_fit_check(&config, &req));
    req.headers.insert("x-r-last".to_string(), "v".to_string());
    assert!(!header_tables_fit_check(&config, &req));
}

#[test]
fn cloned_service_keeps_client_and_config() {
    let mut config = CrawlConfig::default();
    config.retry_count = 3;
    config.user_agent = Some("Agent/2".to_string());
    let service = HttpFetchService::new(reqwest::Client::new(), config);
    let copy = service.clone();
    assert_eq!(copy.config().retry_count, 3);
    assert_eq!(copy.config().user_agent.as_deref(), Some("Agent/2"));
    assert_eq!(service.config().user_agent.as_deref(), Some("Agent/2"));
}

use crawlberg::defaults::{default_browser_headers, default_user_agent};

#[test]
fn default_user_agent_is_not_the_bot_string() {
    let ua = default_user_agent();
    assert!(!ua.contains("crawlberg"), "default UA must not expose the crawler name");
    assert!(ua.contains("Chrome"), "default UA should read as a real browser");
}

#[test]
fn default_browser_headers_are_chrome_faithful() {
    let h = default_browser_headers();
    assert_eq!(h.get("accept-language").map(|s| s.as_str()), Some("en-US,en;q=0.9"));
    assert!(h.contains_key("sec-ch-ua"), "missing sec-ch-ua client hint");
    assert!(h.contains_key("sec-ch-ua-platform"));
    assert_eq!(h.get("sec-fetch-site").map(|s| s.as_str()), Some("none"));
    assert_eq!(h.get("sec-fetch-mode").map(|s| s.as_str()), Some("navigate"));
    assert_eq!(h.get("sec-fetch-dest").map(|s| s.as_str()), Some("document"));
    assert!(!h.contains_key("user-agent"), "preset must not set UA; caller owns it");
}

//! Configuration, request, response and error types of the fetch layer.

use vstd::prelude::*;
use crate::headers::Headers;
use crate::response_headers::ResponseHeaders;

verus! {

/// Credentials attached to every request of a crawl.
#[derive(Debug, Clone, PartialEq, Eq)]
pub enum AuthConfig {
    /// HTTP basic authentication.
    Basic { username: String, password: String },
    /// `Authorization: Bearer <token>`.
    Bearer { token: String },
    /// An arbitrary header carrying a credential.
    Header { name: String, value: String },
}

/// [`AuthConfig`] as plain values.
pub enum AuthView {
    Basic { username: Seq<char>, password: Seq<char> },
    Bearer { token: Seq<char> },
    Header { name: Seq<char>, value: Seq<char> },
}

impl View for AuthConfig {
    type V = AuthView;

    open spec fn view(&self) -> AuthView {
        match self {
            AuthConfig::Basic { username, password } => AuthView::Basic {
                username: username@,
                password: password@,
            },
            AuthConfig::Bearer { token } => AuthView::Bearer { token: token@ },
            AuthConfig::Header { name, value } => AuthView::Header { name: name@, value: value@ },
        }
    }
}

/// The parts of the crawl configuration that the fetch layer reads.
#[derive(Debug, Clone)]
pub struct CrawlConfig {
    /// Explicit user agent; the browser default is used when absent.
    pub user_agent: Option<String>,
    /// Headers added to every request; they override the browser defaults.
    pub custom_headers: Headers,
    /// Credentials added to every request.
    pub auth: Option<AuthConfig>,
    /// How many times a failed fetch is retried.
    pub retry_count: u32,
    /// Response statuses that are retried like errors.
    pub retry_codes: Vec<u16>,
}

/// The plain value of an optional string.
pub open spec fn opt_view(o: Option<String>) -> Option<Seq<char>> {
    match o {
        Some(s) => Some(s@),
        None => None,
    }
}

/// The plain value of an optional credential.
pub open spec fn auth_opt_view(o: Option<AuthConfig>) -> Option<AuthView> {
    match o {
        Some(a) => Some(a@),
        None => None,
    }
}

impl Default for CrawlConfig {
    /// The default configuration: no explicit user agent, no custom headers,
    /// no credentials and no retries.
    fn default() -> (r: Self)
        ensures
            r.user_agent is None,
            r.custom_headers@.len() == 0,
            r.auth is None,
            r.retry_count == 0,
            r.retry_codes@.len() == 0,
    {
        CrawlConfig {
            user_agent: None,
            custom_headers: Headers::new(),
            auth: None,
            retry_count: 0,
            retry_codes: Vec::new(),
        }
    }
}

/// A single page request.
#[derive(Debug, Clone)]
pub struct CrawlRequest {
    /// The URL to fetch.
    pub url: String,
    /// Headers for this request only; they override every default.
    pub headers: Headers,
}

impl CrawlRequest {
    /// A request for `url` with no extra headers.
    pub fn new(url: &str) -> (r: Self)
        ensures
            r.url@ == url@,
            r.headers@.len() == 0,
    {
        CrawlRequest { url: url.to_owned(), headers: Headers::new() }
    }
}

/// The outcome of a successful fetch.
#[derive(Debug, Clone)]
pub struct CrawlResponse {
    /// HTTP status code.
    pub status: u16,
    /// The last `content-type` value, or empty.
    pub content_type: String,
    /// The body decoded as UTF-8, invalid sequences replaced.
    pub body: String,
    /// The raw body.
    pub body_bytes: Vec<u8>,
    /// Response headers grouped by lower-cased name.
    pub headers: ResponseHeaders,
}

/// Why a fetch failed.
#[derive(Debug, Clone, PartialEq, Eq)]
pub enum CrawlError {
    ServerError(String),
    RateLimited(String),
    BadGateway(String),
    Unauthorized(String),
    Forbidden(String),
    NotFound(String),
    Timeout(String),
    Gone(String),
    DataLoss(String),
    Other(String),
    WafBlocked { message: String, vendor: String },
    SsrfPolicyViolation { url: String, reason: String },
}

/// [`CrawlError`] as plain values.
pub enum CrawlErrorView {
    ServerError(Seq<char>),
    RateLimited(Seq<char>),
    BadGateway(Seq<char>),
    Unauthorized(Seq<char>),
    Forbidden(Seq<char>),
    NotFound(Seq<char>),
    Timeout(Seq<char>),
    Gone(Seq<char>),
    DataLoss(Seq<char>),
    Other(Seq<char>),
    WafBlocked { message: Seq<char>, vendor: Seq<char> },
    SsrfPolicyViolation { url: Seq<char>, reason: Seq<char> },
}

impl View for CrawlError {
    type V = CrawlErrorView;

    open spec fn view(&self) -> CrawlErrorView {
        match self {
            CrawlError::ServerError(m) => CrawlErrorView::ServerError(m@),
            CrawlError::RateLimited(m) => CrawlErrorView::RateLimited(m@),
            CrawlError::BadGateway(m) => CrawlErrorView::BadGateway(m@),
            CrawlError::Unauthorized(m) => CrawlErrorView::Unauthorized(m@),
            CrawlError::Forbidden(m) => CrawlErrorView::Forbidden(m@),
            CrawlError::NotFound(m) => CrawlErrorView::NotFound(m@),
            CrawlError::Timeout(m) => CrawlErrorView::Timeout(m@),
            CrawlError::Gone(m) => CrawlErrorView::Gone(m@),
            CrawlError::DataLoss(m) => CrawlErrorView::DataLoss(m@),
            CrawlError::Other(m) => CrawlErrorView::Other(m@),
            CrawlError::WafBlocked { message, vendor } => CrawlErrorView::WafBlocked {
                message: message@,
                vendor: vendor@,
            },
            CrawlError::SsrfPolicyViolation { url, reason } => CrawlErrorView::SsrfPolicyViolation {
                url: url@,
                reason: reason@,
            },
        }
    }
}

} // verus!

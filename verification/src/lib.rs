//! Verified core of the crawlberg HTTP fetch layer: browser-like request
//! headers, retry policy, response classification and TLS profiles.

pub mod builder;
pub mod defaults;
pub mod headers;
pub mod request;
pub mod response;
pub mod response_headers;
pub mod retry;
pub mod target;
pub mod text;
pub mod tls;
pub mod types;

pub use builder::{apply_headers, HttpFetchService};
pub use defaults::{default_browser_headers, default_user_agent};
pub use headers::Headers;
pub use retry::is_retryable;
pub use tls::{ChromeLikeTlsProfile, DynTlsProfileProvider, NoTlsSpoof, TlsClientConfig, TlsProfileProvider};
pub use types::{AuthConfig, CrawlConfig, CrawlError, CrawlRequest, CrawlResponse};

//! Building the outgoing GET request with `reqwest`, and the fetch service
//! that owns the client and the configuration.

use vstd::prelude::*;
use std::sync::Arc;
use crate::request::{lemma_plan_len, plan_headers, ops_view, request_plan, HeaderOp, HeaderOpView};
use crate::target::{url_string, url_text};
use crate::types::{auth_opt_view, opt_view, CrawlConfig, CrawlRequest};

verus! {

#[verifier::external_type_specification]
#[verifier::external_body]
pub struct ExClient(reqwest::Client);

#[verifier::external_type_specification]
#[verifier::external_body]
pub struct ExRequestBuilder(reqwest::RequestBuilder);

/// `Client::clone`: the client keeps its state behind an `Arc`, so a clone is
/// the same client (reqwest documents that clones share the connection pool).
pub assume_specification[ <reqwest::Client as Clone>::clone ](client: &reqwest::Client) -> (r: reqwest::Client)
    ensures
        r == *client,
;

/// The builder that `Client::get` makes for a URL.
pub uninterp spec fn get_builder(client: reqwest::Client, url: Seq<char>) -> reqwest::RequestBuilder;

/// The builder after `RequestBuilder::header(name, value)`, which appends the
/// header (or records the error of an invalid name or value).
pub uninterp spec fn builder_with_header(
    builder: reqwest::RequestBuilder,
    name: Seq<char>,
    value: Seq<char>,
) -> reqwest::RequestBuilder;

/// The builder after `RequestBuilder::basic_auth(username, Some(password))`.
pub uninterp spec fn builder_with_basic_auth(
    builder: reqwest::RequestBuilder,
    username: Seq<char>,
    password: Seq<char>,
) -> reqwest::RequestBuilder;

/// The builder after `RequestBuilder::bearer_auth(token)`.
pub uninterp spec fn builder_with_bearer_auth(
    builder: reqwest::RequestBuilder,
    token: Seq<char>,
) -> reqwest::RequestBuilder;

/// The number of distinct header names in the request a builder holds (0
/// when the builder holds an error).
pub uninterp spec fn header_name_count(builder: reqwest::RequestBuilder) -> nat;

/// A builder's header map takes one more header without panicking while it
/// holds at most this many distinct names: `HeaderMap` only fails to grow
/// (and `append` then panics) when it would pass 2^15 index slots, which takes
/// more than 2^15 / 5 distinct names.
pub open spec fn header_name_limit() -> nat {
    6553
}

/// Calls `Client::get`: the result is the builder named by `get_builder` for
/// the client and the URL text. Its request has no headers but the
/// `authorization` header that credentials in the URL add.
#[verifier::external_body]
fn client_get(client: &reqwest::Client, url: String) -> (r: reqwest::RequestBuilder)
    ensures
        r == get_builder(*client, url@),
        header_name_count(r) <= 1,
{
    client.get(url)
}

/// Calls `RequestBuilder::header` with a name and a value given as text. It
/// appends to the request's header map, which adds at most one name.
#[verifier::external_body]
fn request_header(builder: reqwest::RequestBuilder, name: &str, value: &str) -> (r: reqwest::RequestBuilder)
    requires
        header_name_count(builder) <= header_name_limit(),
    ensures
        r == builder_with_header(builder, name@, value@),
        header_name_count(r) <= header_name_count(builder) + 1,
{
    builder.header(name, value)
}

/// Calls `RequestBuilder::basic_auth` with `Some(password)`, which appends an
/// `authorization` header.
#[verifier::external_body]
fn request_basic_auth(builder: reqwest::RequestBuilder, username: &str, password: &str) -> (r:
    reqwest::RequestBuilder)
    requires
        header_name_count(builder) <= header_name_limit(),
    ensures
        r == builder_with_basic_auth(builder, username@, password@),
        header_name_count(r) <= header_name_count(builder) + 1,
{
    builder.basic_auth(username, Some(password))
}

/// Calls `RequestBuilder::bearer_auth`, which appends an `authorization`
/// header.
#[verifier::external_body]
fn request_bearer_auth(builder: reqwest::RequestBuilder, token: &str) -> (r: reqwest::RequestBuilder)
    requires
        header_name_count(builder) <= header_name_limit(),
    ensures
        r == builder_with_bearer_auth(builder, token@),
        header_name_count(r) <= header_name_count(builder) + 1,
{
    builder.bearer_auth(token)
}

/// The builder after one header step.
pub open spec fn apply_op(builder: reqwest::RequestBuilder, op: HeaderOpView) -> reqwest::RequestBuilder {
    match op {
        HeaderOpView::Header { name, value } => builder_with_header(builder, name, value),
        HeaderOpView::BasicAuth { username, password } => builder_with_basic_auth(
            builder,
            username,
            password,
        ),
        HeaderOpView::BearerAuth { token } => builder_with_bearer_auth(builder, token),
    }
}

/// The builder after the header steps, in order.
pub open spec fn apply_ops(builder: reqwest::RequestBuilder, ops: Seq<HeaderOpView>) -> reqwest::RequestBuilder
    decreases ops.len(),
{
    if ops.len() == 0 {
        builder
    } else {
        apply_op(apply_ops(builder, ops.drop_last()), ops.last())
    }
}

/// Applies auth, the browser defaults and the caller's headers to a request
/// builder, in the order of the request's header plan.
pub fn apply_headers(
    builder: reqwest::RequestBuilder,
    config: &CrawlConfig,
    req: &CrawlRequest,
) -> (r: reqwest::RequestBuilder)
    requires
        header_name_count(builder) + request_plan(*config, *req).len() <= header_name_limit() + 1,
    ensures
        r == apply_ops(builder, request_plan(*config, *req)),
{
    let ops = plan_headers(config, req);
    let mut b = builder;
    let mut i: usize = 0;
    while i < ops.len()
        invariant
            i <= ops@.len(),
            ops_view(ops@) == request_plan(*config, *req),
            b == apply_ops(builder, ops_view(ops@).take(i as int)),
            header_name_count(b) <= header_name_count(builder) + i,
            header_name_count(builder) + ops@.len() <= header_name_limit() + 1,
        decreases ops@.len() - i,
    {
        assert(ops_view(ops@).take(i + 1).drop_last() =~= ops_view(ops@).take(i as int));
        assert(ops_view(ops@)[i as int] == ops@[i as int]@);
        b = match &ops[i] {
            HeaderOp::Header { name, value } => request_header(b, name.as_str(), value.as_str()),
            HeaderOp::BasicAuth { username, password } => request_basic_auth(
                b,
                username.as_str(),
                password.as_str(),
            ),
            HeaderOp::BearerAuth { token } => request_bearer_auth(b, token.as_str()),
        };
        i = i + 1;
    }
    assert(ops_view(ops@).take(ops@.len() as int) =~= ops_view(ops@));
    b
}

/// The configured and per-request header tables are small enough for the
/// request's header map: with the nine defaults, the user agent, the
/// credentials and a header from the URL, it stays within the limit.
pub open spec fn header_tables_fit(config: CrawlConfig, req: CrawlRequest) -> bool {
    config.custom_headers@.len() + req.headers@.len() + 12 <= header_name_limit() + 1
}

/// Whether the header tables of a configuration and a request fit.
pub fn header_tables_fit_check(config: &CrawlConfig, req: &CrawlRequest) -> (r: bool)
    ensures
        r == header_tables_fit(*config, *req),
{
    let a = config.custom_headers.len();
    let b = req.headers.len();
    a <= 6542 && b <= 6542 - a
}

/// The GET request for a parsed URL with all of its headers applied.
pub fn build_get(
    client: &reqwest::Client,
    url: &url::Url,
    config: &CrawlConfig,
    req: &CrawlRequest,
) -> (r: reqwest::RequestBuilder)
    requires
        header_tables_fit(*config, *req),
    ensures
        r == apply_ops(get_builder(*client, url_text(*url)), request_plan(*config, *req)),
{
    let b = client_get(client, url_string(url));
    proof {
        lemma_plan_len(
            opt_view(config.user_agent),
            config.custom_headers@,
            auth_opt_view(config.auth),
            req.headers@,
        );
    }
    apply_headers(b, config, req)
}

/// Innermost service that performs the actual HTTP fetch: it owns the client
/// and shares the crawl configuration.
pub struct HttpFetchService {
    client: reqwest::Client,
    config: Arc<CrawlConfig>,
}

impl HttpFetchService {
    /// The client the service fetches with.
    pub closed spec fn spec_client(&self) -> reqwest::Client {
        self.client
    }

    /// The configuration the service fetches under.
    pub closed spec fn spec_config(&self) -> CrawlConfig {
        *self.config
    }

    /// A service fetching with `client` under `config`.
    pub fn new(client: reqwest::Client, config: CrawlConfig) -> (r: Self)
        ensures
            r.spec_client() == client,
            r.spec_config() == config,
    {
        HttpFetchService { client, config: Arc::new(config) }
    }

    /// The client the service fetches with.
    pub fn client(&self) -> (r: &reqwest::Client)
        ensures
            *r == self.spec_client(),
    {
        &self.client
    }

    /// The configuration the service fetches under.
    pub fn config(&self) -> (r: &CrawlConfig)
        ensures
            *r == self.spec_config(),
    {
        &self.config
    }
}


impl Clone for HttpFetchService {
    /// A service with the same client and the same shared configuration.
    fn clone(&self) -> (r: Self)
        ensures
            r.spec_client() == self.spec_client(),
            r.spec_config() == self.spec_config(),
    {
        HttpFetchService { client: self.client.clone(), config: self.config.clone() }
    }
}

} // verus!

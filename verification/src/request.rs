//! Which headers an outgoing request carries, and in what order.
//!
//! The browser defaults come first, minus every default whose name the caller
//! supplies (in the configuration or on the request, compared after ASCII
//! lower-casing); then the user agent unless the caller supplies one;
//! then the credentials; then the configured headers; then the request's own.

use vstd::prelude::*;
use crate::defaults::{browser_default_headers, browser_user_agent, default_browser_headers, default_user_agent};
use crate::headers::{has_key, lookup, HeaderEntries, Headers};
use crate::text::{ascii_lower, to_ascii_lower};
use crate::types::{auth_opt_view, opt_view, AuthConfig, AuthView, CrawlConfig, CrawlRequest};

verus! {

/// One step of building a request's headers.
#[derive(Debug, Clone, PartialEq, Eq)]
pub enum HeaderOp {
    /// Append the header `name: value`.
    Header { name: String, value: String },
    /// Set basic authentication.
    BasicAuth { username: String, password: String },
    /// Set bearer authentication.
    BearerAuth { token: String },
}

/// [`HeaderOp`] as plain values.
pub enum HeaderOpView {
    Header { name: Seq<char>, value: Seq<char> },
    BasicAuth { username: Seq<char>, password: Seq<char> },
    BearerAuth { token: Seq<char> },
}

impl View for HeaderOp {
    type V = HeaderOpView;

    open spec fn view(&self) -> HeaderOpView {
        match self {
            HeaderOp::Header { name, value } => HeaderOpView::Header { name: name@, value: value@ },
            HeaderOp::BasicAuth { username, password } => HeaderOpView::BasicAuth {
                username: username@,
                password: password@,
            },
            HeaderOp::BearerAuth { token } => HeaderOpView::BearerAuth { token: token@ },
        }
    }
}

/// The plain value of a list of header steps.
pub open spec fn ops_view(ops: Seq<HeaderOp>) -> Seq<HeaderOpView> {
    ops.map_values(|o: HeaderOp| o@)
}

/// The name of the user-agent header.
pub open spec fn user_agent_name() -> Seq<char> {
    "user-agent"@
}

/// Some entry of `e` has a name that lower-cases to `name`.
pub open spec fn names_lowered_contain(e: HeaderEntries, name: Seq<char>) -> bool {
    exists|i: int| 0 <= i < e.len() && ascii_lower(#[trigger] e[i].0) == name
}

/// The caller (configuration or request) supplies a header whose lower-cased
/// name is `name`.
pub open spec fn overridden(custom: HeaderEntries, request: HeaderEntries, name: Seq<char>) -> bool {
    names_lowered_contain(custom, name) || names_lowered_contain(request, name)
}

/// The default headers that the caller does not override, in order.
pub open spec fn kept_defaults(
    defaults: HeaderEntries,
    custom: HeaderEntries,
    request: HeaderEntries,
) -> Seq<HeaderOpView>
    decreases defaults.len(),
{
    if defaults.len() == 0 {
        Seq::empty()
    } else {
        let prev = kept_defaults(defaults.drop_last(), custom, request);
        let p = defaults.last();
        if overridden(custom, request, ascii_lower(p.0)) {
            prev
        } else {
            prev.push(HeaderOpView::Header { name: p.0, value: p.1 })
        }
    }
}

/// Header steps for a table of headers, in table order.
pub open spec fn entry_ops(e: HeaderEntries) -> Seq<HeaderOpView> {
    e.map_values(|p: (Seq<char>, Seq<char>)| HeaderOpView::Header { name: p.0, value: p.1 })
}

/// Header steps for the configured credentials.
pub open spec fn auth_ops(auth: Option<AuthView>) -> Seq<HeaderOpView> {
    match auth {
        None => Seq::empty(),
        Some(AuthView::Basic { username, password }) => seq![
            HeaderOpView::BasicAuth { username, password },
        ],
        Some(AuthView::Bearer { token }) => seq![HeaderOpView::BearerAuth { token }],
        Some(AuthView::Header { name, value }) => seq![HeaderOpView::Header { name, value }],
    }
}

/// The user agent: the configured one, else the request's `user-agent`
/// header, else the browser default.
pub open spec fn resolved_user_agent(config_ua: Option<Seq<char>>, request: HeaderEntries) -> Seq<
    char,
> {
    match config_ua {
        Some(ua) => ua,
        None => match lookup(request, user_agent_name()) {
            Some(ua) => ua,
            None => browser_user_agent(),
        },
    }
}

/// The user-agent step, present unless the caller supplies a user agent.
pub open spec fn user_agent_ops(
    config_ua: Option<Seq<char>>,
    custom: HeaderEntries,
    request: HeaderEntries,
) -> Seq<HeaderOpView> {
    if overridden(custom, request, user_agent_name()) {
        Seq::empty()
    } else {
        seq![
            HeaderOpView::Header {
                name: user_agent_name(),
                value: resolved_user_agent(config_ua, request),
            },
        ]
    }
}

/// All header steps of a request, in the order they are applied.
pub open spec fn planned_ops(
    config_ua: Option<Seq<char>>,
    custom: HeaderEntries,
    auth: Option<AuthView>,
    request: HeaderEntries,
) -> Seq<HeaderOpView> {
    kept_defaults(browser_default_headers(), custom, request) + user_agent_ops(
        config_ua,
        custom,
        request,
    ) + auth_ops(auth) + entry_ops(custom) + entry_ops(request)
}

/// `planned_ops` for a configuration and a request.
pub open spec fn request_plan(config: CrawlConfig, req: CrawlRequest) -> Seq<HeaderOpView> {
    planned_ops(
        opt_view(config.user_agent),
        config.custom_headers@,
        auth_opt_view(config.auth),
        req.headers@,
    )
}

/// Appends the lower-cased names of `h` to `names`.
fn push_lowered_names(names: &mut Vec<String>, h: &Headers)
    ensures
        final(names)@.len() == old(names)@.len() + h@.len(),
        forall|i: int|
            0 <= i < old(names)@.len() ==> #[trigger] final(names)@[i] == old(names)@[i],
        forall|i: int|
            0 <= i < h@.len() ==> #[trigger] final(names)@[old(names)@.len() + i]@ == ascii_lower(
                h@[i].0,
            ),
{
    let ghost start = names@.len();
    let n = h.len();
    let mut i: usize = 0;
    while i < n
        invariant
            n == h@.len(),
            i <= n,
            names@.len() == start + i,
            start == old(names)@.len(),
            forall|k: int| 0 <= k < start ==> #[trigger] names@[k] == old(names)@[k],
            forall|k: int| 0 <= k < i ==> #[trigger] names@[start + k]@ == ascii_lower(h@[k].0),
        decreases n - i,
    {
        let lowered = to_ascii_lower(h.name_at(i).as_str());
        names.push(lowered);
        i = i + 1;
    }
}

/// Whether `names` holds a string equal to `name`.
fn holds_name(names: &Vec<String>, name: &String) -> (r: bool)
    ensures
        r == exists|i: int| 0 <= i < names@.len() && #[trigger] names@[i]@ == name@,
{
    let mut i: usize = 0;
    while i < names.len()
        invariant
            i <= names@.len(),
            forall|k: int| 0 <= k < i ==> #[trigger] names@[k]@ != name@,
        decreases names@.len() - i,
    {
        if names[i] == *name {
            return true;
        }
        i = i + 1;
    }
    false
}

/// Appends one step per entry of `h`, in order.
fn push_entry_ops(ops: &mut Vec<HeaderOp>, h: &Headers)
    ensures
        ops_view(final(ops)@) == ops_view(old(ops)@) + entry_ops(h@),
{
    let n = h.len();
    let mut i: usize = 0;
    while i < n
        invariant
            n == h@.len(),
            i <= n,
            ops_view(ops@) == ops_view(old(ops)@) + entry_ops(h@.take(i as int)),
        decreases n - i,
    {
        let ghost before = ops@;
        ops.push(HeaderOp::Header { name: h.name_at(i).clone(), value: h.value_at(i).clone() });
        assert(ops_view(ops@) =~= ops_view(before).push(ops@[ops@.len() - 1]@));
        assert(entry_ops(h@.take(i + 1)) =~= entry_ops(h@.take(i as int)).push(
            HeaderOpView::Header { name: h@[i as int].0, value: h@[i as int].1 },
        ));
        i = i + 1;
    }
    assert(h@.take(n as int) =~= h@);
}

/// The header steps for fetching `req` under `config` (the logic of applying
/// auth, browser defaults and caller headers to a request builder).
pub fn plan_headers(config: &CrawlConfig, req: &CrawlRequest) -> (r: Vec<HeaderOp>)
    ensures
        ops_view(r@) == request_plan(*config, *req),
{
    let custom = &config.custom_headers;
    let request = &req.headers;
    // Lower-cased names the caller supplies.
    let mut names: Vec<String> = Vec::new();
    push_lowered_names(&mut names, custom);
    let ghost nc = custom@.len();
    let ghost first_names = names@;
    assert forall|i: int| 0 <= i < nc implies #[trigger] first_names[i]@ == ascii_lower(custom@[i].0) by {
        assert(first_names[0 + i] == first_names[i]);
    }
    push_lowered_names(&mut names, request);
    assert forall|i: int| 0 <= i < nc implies #[trigger] names@[i]@ == ascii_lower(custom@[i].0) by {
        assert(names@[i] == first_names[i]);
    }
    assert(forall|s: Seq<char>|
        (exists|i: int| 0 <= i < names@.len() && #[trigger] names@[i]@ == s) <==> overridden(
            custom@,
            request@,
            s,
        )) by {
        assert forall|s: Seq<char>|
            (exists|i: int| 0 <= i < names@.len() && #[trigger] names@[i]@ == s) implies overridden(
            custom@,
            request@,
            s,
        ) by {
            let i = choose|i: int| 0 <= i < names@.len() && #[trigger] names@[i]@ == s;
            if i < nc {
                assert(ascii_lower(custom@[i].0) == s);
            } else {
                assert(names@[nc + (i - nc)] == names@[i]);
                assert(ascii_lower(request@[i - nc].0) == s);
            }
        }
        assert forall|s: Seq<char>|
            overridden(custom@, request@, s) implies (exists|i: int|
                0 <= i < names@.len() && #[trigger] names@[i]@ == s) by {
            if names_lowered_contain(custom@, s) {
                let i = choose|i: int| 0 <= i < custom@.len() && ascii_lower(#[trigger] custom@[i].0) == s;
                assert(names@[i]@ == s);
            } else {
                let i = choose|i: int| 0 <= i < request@.len() && ascii_lower(#[trigger] request@[i].0) == s;
                assert(names@[nc + i]@ == s);
            }
        }
    }

    let mut ops: Vec<HeaderOp> = Vec::new();
    // Browser defaults the caller does not override.
    let defaults = default_browser_headers();
    let nd = defaults.len();
    let mut i: usize = 0;
    while i < nd
        invariant
            nd == defaults@.len(),
            defaults@ == browser_default_headers(),
            i <= nd,
            forall|s: Seq<char>|
                (exists|k: int| 0 <= k < names@.len() && #[trigger] names@[k]@ == s) <==> overridden(
                    custom@,
                    request@,
                    s,
                ),
            ops_view(ops@) == kept_defaults(defaults@.take(i as int), custom@, request@),
        decreases nd - i,
    {
        let lowered = to_ascii_lower(defaults.name_at(i).as_str());
        let ghost before = ops@;
        assert(defaults@.take(i + 1).drop_last() =~= defaults@.take(i as int));
        if !holds_name(&names, &lowered) {
            ops.push(
                HeaderOp::Header {
                    name: defaults.name_at(i).clone(),
                    value: defaults.value_at(i).clone(),
                },
            );
            assert(ops_view(ops@) =~= ops_view(before).push(ops@[ops@.len() - 1]@));
        }
        i = i + 1;
    }
    assert(defaults@.take(nd as int) =~= defaults@);

    // The user agent, unless the caller supplies one.
    let ua_name = "user-agent".to_owned();
    if !holds_name(&names, &ua_name) {
        let ua: String = match &config.user_agent {
            Some(u) => u.clone(),
            None => match request.get("user-agent") {
                Some(u) => u.clone(),
                None => default_user_agent().to_owned(),
            },
        };
        let ghost before = ops@;
        ops.push(HeaderOp::Header { name: ua_name, value: ua });
        assert(ops_view(ops@) =~= ops_view(before).push(ops@[ops@.len() - 1]@));
    }
    let ghost after_ua = ops_view(ops@);
    assert(after_ua =~= kept_defaults(browser_default_headers(), custom@, request@)
        + user_agent_ops(opt_view(config.user_agent), custom@, request@));

    // Credentials.
    match &config.auth {
        Some(AuthConfig::Basic { username, password }) => {
            ops.push(HeaderOp::BasicAuth { username: username.clone(), password: password.clone() });
        },
        Some(AuthConfig::Bearer { token }) => {
            ops.push(HeaderOp::BearerAuth { token: token.clone() });
        },
        Some(AuthConfig::Header { name, value }) => {
            ops.push(HeaderOp::Header { name: name.clone(), value: value.clone() });
        },
        None => {},
    }
    assert(ops_view(ops@) =~= after_ua + auth_ops(auth_opt_view(config.auth)));

    // Caller headers, configuration first, then the request's.
    push_entry_ops(&mut ops, custom);
    push_entry_ops(&mut ops, request);
    ops
}


/// Caller-supplied headers win over the browser defaults: every default that
/// survives is one whose lower-cased name the caller does not supply, and
/// every default whose name the caller does not supply survives.
pub proof fn lemma_caller_headers_override_defaults(
    defaults: HeaderEntries,
    custom: HeaderEntries,
    request: HeaderEntries,
)
    ensures
        forall|k: int|
            0 <= k < kept_defaults(defaults, custom, request).len() ==> {
                let op = #[trigger] kept_defaults(defaults, custom, request)[k];
                &&& op is Header
                &&& !overridden(custom, request, ascii_lower(op->Header_name))
                &&& exists|j: int|
                    0 <= j < defaults.len() && #[trigger] defaults[j] == (
                        op->Header_name,
                        op->Header_value,
                    )
            },
        forall|j: int|
            0 <= j < defaults.len() && !overridden(custom, request, ascii_lower(#[trigger] defaults[j].0))
                ==> kept_defaults(defaults, custom, request).contains(
                HeaderOpView::Header { name: defaults[j].0, value: defaults[j].1 },
            ),
    decreases defaults.len(),
{
    if defaults.len() > 0 {
        let prev = defaults.drop_last();
        lemma_caller_headers_override_defaults(prev, custom, request);
        let kept = kept_defaults(defaults, custom, request);
        let kept_prev = kept_defaults(prev, custom, request);
        assert forall|k: int| 0 <= k < kept.len() implies {
            let op = #[trigger] kept[k];
            &&& op is Header
            &&& !overridden(custom, request, ascii_lower(op->Header_name))
            &&& exists|j: int|
                0 <= j < defaults.len() && #[trigger] defaults[j] == (
                    op->Header_name,
                    op->Header_value,
                )
        } by {
            if k < kept_prev.len() {
                assert(kept[k] == kept_prev[k]);
                let op = kept_prev[k];
                let j = choose|j: int|
                    0 <= j < prev.len() && #[trigger] prev[j] == (op->Header_name, op->Header_value);
                assert(defaults[j] == prev[j]);
            } else {
                assert(defaults[defaults.len() - 1] == defaults.last());
            }
        }
        assert forall|j: int|
            0 <= j < defaults.len() && !overridden(custom, request, ascii_lower(#[trigger] defaults[j].0))
                implies kept.contains(HeaderOpView::Header { name: defaults[j].0, value: defaults[j].1 }) by {
            let target = HeaderOpView::Header { name: defaults[j].0, value: defaults[j].1 };
            if j < prev.len() {
                assert(prev[j] == defaults[j]);
                assert(kept_prev.contains(target));
                let k = choose|k: int| 0 <= k < kept_prev.len() && kept_prev[k] == target;
                assert(kept[k] == kept_prev[k]);
            } else {
                assert(kept[kept.len() - 1] == target);
            }
        }
    }
}

/// The browser defaults leave the user agent to the caller: no default header
/// name lower-cases to `user-agent`.
pub proof fn lemma_defaults_leave_user_agent_to_caller()
    ensures
        forall|j: int|
            0 <= j < browser_default_headers().len() ==> ascii_lower(
                #[trigger] browser_default_headers()[j].0,
            ) != user_agent_name(),
{
    reveal_strlit("user-agent");
    reveal_strlit("accept");
    reveal_strlit("accept-language");
    reveal_strlit("sec-ch-ua");
    reveal_strlit("sec-ch-ua-mobile");
    reveal_strlit("sec-ch-ua-platform");
    reveal_strlit("sec-fetch-site");
    reveal_strlit("sec-fetch-mode");
    reveal_strlit("sec-fetch-dest");
    reveal_strlit("upgrade-insecure-requests");
    let d = browser_default_headers();
    assert forall|j: int| 0 <= j < d.len() implies ascii_lower(#[trigger] d[j].0) != user_agent_name() by {
        assert(ascii_lower(d[j].0).len() == d[j].0.len());
        if d[j].0.len() == 10 {
            assert(false);
        }
    }
}


/// When the caller overrides none of the defaults, all of them are applied,
/// in order.
pub proof fn lemma_nothing_overridden_keeps_all_defaults(
    defaults: HeaderEntries,
    custom: HeaderEntries,
    request: HeaderEntries,
)
    requires
        forall|j: int|
            0 <= j < defaults.len() ==> !overridden(custom, request, ascii_lower(#[trigger] defaults[j].0)),
    ensures
        kept_defaults(defaults, custom, request) == entry_ops(defaults),
    decreases defaults.len(),
{
    if defaults.len() > 0 {
        let prev = defaults.drop_last();
        assert forall|j: int| 0 <= j < prev.len() implies !overridden(
            custom,
            request,
            ascii_lower(#[trigger] prev[j].0),
        ) by {
            assert(prev[j] == defaults[j]);
        }
        lemma_nothing_overridden_keeps_all_defaults(prev, custom, request);
        assert(!overridden(custom, request, ascii_lower(defaults[defaults.len() - 1].0)));
        assert(entry_ops(defaults) =~= entry_ops(prev).push(
            HeaderOpView::Header { name: defaults.last().0, value: defaults.last().1 },
        ));
    }
}

/// A request with no configured or per-request headers, no configured user
/// agent and no credentials carries every browser default, then the browser
/// user agent.
pub proof fn lemma_default_request_plan()
    ensures
        planned_ops(None, Seq::empty(), None, Seq::empty()) == entry_ops(browser_default_headers())
            + seq![HeaderOpView::Header { name: user_agent_name(), value: browser_user_agent() }],
{
    let empty = Seq::<(Seq<char>, Seq<char>)>::empty();
    assert(!overridden(empty, empty, user_agent_name()));
    assert forall|j: int| 0 <= j < browser_default_headers().len() implies !overridden(
        empty,
        empty,
        ascii_lower(#[trigger] browser_default_headers()[j].0),
    ) by {}
    lemma_nothing_overridden_keeps_all_defaults(browser_default_headers(), empty, empty);
    assert(lookup(empty, user_agent_name()) is None);
    assert(entry_ops(empty) =~= Seq::<HeaderOpView>::empty());
    assert(planned_ops(None, empty, None, empty) =~= entry_ops(browser_default_headers())
        + seq![HeaderOpView::Header { name: user_agent_name(), value: browser_user_agent() }]);
}


/// No more defaults survive than there are defaults.
pub proof fn lemma_kept_defaults_len(defaults: HeaderEntries, custom: HeaderEntries, request: HeaderEntries)
    ensures
        kept_defaults(defaults, custom, request).len() <= defaults.len(),
    decreases defaults.len(),
{
    if defaults.len() > 0 {
        lemma_kept_defaults_len(defaults.drop_last(), custom, request);
    }
}

/// A request's header plan has at most eleven steps beyond one per configured
/// and per-request header: the nine defaults, the user agent and the
/// credentials.
pub proof fn lemma_plan_len(
    config_ua: Option<Seq<char>>,
    custom: HeaderEntries,
    auth: Option<AuthView>,
    request: HeaderEntries,
)
    ensures
        planned_ops(config_ua, custom, auth, request).len() <= 11 + custom.len() + request.len(),
{
    lemma_kept_defaults_len(browser_default_headers(), custom, request);
    assert(browser_default_headers().len() == 9);
}


/// The user-agent header name is already lower-case.
proof fn lemma_user_agent_name_is_lower()
    ensures
        ascii_lower(user_agent_name()) == user_agent_name(),
{
    reveal_strlit("user-agent");
    assert(ascii_lower(user_agent_name()) =~= user_agent_name());
}

/// A header the caller supplies (in the configuration or on the request)
/// replaces every browser default of the same name: each header step of a
/// request's plan whose name matches, after ASCII lower-casing, the name of a
/// configured or per-request header applies a header that the caller gave
/// (a configured header, a per-request header, or the credential header),
/// never a browser default or the default user agent.
pub proof fn lemma_caller_names_carry_caller_headers(config: CrawlConfig, req: CrawlRequest, k: int)
    requires
        0 <= k < request_plan(config, req).len(),
        request_plan(config, req)[k] is Header,
        (exists|i: int|
            0 <= i < config.custom_headers@.len() && ascii_lower(#[trigger] config.custom_headers@[i].0)
                == ascii_lower(request_plan(config, req)[k]->Header_name)) || (exists|i: int|
            0 <= i < req.headers@.len() && ascii_lower(#[trigger] req.headers@[i].0) == ascii_lower(
                request_plan(config, req)[k]->Header_name,
            )),
    ensures
        ({
            let op = request_plan(config, req)[k];
            ||| exists|j: int|
                0 <= j < config.custom_headers@.len() && #[trigger] config.custom_headers@[j] == (
                    op->Header_name,
                    op->Header_value,
                )
            ||| exists|j: int|
                0 <= j < req.headers@.len() && #[trigger] req.headers@[j] == (
                    op->Header_name,
                    op->Header_value,
                )
            ||| auth_opt_view(config.auth) == Some(
                AuthView::Header { name: op->Header_name, value: op->Header_value },
            )
        }),
{
    let custom = config.custom_headers@;
    let request = req.headers@;
    let ua = opt_view(config.user_agent);
    let auth = auth_opt_view(config.auth);
    let a = kept_defaults(browser_default_headers(), custom, request);
    let b = user_agent_ops(ua, custom, request);
    let c = auth_ops(auth);
    let d = entry_ops(custom);
    let e = entry_ops(request);
    let plan = request_plan(config, req);
    assert(plan == a + b + c + d + e);
    let op = plan[k];
    let lname = ascii_lower(op->Header_name);
    assert(overridden(custom, request, lname)) by {
        if exists|i: int| 0 <= i < custom.len() && ascii_lower(#[trigger] custom[i].0) == lname {
            let i = choose|i: int| 0 <= i < custom.len() && ascii_lower(#[trigger] custom[i].0) == lname;
            assert(names_lowered_contain(custom, lname));
        } else {
            let i = choose|i: int| 0 <= i < request.len() && ascii_lower(#[trigger] request[i].0) == lname;
            assert(names_lowered_contain(request, lname));
        }
    }
    if k < a.len() {
        lemma_caller_headers_override_defaults(browser_default_headers(), custom, request);
        assert(op == a[k]);
        assert(!overridden(custom, request, ascii_lower(a[k]->Header_name)));
        assert(false);
    } else if k < a.len() + b.len() {
        lemma_user_agent_name_is_lower();
        assert(op == b[k - a.len()]);
        assert(!overridden(custom, request, user_agent_name()));
        assert(false);
    } else if k < a.len() + b.len() + c.len() {
        assert(op == c[k - a.len() - b.len()]);
    } else if k < a.len() + b.len() + c.len() + d.len() {
        let j = k - a.len() - b.len() - c.len();
        assert(op == d[j]);
        assert(custom[j] == (op->Header_name, op->Header_value));
    } else {
        let j = k - a.len() - b.len() - c.len() - d.len();
        assert(op == e[j]);
        assert(request[j] == (op->Header_name, op->Header_value));
    }
}


/// The configured headers and then the per-request headers are applied last,
/// each table in its own order: a per-request header is applied after every
/// configured header, every default, the user agent and the credentials.
pub proof fn lemma_caller_headers_applied_last(config: CrawlConfig, req: CrawlRequest)
    ensures
        request_plan(config, req).len() >= config.custom_headers@.len() + req.headers@.len(),
        forall|j: int|
            0 <= j < config.custom_headers@.len() ==> (#[trigger] request_plan(config, req)[request_plan(
                config,
                req,
            ).len() - config.custom_headers@.len() - req.headers@.len() + j] == (HeaderOpView::Header {
                name: config.custom_headers@[j].0,
                value: config.custom_headers@[j].1,
            })),
        forall|j: int|
            0 <= j < req.headers@.len() ==> (#[trigger] request_plan(config, req)[request_plan(config, req).len()
                - req.headers@.len() + j] == (HeaderOpView::Header {
                name: req.headers@[j].0,
                value: req.headers@[j].1,
            })),
{
    let custom = config.custom_headers@;
    let request = req.headers@;
    let head = kept_defaults(browser_default_headers(), custom, request) + user_agent_ops(
        opt_view(config.user_agent),
        custom,
        request,
    ) + auth_ops(auth_opt_view(config.auth));
    let d = entry_ops(custom);
    let e = entry_ops(request);
    let plan = request_plan(config, req);
    assert(plan == head + d + e);
    assert forall|j: int| 0 <= j < custom.len() implies #[trigger] plan[plan.len() - custom.len() - request.len()
        + j] == HeaderOpView::Header { name: custom[j].0, value: custom[j].1 } by {
        assert(plan[head.len() + j] == d[j]);
    }
    assert forall|j: int| 0 <= j < request.len() implies #[trigger] plan[plan.len() - request.len() + j]
        == HeaderOpView::Header { name: request[j].0, value: request[j].1 } by {
        assert(plan[head.len() + d.len() + j] == e[j]);
    }
}

/// A browser default whose name no configured or per-request header shares
/// (after ASCII lower-casing) is applied, before the caller's headers.
pub proof fn lemma_unshadowed_defaults_applied(config: CrawlConfig, req: CrawlRequest, j: int)
    requires
        0 <= j < browser_default_headers().len(),
        forall|i: int|
            0 <= i < config.custom_headers@.len() ==> ascii_lower(#[trigger] config.custom_headers@[i].0)
                != ascii_lower(browser_default_headers()[j].0),
        forall|i: int|
            0 <= i < req.headers@.len() ==> ascii_lower(#[trigger] req.headers@[i].0) != ascii_lower(
                browser_default_headers()[j].0,
            ),
    ensures
        exists|k: int|
            0 <= k < request_plan(config, req).len() - config.custom_headers@.len() - req.headers@.len()
                && (#[trigger] request_plan(config, req)[k] == (HeaderOpView::Header {
                name: browser_default_headers()[j].0,
                value: browser_default_headers()[j].1,
            })),
{
    let custom = config.custom_headers@;
    let request = req.headers@;
    let defaults = browser_default_headers();
    let a = kept_defaults(defaults, custom, request);
    let rest = user_agent_ops(opt_view(config.user_agent), custom, request) + auth_ops(
        auth_opt_view(config.auth),
    );
    let plan = request_plan(config, req);
    assert(plan == a + rest + entry_ops(custom) + entry_ops(request));
    assert(!overridden(custom, request, ascii_lower(defaults[j].0)));
    lemma_caller_headers_override_defaults(defaults, custom, request);
    let target = HeaderOpView::Header { name: defaults[j].0, value: defaults[j].1 };
    assert(a.contains(target));
    let k = choose|k: int| 0 <= k < a.len() && a[k] == target;
    assert(plan[k] == a[k]);
}

/// When no configured or per-request header is named `user-agent` (after
/// ASCII lower-casing), the request carries a user agent before the caller's
/// headers: the configured one, else the browser default.
pub proof fn lemma_user_agent_applied(config: CrawlConfig, req: CrawlRequest)
    requires
        forall|i: int|
            0 <= i < config.custom_headers@.len() ==> ascii_lower(#[trigger] config.custom_headers@[i].0)
                != "user-agent"@,
        forall|i: int| 0 <= i < req.headers@.len() ==> ascii_lower(#[trigger] req.headers@[i].0) != "user-agent"@,
    ensures
        exists|k: int|
            0 <= k < request_plan(config, req).len() - config.custom_headers@.len() - req.headers@.len()
                && (#[trigger] request_plan(config, req)[k] == (HeaderOpView::Header {
                name: "user-agent"@,
                value: (match config.user_agent {
                    Some(u) => u@,
                    None => browser_user_agent(),
                }),
            })),
{
    let custom = config.custom_headers@;
    let request = req.headers@;
    let a = kept_defaults(browser_default_headers(), custom, request);
    let b = user_agent_ops(opt_view(config.user_agent), custom, request);
    let plan = request_plan(config, req);
    assert(plan == a + b + auth_ops(auth_opt_view(config.auth)) + entry_ops(custom) + entry_ops(request));
    assert(!overridden(custom, request, user_agent_name()));
    lemma_user_agent_name_is_lower();
    assert(!has_key(request, user_agent_name())) by {
        if has_key(request, user_agent_name()) {
            let i = choose|i: int| 0 <= i < request.len() && #[trigger] request[i].0 == user_agent_name();
            assert(ascii_lower(request[i].0) == user_agent_name());
        }
    }
    assert(plan[a.len() as int] == b[0]);
}

} // verus!

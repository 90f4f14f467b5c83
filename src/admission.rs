//! Per-request admission against the resolved credential, and the
//! request-scoped context (raw headers and decoded identity) handed downstream.
use crate::text::{has_prefix, split_on, split_text, starts_with, views};
use crate::token::{decode_iap_jwt, token_accepted, IapContext};
use vstd::prelude::*;

verus! {

/// Where admission looks for things on a request. Header names are given in the
/// lower-case form in which HTTP header maps hand them out.
pub struct AuthConfig {
    /// The path that is admitted without any check.
    pub health_path: String,
    /// The header that may carry the credential.
    pub key_header: String,
    /// The query parameter that may carry the credential; `None` when only the
    /// header is accepted.
    pub key_query_param: Option<String>,
    /// The header that carries the forwarded identity token.
    pub identity_header: String,
}

pub struct AuthConfigView {
    pub health_path: Seq<char>,
    pub key_header: Seq<char>,
    pub key_query_param: Option<Seq<char>>,
    pub identity_header: Seq<char>,
}

/// The view of an optional string.
pub open spec fn opt_view(o: Option<String>) -> Option<Seq<char>> {
    match o {
        Some(s) => Some(s@),
        None => None,
    }
}

impl View for AuthConfig {
    type V = AuthConfigView;

    open spec fn view(&self) -> AuthConfigView {
        AuthConfigView {
            health_path: self.health_path@,
            key_header: self.key_header@,
            key_query_param: opt_view(self.key_query_param),
            identity_header: self.identity_header@,
        }
    }
}

/// What admission reads of an inbound request. A header value is `None` when it
/// is not valid text.
pub struct RequestHead {
    pub path: String,
    pub query: Option<String>,
    pub headers: Vec<(String, Option<String>)>,
}

pub type HeadersView = Seq<(Seq<char>, Option<Seq<char>>)>;

pub struct RequestHeadView {
    pub path: Seq<char>,
    pub query: Option<Seq<char>>,
    pub headers: HeadersView,
}

pub open spec fn headers_view(h: Seq<(String, Option<String>)>) -> HeadersView {
    h.map_values(|p: (String, Option<String>)| (p.0@, opt_view(p.1)))
}

impl View for RequestHead {
    type V = RequestHeadView;

    open spec fn view(&self) -> RequestHeadView {
        RequestHeadView {
            path: self.path@,
            query: opt_view(self.query),
            headers: headers_view(self.headers@),
        }
    }
}

/// What downstream handlers of one admitted request see: every header as
/// received, in order, and the decoded identity if one came.
pub struct RequestContext {
    pub headers: Vec<(String, String)>,
    pub identity: Option<IapContext>,
}

pub open spec fn pairs_view(h: Seq<(String, String)>) -> Seq<(Seq<char>, Seq<char>)> {
    h.map_values(|p: (String, String)| (p.0@, p.1@))
}

pub enum Admission {
    Admitted(RequestContext),
    Rejected,
}

/// The value of the first header named `name`: `None` when there is none,
/// `Some(None)` when its value is not text.
pub open spec fn header_lookup(h: HeadersView, name: Seq<char>) -> Option<Option<Seq<char>>>
    decreases h.len(),
{
    if h.len() == 0 {
        None
    } else if h[0].0 == name {
        Some(h[0].1)
    } else {
        header_lookup(h.drop_first(), name)
    }
}

/// The text of the first header named `name`, when there is one and it is text.
pub open spec fn header_text(h: HeadersView, name: Seq<char>) -> Option<Seq<char>> {
    match header_lookup(h, name) {
        Some(Some(v)) => Some(v),
        _ => None,
    }
}

/// What follows the prefix in the first part that starts with it.
pub open spec fn first_with_prefix(parts: Seq<Seq<char>>, p: Seq<char>) -> Option<Seq<char>>
    decreases parts.len(),
{
    if parts.len() == 0 {
        None
    } else if has_prefix(parts[0], p) {
        Some(parts[0].skip(p.len() as int))
    } else {
        first_with_prefix(parts.drop_first(), p)
    }
}

/// The value of the first `name=value` pair of a query string.
pub open spec fn query_param(q: Seq<char>, name: Seq<char>) -> Option<Seq<char>> {
    first_with_prefix(split_on(q, '&'), name + seq!['='])
}

/// The request carries `key` in the credential header, or in the credential
/// query parameter where one is configured.
pub open spec fn presents_key(c: AuthConfigView, key: Seq<char>, req: RequestHeadView) -> bool {
    header_text(req.headers, c.key_header) == Some(key) || match (c.key_query_param, req.query) {
        (Some(name), Some(q)) => query_param(q, name) == Some(key),
        _ => false,
    }
}

/// Admission lets through the health path always, every request when no credential was
/// resolved, and otherwise the requests that present it.
pub open spec fn admits(c: AuthConfigView, expected: Option<Seq<char>>, req: RequestHeadView) -> bool {
    req.path == c.health_path || match expected {
        None => true,
        Some(key) => presents_key(c, key, req),
    }
}

/// The marker that stands for a header value that is not text.
pub open spec fn non_text_marker() -> Seq<char> {
    seq!['<', 'n', 'o', 'n', '-', 'u', 't', 'f', '8', '>']
}

/// The headers as downstream handlers see them.
pub open spec fn captured(h: HeadersView) -> Seq<(Seq<char>, Seq<char>)> {
    h.map_values(
        |p: (Seq<char>, Option<Seq<char>>)|
            (
                p.0,
                match p.1 {
                    Some(v) => v,
                    None => non_text_marker(),
                },
            ),
    )
}

/// An identity is published exactly when the identity header is text that
/// decodes.
pub open spec fn identity_decodes(c: AuthConfigView, req: RequestHeadView) -> bool {
    match header_text(req.headers, c.identity_header) {
        Some(token) => token_accepted(token),
        None => false,
    }
}

impl AuthConfig {
    /// The usual names: `/health`, the `x-goog-api-key` header or the `key`
    /// query parameter, and the `x-goog-iap-jwt-assertion` identity header.
    pub fn standard() -> (r: AuthConfig)
        ensures
            r.health_path@ == "/health"@,
            r.key_header@ == "x-goog-api-key"@,
            r.key_query_param is Some && r.key_query_param->Some_0@ == "key"@,
            r.identity_header@ == "x-goog-iap-jwt-assertion"@,
    {
        AuthConfig {
            health_path: String::from_str("/health"),
            key_header: String::from_str("x-goog-api-key"),
            key_query_param: Some(String::from_str("key")),
            identity_header: String::from_str("x-goog-iap-jwt-assertion"),
        }
    }

    /// As `standard`, but the credential is read from the header only.
    pub fn header_only() -> (r: AuthConfig)
        ensures
            r.health_path@ == "/health"@,
            r.key_header@ == "x-goog-api-key"@,
            r.key_query_param is None,
            r.identity_header@ == "x-goog-iap-jwt-assertion"@,
    {
        AuthConfig {
            health_path: String::from_str("/health"),
            key_header: String::from_str("x-goog-api-key"),
            key_query_param: None,
            identity_header: String::from_str("x-goog-iap-jwt-assertion"),
        }
    }
}

/// The text of the first header named `name`.
pub fn find_header(headers: &Vec<(String, Option<String>)>, name: &String) -> (r: Option<String>)
    ensures
        opt_view(r) == header_text(headers_view(headers@), name@),
{
    let ghost h = headers_view(headers@);
    let mut i: usize = 0;
    assert(h.skip(0) =~= h);
    while i < headers.len()
        invariant
            h == headers_view(headers@),
            i <= headers.len(),
            header_lookup(h, name@) == header_lookup(h.skip(i as int), name@),
        decreases headers.len() - i,
    {
        assert(h.skip(i as int).drop_first() =~= h.skip(i + 1));
        assert(h.skip(i as int)[0] == h[i as int]);
        if headers[i].0 == *name {
            return match &headers[i].1 {
                Some(v) => Some(v.clone()),
                None => None,
            };
        }
        i += 1;
    }
    assert(h.skip(i as int).len() == 0);
    None
}

/// The value of the first `name=value` pair of a query string.
pub fn find_query_param(query: &str, name: &str) -> (r: Option<String>)
    ensures
        opt_view(r) == query_param(query@, name@),
{
    let parts = split_text(query, '&');
    let prefix = String::from_str(name).concat("=");
    proof {
        reveal_strlit("=");
        assert(prefix@ =~= name@ + seq!['=']);
    }
    let ghost pv = views(parts@);
    let plen = prefix.as_str().unicode_len();
    let mut i: usize = 0;
    assert(pv.skip(0) =~= pv);
    while i < parts.len()
        invariant
            pv == views(parts@),
            pv.len() == parts@.len(),
            pv == split_on(query@, '&'),
            plen == prefix@.len(),
            prefix@ == name@ + seq!['='],
            i <= parts.len(),
            first_with_prefix(pv, prefix@) == first_with_prefix(pv.skip(i as int), prefix@),
        decreases parts.len() - i,
    {
        assert(pv.skip(i as int).drop_first() =~= pv.skip(i + 1));
        assert(pv.skip(i as int)[0] == parts@[i as int]@);
        let part = parts[i].as_str();
        if starts_with(part, prefix.as_str()) {
            let n = part.unicode_len();
            let value = String::from_str(part.substring_char(plen, n));
            assert(value@ =~= part@.skip(plen as int));
            assert(has_prefix(pv.skip(i as int)[0], prefix@));
            assert(first_with_prefix(pv.skip(i as int), prefix@) == Some(
                pv.skip(i as int)[0].skip(prefix@.len() as int),
            ));
            return Some(value);
        }
        i += 1;
    }
    assert(pv.skip(i as int).len() == 0);
    None
}

/// Whether the request carries the expected credential where admission reads it.
pub fn presents_credential(config: &AuthConfig, key: &String, req: &RequestHead) -> (r: bool)
    ensures
        r == presents_key(config@, key@, req@),
{
    let from_header = find_header(&req.headers, &config.key_header);
    match from_header {
        Some(v) => {
            if v == *key {
                return true;
            }
        },
        None => {},
    }
    match (&config.key_query_param, &req.query) {
        (Some(name), Some(q)) => match find_query_param(q.as_str(), name.as_str()) {
            Some(v) => v == *key,
            None => false,
        },
        _ => false,
    }
}

/// The admission decision alone.
pub fn is_admitted(config: &AuthConfig, expected: &Option<String>, req: &RequestHead) -> (r: bool)
    ensures
        r == admits(config@, opt_view(*expected), req@),
{
    if req.path == config.health_path {
        return true;
    }
    match expected {
        None => true,
        Some(key) => presents_credential(config, key, req),
    }
}

/// Every header of the request, in order, with the marker for values that are
/// not text.
pub fn capture_headers(headers: &Vec<(String, Option<String>)>) -> (r: Vec<(String, String)>)
    ensures
        pairs_view(r@) == captured(headers_view(headers@)),
{
    let mut out: Vec<(String, String)> = Vec::new();
    let mut i: usize = 0;
    while i < headers.len()
        invariant
            i <= headers.len(),
            pairs_view(out@) == captured(headers_view(headers@).take(i as int)),
        decreases headers.len() - i,
    {
        let name = headers[i].0.clone();
        let value = match &headers[i].1 {
            Some(v) => v.clone(),
            None => String::from_str("<non-utf8>"),
        };
        proof {
            reveal_strlit("<non-utf8>");
            assert("<non-utf8>"@ =~= non_text_marker());
        }
        let ghost before = pairs_view(out@);
        out.push((name, value));
        proof {
            assert(pairs_view(out@) =~= before.push((name@, value@)));
            assert(headers_view(headers@).take(i + 1) =~= headers_view(headers@).take(
                i as int,
            ).push(headers_view(headers@)[i as int]));
            assert(captured(headers_view(headers@).take(i + 1)) =~= captured(
                headers_view(headers@).take(i as int),
            ).push((name@, value@)));
        }
        i += 1;
    }
    assert(headers_view(headers@).take(i as int) =~= headers_view(headers@));
    out
}

/// The decoded identity token of the request, when the identity header is text
/// that decodes.
pub fn request_identity(config: &AuthConfig, req: &RequestHead) -> (r: Option<IapContext>)
    ensures
        r is Some <==> identity_decodes(config@, req@),
{
    match find_header(&req.headers, &config.identity_header) {
        Some(token) => decode_iap_jwt(token.as_str()),
        None => None,
    }
}

/// Runs admission on one request: rejects it, or admits it with the context that
/// its downstream handlers see.
pub fn authenticate(config: &AuthConfig, expected: &Option<String>, req: &RequestHead) -> (r:
    Admission)
    ensures
        r is Rejected <==> !admits(config@, opt_view(*expected), req@),
        r matches Admission::Admitted(ctx) ==> pairs_view(ctx.headers@) == captured(req@.headers)
            && (ctx.identity is Some <==> identity_decodes(config@, req@)),
{
    if !is_admitted(config, expected, req) {
        return Admission::Rejected;
    }
    let headers = capture_headers(&req.headers);
    let identity = request_identity(config, req);
    Admission::Admitted(RequestContext { headers, identity })
}

/// With a resolved credential `key`, a request off the health path whose
/// credential header holds exactly `key` is admitted.
pub proof fn lemma_matching_header_admitted(c: AuthConfigView, key: Seq<char>, req: RequestHeadView)
    requires
        header_text(req.headers, c.key_header) == Some(key),
    ensures
        admits(c, Some(key), req),
{
}

/// With a resolved credential `key`, a request off the health path whose
/// credential header holds any other value (or is absent), and that carries no
/// query string or is read by a header-only configuration, is rejected.
pub proof fn lemma_other_value_rejected(c: AuthConfigView, key: Seq<char>, req: RequestHeadView)
    requires
        req.path != c.health_path,
        header_text(req.headers, c.key_header) != Some(key),
        req.query is None || c.key_query_param is None,
    ensures
        !admits(c, Some(key), req),
{
}

/// The health path is admitted whatever the credential and the headers.
pub proof fn lemma_health_path_admitted(
    c: AuthConfigView,
    expected: Option<Seq<char>>,
    req: RequestHeadView,
)
    requires
        req.path == c.health_path,
    ensures
        admits(c, expected, req),
{
}

/// Without a resolved credential every request is admitted.
pub proof fn lemma_no_credential_admits_all(c: AuthConfigView, req: RequestHeadView)
    ensures
        admits(c, None, req),
{
}

} // verus!

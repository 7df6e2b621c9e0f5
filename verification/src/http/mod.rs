//! The Confluence REST client's own logic: endpoint addresses, authentication,
//! page ids from URLs, pagination links, and the shape of requests. Sending the
//! requests is the host's work.
use vstd::prelude::*;

pub mod dto;

pub mod pages;

use reqwest::blocking::{Client, ClientBuilder, RequestBuilder};

use crate::config::{opt_view, AuthKind};
use crate::domain::{CommentLocation, PageId, PageRef, PageRefView};
use crate::error::{ConfluenceCliError, Result};
use crate::text::{
    chars_of, copy_str, find_from, parse_u64, slice_range, spec_ends_with, spec_first_occurrence_from,
    spec_occurs_at, spec_parse_u64, spec_starts_with, str_ends_with, str_eq, str_starts_with,
    string_of,
};

use self::dto::PageV1;

verus! {

#[verifier::external_type_specification]
#[verifier::external_body]
pub struct ExHttpClient(Client);

#[verifier::external_type_specification]
#[verifier::external_body]
pub struct ExHttpClientBuilder(ClientBuilder);

#[verifier::external_type_specification]
#[verifier::external_body]
pub struct ExRequestBuilder(RequestBuilder);

/// `reqwest::blocking::Client::clone`, used by the derived `Clone`: another handle to
/// the same connection pool. Nothing is claimed of it.
pub assume_specification[ <Client as Clone>::clone ](c: &Client) -> Client;

/// `reqwest::blocking::Client::builder`: a builder with the default settings.
#[verifier::external_body]
fn client_builder() -> ClientBuilder {
    Client::builder()
}

/// `reqwest::blocking::ClientBuilder::build`: the client, or the description of why it
/// could not be built (the TLS backend or the system configuration can refuse). Nothing
/// is claimed of which. It panics when called from inside an async runtime, which
/// depends on the calling context and not on the builder; this library never runs one.
#[verifier::external_body]
fn build_client(builder: ClientBuilder) -> core::result::Result<Client, String> {
    builder.build().map_err(|error| error.to_string())
}

/// `reqwest::blocking::RequestBuilder::basic_auth`: the request with an HTTP basic
/// `Authorization` header for the user and password. The header is not visible here.
#[verifier::external_body]
fn with_basic_auth(request: RequestBuilder, username: String, password: String) -> RequestBuilder {
    request.basic_auth(username, Some(password))
}

/// `reqwest::blocking::RequestBuilder::bearer_auth`: the request with an
/// `Authorization: Bearer` header for the token. The header is not visible here.
#[verifier::external_body]
fn with_bearer_auth(request: RequestBuilder, token: String) -> RequestBuilder {
    request.bearer_auth(token)
}

/// Whether `urlencoding` keeps a byte as it is: ASCII letters and digits, `-`, `.`,
/// `_` and `~`.
pub open spec fn spec_url_safe_byte(b: u8) -> bool {
    (48 <= b && b <= 57) || (65 <= b && b <= 90) || (97 <= b && b <= 122) || b == 45 || b == 46
        || b == 95 || b == 126
}

/// An upper-case hexadecimal digit.
pub open spec fn spec_hex_upper(d: u8) -> char {
    if d < 10 {
        (48 + d) as char
    } else {
        (55 + d) as char
    }
}

/// One byte encoded: kept when safe, else `%` and its two upper-case hex digits.
pub open spec fn spec_encode_byte(b: u8) -> Seq<char> {
    if spec_url_safe_byte(b) {
        seq![b as char]
    } else {
        seq!['%', spec_hex_upper(b / 16), spec_hex_upper(b % 16)]
    }
}

/// Bytes encoded one after another.
pub open spec fn spec_url_encode_bytes(bytes: Seq<u8>) -> Seq<char>
    decreases bytes.len(),
{
    if bytes.len() == 0 {
        Seq::empty()
    } else {
        spec_url_encode_bytes(bytes.drop_last()) + spec_encode_byte(bytes.last())
    }
}

/// What `urlencoding::encode` gives for a text: each byte of its UTF-8 encoding kept or
/// percent-encoded.
pub open spec fn spec_url_encode(s: Seq<char>) -> Seq<char> {
    spec_url_encode_bytes(vstd::utf8::encode_utf8(s))
}

/// `urlencoding::encode`: the text percent-encoded for a URL path or query.
#[verifier::external_body]
fn url_encode(s: &str) -> (r: String)
    ensures
        r@ == spec_url_encode(s@),
{
    urlencoding::encode(s).into_owned()
}

/// How to reach a Confluence site and authenticate there.
#[derive(Debug, Clone, PartialEq, Eq)]
pub struct HttpApiConfig {
    pub domain: String,
    pub protocol: String,
    pub api_path: String,
    pub auth_type: AuthKind,
    pub email: Option<String>,
    pub username: Option<String>,
    pub api_token: Option<String>,
    pub password: Option<String>,
}

/// The credentials a request carries.
#[derive(Debug, Clone, PartialEq, Eq)]
pub enum AuthPlan {
    Basic { identity: String, secret: String },
    Bearer { token: String },
}

/// The credentials a profile's settings give, or why they are not enough: basic
/// authentication takes the email (else the username) and the API token (else the
/// password); bearer authentication takes the API token; mutual TLS is not available.
pub open spec fn spec_auth_plan_ok(c: HttpApiConfig, p: AuthPlan) -> bool {
    match c.auth_type {
        AuthKind::Basic => p matches AuthPlan::Basic { identity, secret } && identity@ == match c.email {
            Some(e) => e@,
            None => c.username->0@,
        } && secret@ == match c.api_token {
            Some(t) => t@,
            None => c.password->0@,
        },
        AuthKind::Bearer => p matches AuthPlan::Bearer { token } && token@ == c.api_token->0@,
        AuthKind::Mtls => false,
    }
}

/// The error a profile's authentication settings give, if any, as its kind and message.
pub open spec fn spec_auth_error(c: HttpApiConfig) -> Option<(u8, Seq<char>)> {
    match c.auth_type {
        AuthKind::Basic => if c.email is None && c.username is None {
            Some((0u8, "basic auth requires email or username"@))
        } else if c.api_token is None && c.password is None {
            Some((0u8, "basic auth requires api token or password"@))
        } else {
            None
        },
        AuthKind::Bearer => if c.api_token is None {
            Some((0u8, "bearer auth requires api token"@))
        } else {
            None
        },
        AuthKind::Mtls => Some((1u8, "mTLS HTTP client setup"@)),
    }
}

/// The description of an error, for contracts.
pub open spec fn spec_error_text(e: ConfluenceCliError) -> (u8, Seq<char>) {
    match e {
        ConfluenceCliError::Config(m) => (0, m@),
        ConfluenceCliError::NotImplemented(m) => (1, m@),
        ConfluenceCliError::InvalidPageRef(m) => (2, m@),
        ConfluenceCliError::Http(m) => (3, m@),
        ConfluenceCliError::Io(m) => (4, m@),
    }
}

/// The client of a Confluence site.
#[derive(Debug, Clone)]
pub struct HttpConfluenceApi {
    client: Client,
    profile: HttpApiConfig,
}

/// The scheme, host and path of a v1 endpoint.
pub open spec fn spec_v1_url(c: HttpApiConfig, path: Seq<char>) -> Seq<char> {
    c.protocol@ + "://"@ + c.domain@ + c.api_path@ + path
}

/// The prefix of the v2 API: under `/wiki` on Atlassian Cloud sites.
pub open spec fn spec_v2_prefix(domain: Seq<char>) -> Seq<char> {
    if spec_ends_with(domain, ".atlassian.net"@) {
        "/wiki/api/v2"@
    } else {
        "/api/v2"@
    }
}

/// The scheme, host and path of a v2 endpoint.
pub open spec fn spec_v2_url(c: HttpApiConfig, path: Seq<char>) -> Seq<char> {
    c.protocol@ + "://"@ + c.domain@ + spec_v2_prefix(c.domain@) + path
}

/// A link made absolute: kept when it already names a scheme, else put under the site.
pub open spec fn spec_absolute_url(c: HttpApiConfig, path: Seq<char>) -> Seq<char> {
    if spec_starts_with(path, "http://"@) || spec_starts_with(path, "https://"@) {
        path
    } else {
        c.protocol@ + "://"@ + c.domain@ + path
    }
}

impl HttpConfluenceApi {
    /// The site settings the client was made with.
    pub closed spec fn config(&self) -> HttpApiConfig {
        self.profile
    }

    /// The HTTP client the requests are sent with.
    pub closed spec fn http_client(&self) -> Client {
        self.client
    }

    /// A link made absolute against the client's site.
    pub open spec fn spec_absolute_url(&self, path: Seq<char>) -> Seq<char> {
        spec_absolute_url(self.config(), path)
    }

    /// A client for the site; fails when the HTTP client cannot be built.
    pub fn new(profile: HttpApiConfig) -> (r: Result<Self>)
        ensures
            r matches Ok(api) ==> api.config() == profile,
            r matches Err(e) ==> (e matches ConfluenceCliError::Config(m) && spec_starts_with(
                m@,
                "failed to build HTTP client: "@,
            )),
    {
        match build_client(client_builder()) {
            Ok(client) => Ok(HttpConfluenceApi { client, profile }),
            Err(error) => {
                let mut m = copy_str("failed to build HTTP client: ");
                m.append(error.as_str());
                proof {
                    assert(m@.take("failed to build HTTP client: "@.len() as int) =~= "failed to build HTTP client: "@);
                }
                Err(ConfluenceCliError::Config(m))
            },
        }
    }

    /// The HTTP client, for sending requests.
    pub fn client(&self) -> (r: &Client)
        ensures
            *r == self.http_client(),
    {
        &self.client
    }

    /// The site settings.
    pub fn profile(&self) -> (r: &HttpApiConfig)
        ensures
            *r == self.config(),
    {
        &self.profile
    }

    /// The address of a v1 endpoint.
    pub fn v1_url(&self, path: &str) -> (r: String)
        ensures
            r@ == spec_v1_url(self.config(), path@),
    {
        let mut s = self.profile.protocol.clone();
        s.append("://");
        s.append(self.profile.domain.as_str());
        s.append(self.profile.api_path.as_str());
        s.append(path);
        s
    }

    /// The address of a v2 endpoint.
    pub fn v2_url(&self, path: &str) -> (r: String)
        ensures
            r@ == spec_v2_url(self.config(), path@),
    {
        let prefix = if str_ends_with(self.profile.domain.as_str(), ".atlassian.net") {
            "/wiki/api/v2"
        } else {
            "/api/v2"
        };
        let mut s = self.profile.protocol.clone();
        s.append("://");
        s.append(self.profile.domain.as_str());
        s.append(prefix);
        s.append(path);
        s
    }

    /// A link made absolute against the site.
    pub fn absolute_url(&self, path: &str) -> (r: String)
        ensures
            r@ == spec_absolute_url(self.config(), path@),
    {
        if str_starts_with(path, "http://") || str_starts_with(path, "https://") {
            return copy_str(path);
        }
        let mut s = self.profile.protocol.clone();
        s.append("://");
        s.append(self.profile.domain.as_str());
        s.append(path);
        s
    }

    /// The credentials requests carry under the profile's settings.
    pub fn auth_plan(&self) -> (r: Result<AuthPlan>)
        ensures
            match spec_auth_error(self.config()) {
                Some(e) => r matches Err(x) && spec_error_text(x) == e,
                None => r matches Ok(p) && spec_auth_plan_ok(self.config(), p),
            },
    {
        match self.profile.auth_type {
            AuthKind::Basic => {
                let identity = match &self.profile.email {
                    Some(e) => e.clone(),
                    None => match &self.profile.username {
                        Some(u) => u.clone(),
                        None => {
                            return Err(ConfluenceCliError::Config(copy_str("basic auth requires email or username")));
                        },
                    },
                };
                let secret = match &self.profile.api_token {
                    Some(t) => t.clone(),
                    None => match &self.profile.password {
                        Some(p) => p.clone(),
                        None => {
                            return Err(ConfluenceCliError::Config(copy_str("basic auth requires api token or password")));
                        },
                    },
                };
                Ok(AuthPlan::Basic { identity, secret })
            },
            AuthKind::Bearer => match &self.profile.api_token {
                Some(t) => Ok(AuthPlan::Bearer { token: t.clone() }),
                None => Err(ConfluenceCliError::Config(copy_str("bearer auth requires api token"))),
            },
            AuthKind::Mtls => Err(ConfluenceCliError::NotImplemented(copy_str("mTLS HTTP client setup"))),
        }
    }

    /// The request with the profile's credentials attached.
    pub fn authed(&self, request: RequestBuilder) -> (r: Result<RequestBuilder>)
        ensures
            match spec_auth_error(self.config()) {
                Some(e) => r matches Err(x) && spec_error_text(x) == e,
                None => r is Ok,
            },
    {
        match self.auth_plan()? {
            AuthPlan::Basic { identity, secret } => Ok(with_basic_auth(request, identity, secret)),
            AuthPlan::Bearer { token } => Ok(with_bearer_auth(request, token)),
        }
    }

    /// The numeric id of a page: its id, or the id read from its URL.
    pub fn resolve_page_id(&self, page: &PageRef) -> (r: Result<PageId>)
        ensures
            match page@ {
                PageRefView::Id(v) => r matches Ok(p) && p@ == v,
                PageRefView::Url(u) => match spec_extract_page_id(u) {
                    Some(v) => r matches Ok(p) && p@ == v,
                    None => r matches Err(ConfluenceCliError::InvalidPageRef(m)) && m@ == u,
                },
            },
    {
        match page {
            PageRef::Id(id) => Ok(*id),
            PageRef::Url(url) => match extract_page_id_from_url(url.as_str()) {
                Some(id) => Ok(id),
                None => Err(ConfluenceCliError::InvalidPageRef(url.clone())),
            },
        }
    }

    /// The `start` of the next page of results, read from a pagination link.
    pub fn parse_next_start(&self, next: Option<&str>) -> (r: Option<u64>)
        ensures
            r == match next {
                Some(n) => spec_next_start(n@),
                None => None,
            },
    {
        match next {
            Some(n) => next_start(n),
            None => None,
        }
    }

    /// A property key percent-encoded for a URL path.
    pub fn encode_property_key(&self, key: &str) -> (r: String)
        ensures
            r@ == spec_url_encode(key@),
    {
        url_encode(key)
    }
}

/// The name of a comment location in the API.
pub open spec fn spec_location_name(location: CommentLocation) -> Seq<char> {
    match location {
        CommentLocation::Footer => "footer"@,
        CommentLocation::Inline => "inline"@,
        CommentLocation::Resolved => "resolved"@,
    }
}

/// The name of a comment location in the API.
pub fn comment_location_name(location: CommentLocation) -> (r: &'static str)
    ensures
        r@ == spec_location_name(location),
{
    match location {
        CommentLocation::Footer => "footer",
        CommentLocation::Inline => "inline",
        CommentLocation::Resolved => "resolved",
    }
}

/// The comment location an API name stands for.
pub open spec fn spec_parse_comment_location(value: Option<Seq<char>>) -> Option<CommentLocation> {
    match value {
        Some(v) => if v == "footer"@ {
            Some(CommentLocation::Footer)
        } else if v == "inline"@ {
            Some(CommentLocation::Inline)
        } else if v == "resolved"@ {
            Some(CommentLocation::Resolved)
        } else {
            None
        },
        None => None,
    }
}

/// The comment location an API name stands for.
pub fn parse_comment_location(value: Option<&str>) -> (r: Option<CommentLocation>)
    ensures
        r == spec_parse_comment_location(match value {
            Some(v) => Some(v@),
            None => None,
        }),
{
    match value {
        Some(v) => if str_eq(v, "footer") {
            Some(CommentLocation::Footer)
        } else if str_eq(v, "inline") {
            Some(CommentLocation::Inline)
        } else if str_eq(v, "resolved") {
            Some(CommentLocation::Resolved)
        } else {
            None
        },
        None => None,
    }
}

/// Whether two pages may be moved relative to each other: when both name their space,
/// the spaces agree by id or by a key both give.
pub open spec fn spec_same_space(source: PageV1, target: PageV1) -> bool {
    match (source.space, target.space) {
        (Some(s), Some(t)) => s.id@ == t.id@ || (s.key is Some && t.key is Some && opt_view(s.key)
            == opt_view(t.key)),
        _ => true,
    }
}

/// Refuses a move between pages of different spaces.
pub fn validate_same_space(source: &PageV1, target: &PageV1) -> (r: Result<()>)
    ensures
        spec_same_space(*source, *target) ==> r is Ok,
        !spec_same_space(*source, *target) ==> (r matches Err(ConfluenceCliError::Config(m)) && m@
            == "page move across spaces is not supported"@),
{
    match (&source.space, &target.space) {
        (Some(s), Some(t)) => {
            let same_id = str_eq(s.id.as_str(), t.id.as_str());
            let same_key = match (&s.key, &t.key) {
                (Some(a), Some(b)) => str_eq(a.as_str(), b.as_str()),
                _ => false,
            };
            if !same_id && !same_key {
                return Err(ConfluenceCliError::Config(copy_str("page move across spaces is not supported")));
            }
            Ok(())
        },
        _ => Ok(()),
    }
}

/// The first position of `p` in `s`, if it occurs.
pub open spec fn spec_find(s: Seq<char>, p: Seq<char>) -> Option<int> {
    if exists|i: int| spec_first_occurrence_from(s, p, 0, i) {
        Some(choose|i: int| spec_first_occurrence_from(s, p, 0, i))
    } else {
        None
    }
}

/// The first occurrence is unique.
pub proof fn lemma_first_occurrence_unique(s: Seq<char>, p: Seq<char>, i: int, j: int)
    requires
        spec_first_occurrence_from(s, p, 0, i),
        spec_first_occurrence_from(s, p, 0, j),
    ensures
        i == j,
{
    if i < j {
        assert(!spec_occurs_at(s, p, i));
    }
    if j < i {
        assert(!spec_occurs_at(s, p, j));
    }
}

/// The ASCII digits at the start of `s`.
pub open spec fn spec_leading_digits(s: Seq<char>) -> Seq<char>
    decreases s.len(),
{
    if s.len() > 0 && '0' <= s[0] && s[0] <= '9' {
        seq![s[0]] + spec_leading_digits(s.drop_first())
    } else {
        Seq::empty()
    }
}

/// The page id written after a marker in a URL: the digits right after its first
/// occurrence, when they form a 64-bit number.
pub open spec fn spec_id_after(url: Seq<char>, marker: Seq<char>) -> Option<u64> {
    match spec_find(url, marker) {
        Some(i) => spec_parse_u64(spec_leading_digits(url.skip(i + marker.len()))),
        None => None,
    }
}

/// The page id a URL names: after `pageId=`, else after `/pages/`.
pub open spec fn spec_extract_page_id(url: Seq<char>) -> Option<u64> {
    match spec_id_after(url, "pageId="@) {
        Some(v) => Some(v),
        None => spec_id_after(url, "/pages/"@),
    }
}

fn leading_digits_from(s: &[char], from: usize) -> (r: Vec<char>)
    requires
        from <= s.len(),
    ensures
        r@ == spec_leading_digits(s@.skip(from as int)),
{
    let mut end = from;
    while end < s.len() && '0' <= s[end] && s[end] <= '9'
        invariant
            from <= end <= s.len(),
            forall|k: int| from <= k < end ==> '0' <= #[trigger] s@[k] && s@[k] <= '9',
        decreases s.len() - end,
    {
        end = end + 1;
    }
    let r = slice_range(s, from, end);
    proof {
        lemma_leading_digits(s@.skip(from as int), (end - from) as int);
        assert(s@.skip(from as int).take(end - from) == s@.subrange(from as int, end as int));
    }
    r
}

proof fn lemma_leading_digits(s: Seq<char>, n: int)
    requires
        0 <= n <= s.len(),
        forall|k: int| 0 <= k < n ==> '0' <= #[trigger] s[k] && s[k] <= '9',
        n == s.len() || !('0' <= s[n] && s[n] <= '9'),
    ensures
        spec_leading_digits(s) == s.take(n),
    decreases n,
{
    if n > 0 {
        assert forall|k: int| 0 <= k < n - 1 implies '0' <= #[trigger] s.drop_first()[k] && s.drop_first()[k] <= '9' by {
            assert(s.drop_first()[k] == s[k + 1]);
        }
        if n - 1 < s.drop_first().len() {
            assert(s.drop_first()[n - 1] == s[n]);
        }
        lemma_leading_digits(s.drop_first(), n - 1);
        assert(seq![s[0]] + s.drop_first().take(n - 1) == s.take(n));
    }
}

fn id_after(url: &[char], marker: &str) -> (r: Option<u64>)
    ensures
        r == spec_id_after(url@, marker@),
{
    let m = chars_of(marker);
    match find_from(url, m.as_slice(), 0) {
        Some(i) => {
            proof {
                assert(spec_first_occurrence_from(url@, marker@, 0, i as int));
                let c = choose|k: int| spec_first_occurrence_from(url@, marker@, 0, k);
                lemma_first_occurrence_unique(url@, marker@, i as int, c);
                assert(spec_occurs_at(url@, m@, i as int));
                assert(i + m@.len() <= url@.len());
            }
            assert(i + m.len() <= url.len());
            let digits = leading_digits_from(url, i + m.len());
            parse_u64(digits.as_slice())
        },
        None => {
            assert(!exists|k: int| spec_first_occurrence_from(url@, marker@, 0, k));
            None
        },
    }
}

/// The page id a page URL names, if it names one.
pub fn extract_page_id_from_url(url: &str) -> (r: Option<PageId>)
    ensures
        match spec_extract_page_id(url@) {
            Some(v) => r matches Some(p) && p@ == v,
            None => r is None,
        },
{
    let chars = chars_of(url);
    if let Some(v) = id_after(chars.as_slice(), "pageId=") {
        return Some(PageId::new(v));
    }
    if let Some(v) = id_after(chars.as_slice(), "/pages/") {
        return Some(PageId::new(v));
    }
    None
}

/// The `key=value` pairs of a query, split at `&`.
pub open spec fn spec_query_pairs(q: Seq<char>) -> Seq<Seq<char>>
    decreases q.len(),
{
    if crate::text::spec_find_char(q, '&') >= q.len() {
        seq![q]
    } else {
        proof {
            crate::text::lemma_find_char(q, '&');
        }
        seq![q.take(crate::text::spec_find_char(q, '&'))] + spec_query_pairs(
            q.skip(crate::text::spec_find_char(q, '&') + 1),
        )
    }
}

/// The value of a `start=` pair, when the pair is one and its value a number.
pub open spec fn spec_start_of_pair(pair: Seq<char>) -> Option<u64> {
    let k = crate::text::spec_find_char(pair, '=');
    if k >= pair.len() {
        None
    } else if pair.take(k) == "start"@ {
        spec_parse_u64(pair.skip(k + 1))
    } else {
        None
    }
}

/// The first pair that gives a start.
pub open spec fn spec_first_start(pairs: Seq<Seq<char>>) -> Option<u64>
    decreases pairs.len(),
{
    if pairs.len() == 0 {
        None
    } else {
        match spec_start_of_pair(pairs[0]) {
            Some(v) => Some(v),
            None => spec_first_start(pairs.drop_first()),
        }
    }
}

/// The start of the next page of results in a link: from the query after the first `?`,
/// the first `start=` pair whose value is a number.
pub open spec fn spec_next_start(link: Seq<char>) -> Option<u64> {
    let q = crate::text::spec_find_char(link, '?');
    if q >= link.len() {
        None
    } else {
        spec_first_start(spec_query_pairs(link.skip(q + 1)))
    }
}

fn start_of_pair(s: &[char], a: usize, b: usize) -> (r: Option<u64>)
    requires
        a <= b <= s.len(),
    ensures
        r == spec_start_of_pair(s@.subrange(a as int, b as int)),
{
    let ghost pair = s@.subrange(a as int, b as int);
    let piece = slice_range(s, a, b);
    assert(piece@ == pair);
    match crate::text::find_char_from(piece.as_slice(), '=', 0) {
        Some(k) => {
            proof {
                crate::text::lemma_find_char_is(pair, '=', k as int);
            }
            let key = slice_range(piece.as_slice(), 0, k);
            let key_text = string_of(key.as_slice());
            proof {
                assert(pair.take(k as int) == key@);
            }
            if str_eq(key_text.as_str(), "start") {
                let value = slice_range(piece.as_slice(), k + 1, piece.len());
                assert(value@ == pair.skip(k + 1));
                parse_u64(value.as_slice())
            } else {
                None
            }
        },
        None => {
            proof {
                crate::text::lemma_find_char_is(pair, '=', pair.len() as int);
            }
            None
        },
    }
}

fn next_start(link: &str) -> (r: Option<u64>)
    ensures
        r == spec_next_start(link@),
{
    let s = chars_of(link);
    let q = match crate::text::find_char_from(s.as_slice(), '?', 0) {
        Some(q) => q,
        None => {
            proof {
                crate::text::lemma_find_char_is(link@, '?', link@.len() as int);
            }
            return None;
        },
    };
    proof {
        crate::text::lemma_find_char_is(link@, '?', q as int);
    }
    let mut start = q + 1;
    assert(s@.skip(q + 1) == s@.subrange(q + 1, s@.len() as int));
    loop
        invariant
            q + 1 <= start <= s.len(),
            s@ == link@,
            spec_next_start(link@) == spec_first_start(spec_query_pairs(s@.skip(start as int))),
        decreases s.len() - start,
    {
        let ghost rest = s@.skip(start as int);
        match crate::text::find_char_from(s.as_slice(), '&', start) {
            Some(i) => {
                proof {
                    assert forall|j: int| 0 <= j < i - start implies rest[j] != '&' by {
                        assert(rest[j] == s@[start + j]);
                    }
                    crate::text::lemma_find_char_is(rest, '&', i - start);
                    assert(rest.take(i - start) == s@.subrange(start as int, i as int));
                    assert(rest.skip(i - start + 1) == s@.skip(i + 1));
                }
                let v = start_of_pair(s.as_slice(), start, i);
                proof {
                    let head = rest.take(i - start);
                    let tail = spec_query_pairs(rest.skip(i - start + 1));
                    assert(spec_query_pairs(rest) == seq![head] + tail);
                    assert((seq![head] + tail)[0] == head);
                    assert((seq![head] + tail).drop_first() == tail);
                }
                if v.is_some() {
                    return v;
                }
                start = i + 1;
            },
            None => {
                proof {
                    assert forall|j: int| 0 <= j < rest.len() implies rest[j] != '&' by {
                        assert(rest[j] == s@[start + j]);
                    }
                    crate::text::lemma_find_char_is(rest, '&', rest.len() as int);
                    assert(rest == s@.subrange(start as int, s@.len() as int));
                    assert(spec_query_pairs(rest) == seq![rest]);
                    assert(seq![rest][0] == rest);
                    assert(seq![rest].drop_first().len() == 0);
                    assert(spec_first_start(seq![rest].drop_first()) is None);
                }
                return start_of_pair(s.as_slice(), start, s.len());
            },
        }
    }
}

} // verus!

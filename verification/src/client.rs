//! The authenticated request pipeline.
//!
//! A request under construction is a plain configuration value: method, URL,
//! headers, query pairs, body and timeout.  Every builder call returns a
//! new, independent value, so partially configured requests can be branched
//! or retried safely.  [`check`] classifies a response's status and body
//! into a typed error; the embedding application executes the requests and
//! feeds the raw status and body text back in.

use vstd::prelude::*;

use crate::catalog::EndpointFilters;
use crate::error::{is_error_status, kind_for_status, kind_of_status, Error, ErrorKind};
use crate::httpclient::clone_client;
use crate::identity::{Password, PasswordView, RefreshAction, SubjectHeader};
use crate::cache::{valid_at, TokenView};
use crate::jsontext::{is_json_object, is_json_object_of_objects, json_field_of, json_first_entry_field, json_first_field_of, json_is_object, json_is_object_of_objects, json_string_field};

verus! {

/// HTTP method of a request under construction.
#[derive(Clone, Copy, Debug, PartialEq, Eq, Structural)]
pub enum Method {
    Get,
    Post,
    Put,
    Delete,
    Head,
    Patch,
}

/// The abstract value of a [`RequestBody`].
pub enum RequestBodyView {
    Empty,
    Bytes(Seq<u8>),
    Json(Seq<char>),
    Stream,
}

/// The body of a request under construction.  A one-shot streaming body is
/// recorded as such: a request carrying one cannot be cloned.
#[derive(Debug)]
pub enum RequestBody {
    Empty,
    Bytes(Vec<u8>),
    Json(String),
    Stream,
}

impl View for RequestBody {
    type V = RequestBodyView;

    open spec fn view(&self) -> RequestBodyView {
        match self {
            RequestBody::Empty => RequestBodyView::Empty,
            RequestBody::Bytes(b) => RequestBodyView::Bytes(b@),
            RequestBody::Json(s) => RequestBodyView::Json(s@),
            RequestBody::Stream => RequestBodyView::Stream,
        }
    }
}

fn clone_bytes(v: &Vec<u8>) -> (r: Vec<u8>)
    ensures
        r@ == v@,
{
    let mut r: Vec<u8> = Vec::new();
    let mut i: usize = 0;
    while i < v.len()
        invariant
            i <= v.len(),
            r@ == v@.take(i as int),
        decreases v.len() - i,
    {
        r.push(v[i]);
        proof {
            assert(r@ =~= v@.take(i + 1));
        }
        i = i + 1;
    }
    proof {
        assert(r@ =~= v@);
    }
    r
}

fn clone_pairs(v: &Vec<(String, String)>) -> (r: Vec<(String, String)>)
    ensures
        r.deep_view() == v.deep_view(),
{
    let mut r: Vec<(String, String)> = Vec::new();
    let mut i: usize = 0;
    while i < v.len()
        invariant
            i <= v.len(),
            r.len() == i,
            forall|j: int| 0 <= j < i ==> r.deep_view()[j] == v.deep_view()[j],
        decreases v.len() - i,
    {
        let ghost prev = r@;
        let ghost before = r.deep_view();
        let pair = &v[i];
        r.push((pair.0.clone(), pair.1.clone()));
        proof {
            assert forall|j: int| 0 <= j < i + 1 implies r.deep_view()[j] == v.deep_view()[j] by {
                assert(r.deep_view()[j] == r@[j].deep_view());
                if j < i as int {
                    assert(r@[j] == prev[j]);
                    assert(before[j] == prev[j].deep_view());
                }
            }
        }
        i = i + 1;
    }
    proof {
        assert(r.deep_view() =~= v.deep_view());
    }
    r
}

impl Clone for RequestBody {
    fn clone(&self) -> (r: RequestBody)
        ensures
            r@ == self@,
    {
        match self {
            RequestBody::Empty => RequestBody::Empty,
            RequestBody::Bytes(b) => RequestBody::Bytes(clone_bytes(b)),
            RequestBody::Json(s) => RequestBody::Json(s.clone()),
            RequestBody::Stream => RequestBody::Stream,
        }
    }
}

/// The abstract value of a [`RequestConfig`].
pub struct RequestConfigView {
    pub method: Method,
    pub url: Seq<char>,
    pub headers: Seq<(Seq<char>, Seq<char>)>,
    pub query: Seq<(Seq<char>, Seq<char>)>,
    pub body: RequestBodyView,
    pub timeout_ms: Option<u64>,
}

/// A request under construction, as a plain value.
#[derive(Debug)]
pub struct RequestConfig {
    pub method: Method,
    pub url: String,
    pub headers: Vec<(String, String)>,
    pub query: Vec<(String, String)>,
    pub body: RequestBody,
    pub timeout_ms: Option<u64>,
}

impl View for RequestConfig {
    type V = RequestConfigView;

    open spec fn view(&self) -> RequestConfigView {
        RequestConfigView {
            method: self.method,
            url: self.url@,
            headers: self.headers.deep_view(),
            query: self.query.deep_view(),
            body: self.body@,
            timeout_ms: self.timeout_ms,
        }
    }
}

impl Clone for RequestConfig {
    fn clone(&self) -> (r: RequestConfig)
        ensures
            r@ == self@,
    {
        RequestConfig {
            method: self.method,
            url: self.url.clone(),
            headers: clone_pairs(&self.headers),
            query: clone_pairs(&self.query),
            body: self.body.clone(),
            timeout_ms: self.timeout_ms,
        }
    }
}

/// The view of a freshly started request configuration.
pub open spec fn fresh_config_view(method: Method, url: Seq<char>) -> RequestConfigView {
    RequestConfigView {
        method,
        url,
        headers: Seq::empty(),
        query: Seq::empty(),
        body: RequestBodyView::Empty,
        timeout_ms: None,
    }
}

impl RequestConfig {
    /// A fresh configuration for the given method and URL: no headers, no
    /// query, empty body, no timeout.
    pub fn new(method: Method, url: String) -> (r: RequestConfig)
        ensures
            r@ == fresh_config_view(method, url@),
    {
        let r = RequestConfig {
            method,
            url,
            headers: Vec::new(),
            query: Vec::new(),
            body: RequestBody::Empty,
            timeout_ms: None,
        };
        proof {
            assert(r.headers.deep_view() =~= Seq::<(Seq<char>, Seq<char>)>::empty());
            assert(r.query.deep_view() =~= Seq::<(Seq<char>, Seq<char>)>::empty());
        }
        r
    }
}

/// Authenticated HTTP client: an identity method plus the transport handle
/// it prepares requests for.  Cloning is cheap and clones share the same
/// underlying credential slot, so a refresh performed through one clone
/// benefits all of them — including the copy each [`RequestBuilder`]
/// carries.
pub struct AuthenticatedClient {
    client: reqwest::Client,
    auth: Password,
}

impl View for AuthenticatedClient {
    type V = PasswordView;

    closed spec fn view(&self) -> PasswordView {
        self.auth@
    }
}

impl Clone for AuthenticatedClient {
    fn clone(&self) -> (r: AuthenticatedClient)
        ensures
            r@ == self@,
    {
        AuthenticatedClient { client: clone_client(&self.client), auth: self.auth.clone() }
    }
}

impl AuthenticatedClient {
    /// Pair an identity method with a transport handle.  A refresh must be
    /// driven through [`AuthenticatedClient::refresh_action`] and
    /// [`AuthenticatedClient::apply_token_response`] before the client can
    /// authenticate requests.
    pub fn new(client: reqwest::Client, auth: Password) -> (r: AuthenticatedClient)
        ensures
            r@ == auth@,
    {
        AuthenticatedClient { client, auth }
    }

    /// The authentication method in use.
    pub fn auth_type(&self) -> (r: &Password)
        ensures
            r@ == self@,
    {
        &self.auth
    }

    /// The inner (non-authenticated) transport handle.
    pub fn inner(&self) -> &reqwest::Client {
        &self.client
    }

    /// Replace the transport handle; the authentication state is untouched.
    pub fn set_inner(&mut self, client: reqwest::Client)
        ensures
            final(self)@ == old(self)@,
    {
        self.client = client;
    }

    /// Replace the authentication method.
    pub fn set_auth_type(&mut self, auth: Password)
        ensures
            final(self)@ == auth@,
    {
        self.auth = auth;
    }

    /// Decide what a refresh at time `now` must do; see
    /// [`Password::refresh_action`].
    pub fn refresh_action(&self, now: i64) -> (r: (RefreshAction, Ghost<Option<TokenView>>))
        ensures
            r.0 == (if valid_at(r.1@, now as int) {
                RefreshAction::UseCached
            } else {
                RefreshAction::FetchToken
            }),
    {
        self.auth.refresh_action(now)
    }

    /// Store the credential carried by a token response in the shared
    /// slot, for this client and every duplicate; see
    /// [`Password::apply_token_response`].
    pub fn apply_token_response(&self, header: &SubjectHeader, body_text: &str) -> (r: Result<
        (),
        Error,
    >)
        ensures
            match r {
                Ok(_) => crate::identity::response_token(header@, body_text@) is Some,
                Err(e) => {
                    &&& crate::identity::response_token(header@, body_text@) is None
                    &&& e@.kind == ErrorKind::InvalidResponse
                    &&& e@.status is None
                    &&& e@.message == crate::identity::response_error_message(header@)
                },
            },
    {
        self.auth.apply_token_response(header, body_text)
    }

    /// Attach the cached credential to a request configuration as the
    /// `x-auth-token` header.  Fails with `AuthenticationFailed` exactly
    /// when the shared slot held no credential; the second component is
    /// the ghost observation of the slot value that decided.
    pub fn authenticate(&self, config: RequestConfig) -> (r: (
        Result<RequestConfig, Error>,
        Ghost<Option<TokenView>>,
    ))
        ensures
            match r.0 {
                Ok(c) => r.1@ is Some && c@ == (RequestConfigView {
                    headers: config@.headers.push(("x-auth-token"@, r.1@->0.value)),
                    ..config@
                }),
                Err(e) => {
                    &&& r.1@ is None
                    &&& e@.kind == ErrorKind::AuthenticationFailed
                    &&& e@.status is None
                    &&& e@.message == "not authenticated"@
                },
            },
    {
        let (value, observed) = self.auth.cached_token.extract_value();
        match value {
            None => (
                Err(Error::new(ErrorKind::AuthenticationFailed, "not authenticated".to_owned())),
                observed,
            ),
            Some(value) => {
                let mut c = config;
                let ghost before = c.headers.deep_view();
                c.headers.push(("x-auth-token".to_owned(), value));
                proof {
                    assert(c.headers.deep_view() =~= before.push(
                        ("x-auth-token"@, observed@->0.value),
                    ));
                }
                (Ok(c), observed)
            },
        }
    }

    /// Resolve a service endpoint from the cached catalog.  The filter's
    /// interface applies; its region, when given, overrides the identity
    /// method's own region preference.
    pub fn get_endpoint(&self, service_type: &str, filters: &EndpointFilters) -> (r: (
        Result<String, Error>,
        Ghost<Option<TokenView>>,
    ))
        ensures
            ({
                let region = match filters.region.deep_view() {
                    Some(rg) => Some(rg),
                    None => self@.region,
                };
                crate::identity::endpoint_outcome(
                    r.1@,
                    service_type@,
                    filters.interface@,
                    region,
                    r.0,
                )
            }),
    {
        let region: Option<String> = match &filters.region {
            Some(rg) => Some(rg.clone()),
            None => match self.auth.region() {
                Some(rg) => Some(rg),
                None => None,
            },
        };
        self.auth.get_endpoint_with(service_type, filters.interface.as_str(), &region)
    }

    /// Start an authenticated request for the given method and URL.
    pub fn request(&self, method: Method, url: String) -> (r: RequestBuilder)
        ensures
            r.inner@ == fresh_config_view(method, url@),
            r.client@ == self@,
    {
        RequestBuilder { inner: RequestConfig::new(method, url), client: self.clone() }
    }
}

impl Password {
    /// Start a request authenticated with the cached credential: a fresh
    /// configuration for the method and URL, carrying the token as the
    /// `x-auth-token` header.  Fails with `AuthenticationFailed` exactly
    /// when the shared slot held no credential; the second component is
    /// the ghost observation of the slot value that decided.
    pub fn request(&self, method: Method, url: String) -> (r: (
        Result<RequestConfig, Error>,
        Ghost<Option<TokenView>>,
    ))
        ensures
            match r.0 {
                Ok(c) => r.1@ is Some && c@ == (RequestConfigView {
                    headers: seq![("x-auth-token"@, r.1@->0.value)],
                    ..fresh_config_view(method, url@)
                }),
                Err(e) => {
                    &&& r.1@ is None
                    &&& e@.kind == ErrorKind::AuthenticationFailed
                    &&& e@.status is None
                    &&& e@.message == "not authenticated"@
                },
            },
    {
        let (value, observed) = self.cached_token.extract_value();
        match value {
            None => (
                Err(Error::new(ErrorKind::AuthenticationFailed, "not authenticated".to_owned())),
                observed,
            ),
            Some(value) => {
                let mut c = RequestConfig::new(method, url);
                c.headers.push(("x-auth-token".to_owned(), value));
                proof {
                    assert(c.headers.deep_view() =~= seq![
                        ("x-auth-token"@, observed@->0.value),
                    ]);
                }
                (Ok(c), observed)
            },
        }
    }
}

/// The configuration with query pairs appended.
pub open spec fn with_query(
    cfg: RequestConfigView,
    extra: Seq<(Seq<char>, Seq<char>)>,
) -> RequestConfigView {
    RequestConfigView { query: cfg.query + extra, ..cfg }
}

/// A request builder: a configuration value paired with the client that
/// will authenticate and execute it.  Every call returns a new value;
/// duplication goes through [`RequestBuilder::try_clone`], which refuses a
/// one-shot streaming body.
pub struct RequestBuilder {
    pub inner: RequestConfig,
    pub client: AuthenticatedClient,
}

impl RequestBuilder {
    /// The client this request will be sent through.
    pub fn client(&self) -> (r: &AuthenticatedClient)
        ensures
            r@ == self.client@,
    {
        &self.client
    }

    /// Set the body to the given bytes.
    pub fn body(self, body: Vec<u8>) -> (r: RequestBuilder)
        ensures
            r.inner@ == (RequestConfigView { body: RequestBodyView::Bytes(body@), ..self.inner@ }),
            r.client@ == self.client@,
    {
        let mut inner = self.inner;
        inner.body = RequestBody::Bytes(body);
        RequestBuilder { inner, client: self.client }
    }

    /// Mark the body as a one-shot stream, to be supplied by the executor.
    /// A request so marked cannot be cloned.
    pub fn body_stream(self) -> (r: RequestBuilder)
        ensures
            r.inner@ == (RequestConfigView { body: RequestBodyView::Stream, ..self.inner@ }),
            r.client@ == self.client@,
    {
        let mut inner = self.inner;
        inner.body = RequestBody::Stream;
        RequestBuilder { inner, client: self.client }
    }

    /// Add one header.
    pub fn header(self, key: &str, value: &str) -> (r: RequestBuilder)
        ensures
            r.inner@ == (RequestConfigView {
                headers: self.inner@.headers.push((key@, value@)),
                ..self.inner@
            }),
            r.client@ == self.client@,
    {
        let mut inner = self.inner;
        let ghost before = inner.headers.deep_view();
        inner.headers.push((key.to_owned(), value.to_owned()));
        proof {
            assert(inner.headers.deep_view() =~= before.push((key@, value@)));
        }
        RequestBuilder { inner, client: self.client }
    }

    /// Add headers, in order.
    pub fn headers(self, headers: Vec<(String, String)>) -> (r: RequestBuilder)
        ensures
            r.inner@ == (RequestConfigView {
                headers: self.inner@.headers + headers.deep_view(),
                ..self.inner@
            }),
            r.client@ == self.client@,
    {
        let mut inner = self.inner;
        let ghost before = inner.headers.deep_view();
        let ghost extra = headers.deep_view();
        let mut rest = headers;
        inner.headers.append(&mut rest);
        proof {
            assert(inner.headers.deep_view() =~= before + extra);
        }
        RequestBuilder { inner, client: self.client }
    }

    /// Set an already-encoded JSON body.
    pub fn json(self, body: &str) -> (r: RequestBuilder)
        ensures
            r.inner@ == (RequestConfigView { body: RequestBodyView::Json(body@), ..self.inner@ }),
            r.client@ == self.client@,
    {
        let mut inner = self.inner;
        inner.body = RequestBody::Json(body.to_owned());
        RequestBuilder { inner, client: self.client }
    }

    /// Append query pairs to the request.
    pub fn query(self, query: Vec<(String, String)>) -> (r: RequestBuilder)
        ensures
            r.inner@ == with_query(self.inner@, query.deep_view()),
            r.client@ == self.client@,
    {
        let mut inner = self.inner;
        let ghost before = inner.query.deep_view();
        let ghost extra = query.deep_view();
        let mut rest = query;
        inner.query.append(&mut rest);
        proof {
            assert(inner.query.deep_view() =~= before + extra);
        }
        RequestBuilder { inner, client: self.client }
    }

    /// Override the timeout for the request, in milliseconds.
    pub fn timeout(self, timeout_ms: u64) -> (r: RequestBuilder)
        ensures
            r.inner@ == (RequestConfigView { timeout_ms: Some(timeout_ms), ..self.inner@ }),
            r.client@ == self.client@,
    {
        let mut inner = self.inner;
        inner.timeout_ms = Some(timeout_ms);
        RequestBuilder { inner, client: self.client }
    }

    /// Attempt to clone this request builder.  Succeeds with an equal,
    /// independent value exactly when the body is not a one-shot stream.
    pub fn try_clone(&self) -> (r: Option<RequestBuilder>)
        ensures
            match r {
                Some(b) => self.inner@.body != RequestBodyView::Stream && b.inner@ == self.inner@
                    && b.client@ == self.client@,
                None => self.inner@.body == RequestBodyView::Stream,
            },
    {
        match &self.inner.body {
            RequestBody::Stream => None,
            RequestBody::Empty => Some(
                RequestBuilder { inner: self.inner.clone(), client: self.client.clone() },
            ),
            RequestBody::Bytes(_) => Some(
                RequestBuilder { inner: self.inner.clone(), client: self.client.clone() },
            ),
            RequestBody::Json(_) => Some(
                RequestBuilder { inner: self.inner.clone(), client: self.client.clone() },
            ),
        }
    }
}

/// Cloning a non-streaming request and appending query pairs to the clone
/// touches the clone's query alone: the result's query is the original's
/// plus the appended pairs, every other part of the configuration is kept,
/// and the original value itself — configurations are plain values — stays
/// as it was.
pub proof fn lemma_clone_query_independent(
    original: RequestConfigView,
    extra: Seq<(Seq<char>, Seq<char>)>,
)
    ensures
        with_query(original, extra).query == original.query + extra,
        (RequestConfigView { query: original.query, ..with_query(original, extra) }) == original,
{
}

/// The message the classifier extracts from an error body that is a single
/// message object: the `message`, `faultstring` or `title` field, in that
/// priority order.
pub open spec fn direct_message_of(s: Seq<char>) -> Option<Seq<char>> {
    if json_field_of(s, "message"@) is Some {
        json_field_of(s, "message"@)
    } else if json_field_of(s, "faultstring"@) is Some {
        json_field_of(s, "faultstring"@)
    } else if json_field_of(s, "title"@) is Some {
        json_field_of(s, "title"@)
    } else {
        None
    }
}

/// As [`direct_message_of`], but reading the fields of the first value of a
/// mapping from a fault code to a message object.
pub open spec fn first_direct_message_of(s: Seq<char>) -> Option<Seq<char>> {
    if json_first_field_of(s, "message"@) is Some {
        json_first_field_of(s, "message"@)
    } else if json_first_field_of(s, "faultstring"@) is Some {
        json_first_field_of(s, "faultstring"@)
    } else if json_first_field_of(s, "title"@) is Some {
        json_first_field_of(s, "title"@)
    } else {
        None
    }
}

/// The message extracted from a single message object, following one level
/// of `error_message` indirection: a JSON-encoded message object inside the
/// `error_message` field is decoded once, and its direct fields alone are
/// consulted.
pub open spec fn object_message_of(s: Seq<char>) -> Option<Seq<char>> {
    match direct_message_of(s) {
        Some(m) => Some(m),
        None => match json_field_of(s, "error_message"@) {
            Some(inner) => direct_message_of(inner),
            None => None,
        },
    }
}

/// The message extracted from a mapping from a fault code to a message
/// object, with the same one level of `error_message` indirection.
pub open spec fn map_message_of(s: Seq<char>) -> Option<Seq<char>> {
    match first_direct_message_of(s) {
        Some(m) => Some(m),
        None => match json_first_field_of(s, "error_message"@) {
            Some(inner) => direct_message_of(inner),
            None => None,
        },
    }
}

/// The message the classifier extracts from an error body: from the first
/// entry where the body maps fault codes to message objects, from the body's
/// own fields where it is a message object, and the raw body text where no
/// message can be extracted.
pub open spec fn extracted_message(s: Seq<char>) -> Seq<char> {
    if is_json_object_of_objects(s) {
        match map_message_of(s) {
            Some(m) => m,
            None => s,
        }
    } else if is_json_object(s) {
        match object_message_of(s) {
            Some(m) => m,
            None => s,
        }
    } else {
        s
    }
}

fn direct_message(text: &str) -> (r: Option<String>)
    ensures
        r.deep_view() == direct_message_of(text@),
{
    match json_string_field(text, "message") {
        Some(m) => Some(m),
        None => match json_string_field(text, "faultstring") {
            Some(m) => Some(m),
            None => json_string_field(text, "title"),
        },
    }
}

fn first_direct_message(text: &str) -> (r: Option<String>)
    ensures
        r.deep_view() == first_direct_message_of(text@),
{
    match json_first_entry_field(text, "message") {
        Some(m) => Some(m),
        None => match json_first_entry_field(text, "faultstring") {
            Some(m) => Some(m),
            None => json_first_entry_field(text, "title"),
        },
    }
}

fn object_message(text: &str) -> (r: Option<String>)
    ensures
        r.deep_view() == object_message_of(text@),
{
    match direct_message(text) {
        Some(m) => Some(m),
        None => match json_string_field(text, "error_message") {
            Some(inner) => direct_message(inner.as_str()),
            None => None,
        },
    }
}

fn map_message(text: &str) -> (r: Option<String>)
    ensures
        r.deep_view() == map_message_of(text@),
{
    match first_direct_message(text) {
        Some(m) => Some(m),
        None => match json_first_entry_field(text, "error_message") {
            Some(inner) => direct_message(inner.as_str()),
            None => None,
        },
    }
}

/// Extract a human-readable message from an error response body.  Known
/// JSON error shapes yield their message field; anything else yields the
/// body text itself, unchanged.
pub fn extract_message(text: String) -> (r: String)
    ensures
        r@ == extracted_message(text@),
{
    if json_is_object_of_objects(text.as_str()) {
        match map_message(text.as_str()) {
            Some(m) => m,
            None => text,
        }
    } else if json_is_object(text.as_str()) {
        match object_message(text.as_str()) {
            Some(m) => m,
            None => text,
        }
    } else {
        text
    }
}

/// Classify a response.  A status in the client- or server-error range
/// yields an error carrying that status, the kind it maps to and the
/// message extracted from the body; any other status passes through.
pub fn check(status: u16, body: String) -> (r: Result<(), Error>)
    ensures
        match r {
            Ok(_) => !is_error_status(status),
            Err(e) => {
                &&& is_error_status(status)
                &&& e@.kind == kind_of_status(status)
                &&& e@.status == Some(status)
                &&& e@.message == extracted_message(body@)
            },
        },
{
    if status >= 400 && status < 600 {
        let message = extract_message(body);
        Err(Error::new(kind_for_status(status), message).with_status(status))
    } else {
        Ok(())
    }
}

} // verus!

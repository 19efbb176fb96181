//! Password authentication against an identity service.
//!
//! [`Password`] keeps the authentication URL, the request body to post to
//! the token endpoint, an optional region preference, and the single-slot
//! credential cache.  It decides when a refresh must reach the network
//! ([`Password::refresh_action`]), turns the identity service's reply into a
//! cached credential ([`token_from_response`], [`Password::apply_token_response`])
//! and resolves service endpoints from the cached catalog
//! ([`Password::get_endpoint`]).  The embedding application performs the one
//! token-issuing network call when, and only when, the decision asks for it.

use vstd::prelude::*;
use vstd::string::StringExecFns;

use crate::cache::{valid_at, Token, TokenCache, TokenView, TOKEN_MIN_VALIDITY_SECS};
use crate::catalog::{find_endpoint, not_found_message, resolve, CatalogRecord, CatalogRecordView, Endpoint, EndpointView};
use crate::clock::{parse_timestamp, timestamp_of};
use crate::error::{Error, ErrorKind};
use crate::httpclient::{clone_client, new_http_client};
use crate::jsontext::{catalog_len_of, catalog_type_of, endpoint_field_of, endpoints_len_of, token_catalog_len, token_catalog_type, token_endpoint_field, token_endpoints_len, token_expires_at, token_expiry_of};
use crate::protocol::{password_identity_view, project_scope_view, AuthRootView, AuthView, PasswordIdentity, ProjectScope, ProjectScopedAuthRoot};
use crate::strutil::{seq_ends_with, str_ends_with};
use crate::urls::{parse_url, parse_url_path, parsed_url_of, url_path_of};

verus! {

/// Generic trait for authentication backed by an identity service.
pub trait Identity {
    /// The authentication URL this identity method talks to.
    fn auth_url(&self) -> &String;
}

/// The abstract value of a [`SubjectHeader`].
pub enum SubjectHeaderView {
    Missing,
    NotText,
    Text(Seq<char>),
}

/// The state of the subject-token response header as the transport found
/// it: absent, present but not valid text, or its text value.  It carries
/// the raw credential, so it is deliberately not formattable.
pub enum SubjectHeader {
    Missing,
    NotText,
    Text(String),
}

impl View for SubjectHeader {
    type V = SubjectHeaderView;

    open spec fn view(&self) -> SubjectHeaderView {
        match self {
            SubjectHeader::Missing => SubjectHeaderView::Missing,
            SubjectHeader::NotText => SubjectHeaderView::NotText,
            SubjectHeader::Text(v) => SubjectHeaderView::Text(v@),
        }
    }
}

/// What a refresh must do: keep the cached credential, or issue exactly one
/// token-fetching call.
#[derive(Clone, Copy, Debug, PartialEq, Eq, Structural)]
pub enum RefreshAction {
    UseCached,
    FetchToken,
}

/// Whether endpoint `j` of catalog record `i` of the token body carries the
/// two required fields.
pub open spec fn endpoint_ok(s: Seq<char>, i: int, j: int) -> bool {
    &&& endpoint_field_of(s, i, j, "interface"@) is Some
    &&& endpoint_field_of(s, i, j, "url"@) is Some
}

/// Endpoint `j` of catalog record `i` of the token body.
pub open spec fn endpoint_at(s: Seq<char>, i: int, j: int) -> EndpointView {
    EndpointView {
        interface: endpoint_field_of(s, i, j, "interface"@)->0,
        region: endpoint_field_of(s, i, j, "region"@),
        url: endpoint_field_of(s, i, j, "url"@)->0,
    }
}

/// Whether catalog record `i` of the token body is well-formed.
pub open spec fn record_ok(s: Seq<char>, i: int) -> bool {
    &&& catalog_type_of(s, i) is Some
    &&& endpoints_len_of(s, i) is Some
    &&& forall|j: int| 0 <= j < endpoints_len_of(s, i)->0 ==> endpoint_ok(s, i, j)
}

/// Catalog record `i` of the token body.
pub open spec fn record_at(s: Seq<char>, i: int) -> CatalogRecordView {
    CatalogRecordView {
        service_type: catalog_type_of(s, i)->0,
        endpoints: Seq::new(endpoints_len_of(s, i)->0 as nat, |j: int| endpoint_at(s, i, j)),
    }
}

/// Whether the token body carries a well-formed catalog.
pub open spec fn catalog_ok(s: Seq<char>) -> bool {
    &&& catalog_len_of(s) is Some
    &&& forall|i: int| 0 <= i < catalog_len_of(s)->0 ==> record_ok(s, i)
}

/// The catalog carried by the token body.
pub open spec fn catalog_of(s: Seq<char>) -> Seq<CatalogRecordView> {
    Seq::new(catalog_len_of(s)->0 as nat, |i: int| record_at(s, i))
}

/// Whether the token body is well-formed: an expiry timestamp that parses,
/// and a well-formed catalog.
pub open spec fn token_body_ok(s: Seq<char>) -> bool {
    &&& token_expiry_of(s) is Some
    &&& timestamp_of(token_expiry_of(s)->0) is Some
    &&& catalog_ok(s)
}

/// The credential that a token response carries, or `None` where the header
/// or the body is unusable.
pub open spec fn response_token(h: SubjectHeaderView, s: Seq<char>) -> Option<TokenView> {
    match h {
        SubjectHeaderView::Text(v) => if token_body_ok(s) {
            Some(
                TokenView {
                    value: v,
                    expires_at: timestamp_of(token_expiry_of(s)->0)->0,
                    catalog: catalog_of(s),
                },
            )
        } else {
            None
        },
        _ => None,
    }
}

/// The error message reported for the given header state, when the response
/// cannot yield a credential.
pub open spec fn response_error_message(h: SubjectHeaderView) -> Seq<char> {
    match h {
        SubjectHeaderView::Missing => "Missing X-Subject-Token header"@,
        SubjectHeaderView::NotText => "Invalid X-Subject-Token header"@,
        SubjectHeaderView::Text(_) => "malformed token response"@,
    }
}

fn malformed_error() -> (r: Error)
    ensures
        r@.kind == ErrorKind::InvalidResponse,
        r@.status is None,
        r@.message == "malformed token response"@,
{
    Error::new(ErrorKind::InvalidResponse, "malformed token response".to_owned())
}

/// Turn an identity response — the subject-token header and the body text —
/// into a credential.  Fails with `InvalidResponse` exactly when the header
/// is missing or not text, or the body lacks a parseable expiry or a
/// well-formed catalog.
#[verifier::loop_isolation(false)]
pub fn token_from_response(header: &SubjectHeader, body_text: &str) -> (r: Result<Token, Error>)
    ensures
        match r {
            Ok(t) => response_token(header@, body_text@) == Some(t@),
            Err(e) => {
                &&& response_token(header@, body_text@) is None
                &&& e@.kind == ErrorKind::InvalidResponse
                &&& e@.status is None
                &&& e@.message == response_error_message(header@)
            },
        },
{
    let value: String = match header {
        SubjectHeader::Missing => {
            return Err(
                Error::new(ErrorKind::InvalidResponse, "Missing X-Subject-Token header".to_owned()),
            );
        },
        SubjectHeader::NotText => {
            return Err(
                Error::new(ErrorKind::InvalidResponse, "Invalid X-Subject-Token header".to_owned()),
            );
        },
        SubjectHeader::Text(v) => v.clone(),
    };
    let expiry: String = match token_expires_at(body_text) {
        Some(e) => e,
        None => {
            return Err(malformed_error());
        },
    };
    let ts: i64 = match parse_timestamp(expiry.as_str()) {
        Some(t) => t,
        None => {
            return Err(malformed_error());
        },
    };
    let n: usize = match token_catalog_len(body_text) {
        Some(n) => n,
        None => {
            return Err(malformed_error());
        },
    };
    let mut catalog: Vec<CatalogRecord> = Vec::new();
    let mut i: usize = 0;
    while i < n
        invariant
            i <= n,
            catalog.len() == i,
            forall|k: int| 0 <= k < i ==> record_ok(body_text@, k),
            forall|k: int| 0 <= k < i ==> catalog.deep_view()[k] == record_at(body_text@, k),
        decreases n - i,
    {
        let service_type: String = match token_catalog_type(body_text, i) {
            Some(s) => s,
            None => {
                proof {
                    assert(!record_ok(body_text@, i as int));
                }
                return Err(malformed_error());
            },
        };
        let m: usize = match token_endpoints_len(body_text, i) {
            Some(m) => m,
            None => {
                proof {
                    assert(!record_ok(body_text@, i as int));
                }
                return Err(malformed_error());
            },
        };
        let mut eps: Vec<Endpoint> = Vec::new();
        let mut j: usize = 0;
        while j < m
            invariant
                j <= m,
                eps.len() == j,
                forall|k: int| 0 <= k < j ==> endpoint_ok(body_text@, i as int, k),
                forall|k: int| 0 <= k < j ==> eps.deep_view()[k] == endpoint_at(body_text@, i as int, k),
            decreases m - j,
        {
            let interface: String = match token_endpoint_field(body_text, i, j, "interface") {
                Some(x) => x,
                None => {
                    proof {
                        assert(!endpoint_ok(body_text@, i as int, j as int));
                        assert(!record_ok(body_text@, i as int));
                    }
                    return Err(malformed_error());
                },
            };
            let url: String = match token_endpoint_field(body_text, i, j, "url") {
                Some(x) => x,
                None => {
                    proof {
                        assert(!endpoint_ok(body_text@, i as int, j as int));
                        assert(!record_ok(body_text@, i as int));
                    }
                    return Err(malformed_error());
                },
            };
            let region: Option<String> = token_endpoint_field(body_text, i, j, "region");
            let ghost prev = eps@;
            let ghost before = eps.deep_view();
            eps.push(Endpoint { interface, region, url });
            proof {
                assert forall|k: int| 0 <= k < j + 1 implies eps.deep_view()[k] == endpoint_at(
                    body_text@,
                    i as int,
                    k,
                ) by {
                    assert(eps.deep_view()[k] == eps@[k]@);
                    if k < j as int {
                        assert(eps@[k] == prev[k]);
                        assert(before[k] == prev[k]@);
                    }
                }
            }
            j = j + 1;
        }
        proof {
            assert(eps.deep_view() =~= record_at(body_text@, i as int).endpoints);
        }
        let ghost prev = catalog@;
        let ghost before = catalog.deep_view();
        catalog.push(CatalogRecord { service_type, endpoints: eps });
        proof {
            assert forall|k: int| 0 <= k < i + 1 implies catalog.deep_view()[k] == record_at(
                body_text@,
                k,
            ) by {
                assert(catalog.deep_view()[k] == catalog@[k]@);
                if k < i as int {
                    assert(catalog@[k] == prev[k]);
                    assert(before[k] == prev[k]@);
                }
            }
        }
        i = i + 1;
    }
    proof {
        assert(catalog.deep_view() =~= catalog_of(body_text@));
    }
    Ok(Token { value, expires_at: ts, catalog })
}

/// The abstract value of a [`Password`]: its configuration.  The cached
/// credential is not part of it — the cache is a shared slot whose content
/// other handles may change, so each operation that reads it returns the
/// ghost observation its contract is about.
pub struct PasswordView {
    pub auth_url: Seq<char>,
    pub token_endpoint: Seq<char>,
    pub region: Option<Seq<char>>,
    pub body: AuthRootView,
}

/// Password authentication: the validated authentication URL, the token
/// endpoint derived from it, an optional region preference, the request
/// body to post, and a handle to the shared credential cache.  Cloning
/// duplicates the handle, not the credential state: a refresh applied
/// through one duplicate benefits all of them.  The HTTP client handle is
/// carried for the embedding application and is opaque here.
pub struct Password {
    pub client: reqwest::Client,
    pub auth_url: String,
    pub token_endpoint: String,
    pub region: Option<String>,
    pub body: ProjectScopedAuthRoot,
    pub cached_token: TokenCache,
}

impl View for Password {
    type V = PasswordView;

    open spec fn view(&self) -> PasswordView {
        PasswordView {
            auth_url: self.auth_url@,
            token_endpoint: self.token_endpoint@,
            region: self.region.deep_view(),
            body: self.body@,
        }
    }
}

impl Clone for Password {
    fn clone(&self) -> (r: Password)
        ensures
            r@ == self@,
    {
        Password {
            client: clone_client(&self.client),
            auth_url: self.auth_url.clone(),
            token_endpoint: self.token_endpoint.clone(),
            region: match &self.region {
                Some(s) => Some(s.clone()),
                None => None,
            },
            body: self.body.clone(),
            cached_token: self.cached_token.clone(),
        }
    }
}

impl Identity for Password {
    fn auth_url(&self) -> &String {
        &self.auth_url
    }
}

/// The token endpoint derived from a validated authentication URL and its
/// path: `/auth/tokens` under the URL, with `/v3` inserted first unless the
/// path already ends in it.
pub open spec fn token_endpoint_view(url: Seq<char>, path: Seq<char>) -> Seq<char> {
    if seq_ends_with(path, "/v3"@) {
        url + "/auth/tokens"@
    } else {
        url + "/v3/auth/tokens"@
    }
}

/// The view of a freshly constructed [`Password`] for the given inputs.
pub open spec fn new_password_view(
    auth_url: Seq<char>,
    user_name: Seq<char>,
    password: Seq<char>,
    user_domain_name: Seq<char>,
) -> PasswordView {
    PasswordView {
        auth_url: parsed_url_of(auth_url)->0,
        token_endpoint: token_endpoint_view(parsed_url_of(auth_url)->0, url_path_of(auth_url)),
        region: None,
        body: AuthRootView {
            auth: AuthView {
                identity: password_identity_view(user_name, password, user_domain_name),
                scope: None,
            },
        },
    }
}

/// The message carried by an `InvalidResponse` error for a catalog URL that
/// does not parse.
pub open spec fn invalid_url_message(url: Seq<char>, service_type: Seq<char>) -> Seq<char> {
    "invalid URL "@ + url + " for service "@ + service_type
}

impl Password {
    /// Create a password authentication against the given identity service,
    /// with a fresh HTTP client handle.  Fails with `InvalidConfig` exactly
    /// when the authentication URL does not parse.
    pub fn new(auth_url: &str, user_name: &str, password: &str, user_domain_name: &str) -> (r:
        Result<Password, Error>)
        ensures
            match r {
                Ok(p) => parsed_url_of(auth_url@) is Some && p@ == new_password_view(
                    auth_url@,
                    user_name@,
                    password@,
                    user_domain_name@,
                ),
                Err(e) => {
                    &&& parsed_url_of(auth_url@) is None
                    &&& e@.kind == ErrorKind::InvalidConfig
                    &&& e@.status is None
                    &&& e@.message == "invalid authentication URL"@
                },
            },
    {
        Password::new_with_client(auth_url, new_http_client(), user_name, password, user_domain_name)
    }

    /// Create a password authentication using the given HTTP client handle.
    /// Fails with `InvalidConfig` exactly when the authentication URL does
    /// not parse.
    pub fn new_with_client(
        auth_url: &str,
        client: reqwest::Client,
        user_name: &str,
        password: &str,
        user_domain_name: &str,
    ) -> (r: Result<Password, Error>)
        ensures
            match r {
                Ok(p) => parsed_url_of(auth_url@) is Some && p@ == new_password_view(
                    auth_url@,
                    user_name@,
                    password@,
                    user_domain_name@,
                ),
                Err(e) => {
                    &&& parsed_url_of(auth_url@) is None
                    &&& e@.kind == ErrorKind::InvalidConfig
                    &&& e@.status is None
                    &&& e@.message == "invalid authentication URL"@
                },
            },
    {
        let url: String = match parse_url(auth_url) {
            Some(u) => u,
            None => {
                return Err(
                    Error::new(ErrorKind::InvalidConfig, "invalid authentication URL".to_owned()),
                );
            },
        };
        let path: String = match parse_url_path(auth_url) {
            Some(p) => p,
            None => {
                proof {
                    assert(false);
                }
                return Err(
                    Error::new(ErrorKind::InvalidConfig, "invalid authentication URL".to_owned()),
                );
            },
        };
        let token_endpoint: String = if str_ends_with(path.as_str(), "/v3") {
            url.clone().concat("/auth/tokens")
        } else {
            url.clone().concat("/v3/auth/tokens")
        };
        let identity = PasswordIdentity::new(user_name, password, user_domain_name);
        Ok(
            Password {
                client,
                auth_url: url,
                token_endpoint,
                region: None,
                body: ProjectScopedAuthRoot::new(identity, None),
                cached_token: TokenCache::new(),
            },
        )
    }

    /// User name the authentication speaks for.
    pub fn user_name(&self) -> (r: &String)
        ensures
            r@ == self@.body.auth.identity.password.user.name,
    {
        &self.body.auth.identity.password.user.name
    }

    /// The region this authentication prefers, if any.
    pub fn region(&self) -> (r: Option<String>)
        ensures
            r.deep_view() == self@.region,
    {
        match &self.region {
            Some(s) => Some(s.clone()),
            None => None,
        }
    }

    /// Set a region preference for endpoint resolution.
    pub fn set_region(&mut self, region: &str)
        ensures
            final(self)@ == (PasswordView { region: Some(region@), ..old(self)@ }),
    {
        self.region = Some(region.to_owned());
    }

    /// Scope the authentication to the given project.
    pub fn set_project_scope(&mut self, project_name: &str, project_domain_name: &str)
        ensures
            final(self)@ == (PasswordView {
                body: AuthRootView {
                    auth: AuthView {
                        scope: Some(project_scope_view(project_name@, project_domain_name@)),
                        ..old(self)@.body.auth
                    },
                },
                ..old(self)@
            }),
    {
        self.body.auth.scope = Some(ProjectScope::new(project_name, project_domain_name));
    }

    /// Set a region preference, by value.
    pub fn with_region(self, region: &str) -> (r: Password)
        ensures
            r@ == (PasswordView { region: Some(region@), ..self@ }),
    {
        let mut this = self;
        this.set_region(region);
        this
    }

    /// Scope the authentication to the given project, by value.
    pub fn with_project_scope(self, project_name: &str, project_domain_name: &str) -> (r: Password)
        ensures
            r@ == (PasswordView {
                body: AuthRootView {
                    auth: AuthView {
                        scope: Some(project_scope_view(project_name@, project_domain_name@)),
                        ..self@.body.auth
                    },
                },
                ..self@
            }),
    {
        let mut this = self;
        this.set_project_scope(project_name, project_domain_name);
        this
    }

    /// Decide what a refresh at time `now` must do.  A cached credential
    /// valid for more than the minimum window is kept and no network call
    /// happens; otherwise exactly one token fetch is requested.  The second
    /// component is the ghost observation of the slot value the decision is
    /// about.
    pub fn refresh_action(&self, now: i64) -> (r: (RefreshAction, Ghost<Option<TokenView>>))
        ensures
            r.0 == (if valid_at(r.1@, now as int) {
                RefreshAction::UseCached
            } else {
                RefreshAction::FetchToken
            }),
    {
        let (valid, observed) = self.cached_token.validate(now);
        if valid {
            (RefreshAction::UseCached, observed)
        } else {
            (RefreshAction::FetchToken, observed)
        }
    }

    /// Store the credential carried by a token response, replacing the
    /// shared slot wholesale, for this handle and every duplicate sharing
    /// it.  On failure nothing is stored and the error says why the
    /// response was unusable.
    pub fn apply_token_response(&self, header: &SubjectHeader, body_text: &str) -> (r: Result<
        (),
        Error,
    >)
        ensures
            match r {
                Ok(_) => response_token(header@, body_text@) is Some,
                Err(e) => {
                    &&& response_token(header@, body_text@) is None
                    &&& e@.kind == ErrorKind::InvalidResponse
                    &&& e@.status is None
                    &&& e@.message == response_error_message(header@)
                },
            },
    {
        match token_from_response(header, body_text) {
            Ok(t) => {
                self.cached_token.set(t);
                Ok(())
            },
            Err(e) => Err(e),
        }
    }

    /// Resolve a service endpoint from the cached catalog against the given
    /// interface and region.  Fails with `AuthenticationFailed` when no
    /// credential is cached, with `EndpointNotFound` when resolution finds
    /// nothing, and with `InvalidResponse` when the catalog's URL does not
    /// parse.
    pub fn get_endpoint_with(&self, service_type: &str, interface: &str, region: &Option<String>)
        -> (r: (Result<String, Error>, Ghost<Option<TokenView>>))
        ensures
            endpoint_outcome(r.1@, service_type@, interface@, region.deep_view(), r.0),
    {
        let (catalog, observed) = self.cached_token.extract_catalog();
        let outcome = match catalog {
            None => Err(Error::new(ErrorKind::AuthenticationFailed, "not authenticated".to_owned())),
            Some(cat) => {
                match find_endpoint(&cat, service_type, interface, region) {
                    Err(e) => Err(e),
                    Ok(ep) => {
                        match parse_url(ep.url.as_str()) {
                            Some(u) => Ok(u),
                            None => {
                                let msg = String::new().concat("invalid URL ").concat(
                                    ep.url.as_str(),
                                ).concat(" for service ").concat(service_type);
                                proof {
                                    assert(msg@ =~= invalid_url_message(ep.url@, service_type@));
                                }
                                Err(Error::new(ErrorKind::InvalidResponse, msg))
                            },
                        }
                    },
                }
            },
        };
        (outcome, observed)
    }

    /// Resolve a service endpoint from the cached catalog.  The interface
    /// defaults to `public`; the instance's own region preference applies.
    /// The second component is the ghost observation of the slot value the
    /// outcome is about.
    pub fn get_endpoint(&self, service_type: &str, endpoint_interface: Option<&str>) -> (r: (
        Result<String, Error>,
        Ghost<Option<TokenView>>,
    ))
        ensures
            endpoint_outcome(
                r.1@,
                service_type@,
                match endpoint_interface {
                    Some(i) => i@,
                    None => "public"@,
                },
                self@.region,
                r.0,
            ),
    {
        let iface: &str = match endpoint_interface {
            Some(i) => i,
            None => "public",
        };
        self.get_endpoint_with(service_type, iface, &self.region)
    }
}

/// What resolving a service endpoint against a cache state must yield:
/// `AuthenticationFailed` without a credential, `EndpointNotFound` when the
/// catalog resolves to nothing, `InvalidResponse` when the resolved URL does
/// not parse, and the parsed URL otherwise.
pub open spec fn endpoint_outcome(
    cache: Option<TokenView>,
    service_type: Seq<char>,
    interface: Seq<char>,
    region: Option<Seq<char>>,
    r: Result<String, Error>,
) -> bool {
    match cache {
        None => r matches Err(e) && e@.kind == ErrorKind::AuthenticationFailed && e@.status is None
            && e@.message == "not authenticated"@,
        Some(tok) => match resolve(tok.catalog, service_type, interface, region) {
            None => r matches Err(e) && e@.kind == ErrorKind::EndpointNotFound && e@.status is None
                && e@.message == not_found_message(service_type, interface),
            Some(ep) => match parsed_url_of(ep.url) {
                Some(u) => r matches Ok(s) && s@ == u,
                None => r matches Err(e) && e@.kind == ErrorKind::InvalidResponse && e@.status
                    is None && e@.message == invalid_url_message(ep.url, service_type),
            },
        },
    }
}

/// An expired or absent credential forces a token fetch, and a successful
/// refresh leaves the cache holding a credential that satisfies the
/// validity predicate whenever the issued expiry clears the minimum window
/// past the clock reading that triggered the refresh.
pub proof fn lemma_refresh_establishes_validity(
    cache: Option<TokenView>,
    now: int,
    issued: TokenView,
)
    requires
        !valid_at(cache, now),
        issued.expires_at - now > TOKEN_MIN_VALIDITY_SECS,
    ensures
        valid_at(Some(issued), now),
{
}

} // verus!

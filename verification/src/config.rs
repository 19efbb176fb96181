//! Building an authentication method from cloud configuration values.
//!
//! Locating and reading the configuration file is the embedding
//! application's job; it hands the values of the chosen cloud over as a
//! [`CloudConfig`], and the defaulting and assembly rules are verified
//! here.

use vstd::prelude::*;

use crate::error::{Error, ErrorKind};
use crate::identity::{new_password_view, Password, PasswordView};
use crate::protocol::{project_scope_view, AuthRootView, AuthView};
use crate::urls::parsed_url_of;

verus! {

/// The values a credential source provides for one cloud: the
/// authentication URL and user credentials, with optional domains (which
/// default to `Default`), an optional project to scope to, and an optional
/// region preference.
#[derive(Debug)]
pub struct CloudConfig {
    pub auth_url: String,
    pub username: String,
    pub password: String,
    pub user_domain_name: Option<String>,
    pub project_name: Option<String>,
    pub project_domain_name: Option<String>,
    pub region_name: Option<String>,
}

/// The authentication state that a cloud's configuration values assemble
/// to: domains defaulted, the project scope set exactly when a project is
/// named, and the region preference taken over.
pub open spec fn configured_password_view(c: CloudConfig) -> PasswordView {
    let user_domain = match c.user_domain_name {
        Some(d) => d@,
        None => "Default"@,
    };
    let project_domain = match c.project_domain_name {
        Some(d) => d@,
        None => "Default"@,
    };
    let base = new_password_view(c.auth_url@, c.username@, c.password@, user_domain);
    PasswordView {
        region: c.region_name.deep_view(),
        body: AuthRootView {
            auth: AuthView {
                scope: match c.project_name {
                    Some(pn) => Some(project_scope_view(pn@, project_domain)),
                    None => None,
                },
                ..base.body.auth
            },
        },
        ..base
    }
}

/// Build a password authentication from one cloud's configuration values.
/// Fails with `InvalidConfig` exactly when the authentication URL does not
/// parse.
pub fn password_from_config(cloud: &CloudConfig) -> (r: Result<Password, Error>)
    ensures
        match r {
            Ok(p) => parsed_url_of(cloud.auth_url@) is Some && p@ == configured_password_view(
                *cloud,
            ),
            Err(e) => {
                &&& parsed_url_of(cloud.auth_url@) is None
                &&& e@.kind == ErrorKind::InvalidConfig
                &&& e@.status is None
                &&& e@.message == "invalid authentication URL"@
            },
        },
{
    let user_domain: &str = match &cloud.user_domain_name {
        Some(d) => d.as_str(),
        None => "Default",
    };
    let mut id = match Password::new(
        cloud.auth_url.as_str(),
        cloud.username.as_str(),
        cloud.password.as_str(),
        user_domain,
    ) {
        Ok(p) => p,
        Err(e) => {
            return Err(e);
        },
    };
    match &cloud.project_name {
        Some(pn) => {
            let project_domain: &str = match &cloud.project_domain_name {
                Some(d) => d.as_str(),
                None => "Default",
            };
            id.set_project_scope(pn.as_str(), project_domain);
        },
        None => {},
    }
    match &cloud.region_name {
        Some(rg) => {
            id.set_region(rg.as_str());
        },
        None => {},
    }
    Ok(id)
}

} // verus!

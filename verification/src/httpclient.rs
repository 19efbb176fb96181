//! Trusted shims over the HTTP client handle.
//!
//! The library never performs a network call itself; it only carries the
//! client handle so that the embedding application can execute the requests
//! the library prepares.  The handle is opaque to the verifier.

use vstd::prelude::*;

verus! {

#[verifier::external_type_specification]
#[verifier::external_body]
pub struct ExClient(reqwest::Client);

/// Relies on `reqwest::Client::new` to build a client with default settings.
/// Nothing is stated of the handle: it is opaque and only carried through.
#[verifier::external_body]
pub fn new_http_client() -> reqwest::Client {
    reqwest::Client::new()
}

/// Relies on `reqwest::Client::clone`: a client is a cheap shared handle to
/// one connection pool, and cloning duplicates the handle.  Nothing is
/// stated of the result: the handle is opaque and only carried through.
#[verifier::external_body]
pub fn clone_client(client: &reqwest::Client) -> reqwest::Client {
    client.clone()
}

} // verus!

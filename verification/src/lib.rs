//! Authenticated-request core for a catalog-based cloud API client.
//!
//! The crate obtains and caches short-lived access tokens, resolves logical
//! service names to concrete endpoint URLs through a service catalog, and
//! models outgoing requests as immutable builder values, so that callers
//! never handle raw tokens.  Network transport and file access are left to
//! the embedding application; everything that decides, parses or resolves is
//! verified here.

pub mod cache;
pub mod catalog;
pub mod client;
pub mod config;
pub mod error;
pub mod identity;
pub mod protocol;
pub mod stream;

mod clock;
mod httpclient;
mod jsontext;
mod strutil;
mod urls;

pub use error::{Error, ErrorKind};

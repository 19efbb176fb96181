//! Trusted shims over URL parsing.

use vstd::prelude::*;

verus! {

/// The serialization of the URL that a string parses to, or `None` where the
/// string is not a valid absolute URL.  The result depends on the string
/// alone.
pub uninterp spec fn parsed_url_of(s: Seq<char>) -> Option<Seq<char>>;

/// The path component of the URL that a string parses to.  Meaningful only
/// where [`parsed_url_of`] is `Some`; the result depends on the string alone.
pub uninterp spec fn url_path_of(s: Seq<char>) -> Seq<char>;

/// Relies on `reqwest::Url::parse` (the `url` crate) and `Url::as_str`:
/// parsing either fails or yields a URL whose serialization and path are
/// functions of the input string alone.
#[verifier::external_body]
pub fn parse_url(s: &str) -> (r: Option<String>)
    ensures
        match r {
            Some(u) => parsed_url_of(s@) == Some(u@),
            None => parsed_url_of(s@) is None,
        },
{
    match reqwest::Url::parse(s) {
        Ok(u) => Some(u.as_str().to_string()),
        Err(_) => None,
    }
}

/// Relies on `reqwest::Url::parse` and `Url::path`: the path component of a
/// successfully parsed URL is a function of the input string alone.
#[verifier::external_body]
pub fn parse_url_path(s: &str) -> (r: Option<String>)
    ensures
        match r {
            Some(p) => parsed_url_of(s@) is Some && p@ == url_path_of(s@),
            None => parsed_url_of(s@) is None,
        },
{
    match reqwest::Url::parse(s) {
        Ok(u) => Some(u.path().to_string()),
        Err(_) => None,
    }
}

} // verus!

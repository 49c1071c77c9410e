//! Trusted view of URL parsing and resolution.
//!
//! Address parsing, normalization, relative-reference resolution and
//! host/path accessors are delegated to the `url` crate.  What those
//! operations return is a function of their string arguments alone, but
//! stating it exactly would amount to restating the WHATWG URL algorithm,
//! so each result is given an uninterpreted name; contracts elsewhere in
//! the crate are phrased over these names.  `None` always means the
//! input did not parse (or, for [`url_domain_of`], has no domain host).

use vstd::prelude::*;

verus! {

/// The normalized serialization of the URL a string parses to.
pub uninterp spec fn url_normal_of(s: Seq<char>) -> Option<Seq<char>>;

/// The normalized serialization of `rel` resolved against the URL that
/// `base` parses to.
pub uninterp spec fn url_join_of(base: Seq<char>, rel: Seq<char>) -> Option<Seq<char>>;

/// The domain of the URL a string parses to, when its host is a domain.
pub uninterp spec fn url_domain_of(s: Seq<char>) -> Option<Seq<char>>;

/// The path component of the URL a string parses to.
pub uninterp spec fn url_path_of(s: Seq<char>) -> Option<Seq<char>>;

/// Relies on `url::Url::parse` and `url::Url::as_str`: parsing either
/// fails or yields a URL whose serialization `as_str` returns; both are
/// functions of the input string alone.
#[verifier::external_body]
pub fn normalize_url(s: &str) -> (r: Option<String>)
    ensures
        match r {
            Some(u) => url_normal_of(s@) == Some(u@),
            None => url_normal_of(s@) is None,
        },
{
    url::Url::parse(s).ok().map(|u| u.as_str().to_owned())
}

/// Relies on `url::Url::join` (with `url::Url::parse` and
/// `url::Url::as_str` converting the arguments and the result): resolves
/// a possibly-relative reference against a base URL.
#[verifier::external_body]
pub fn join_url(base: &str, rel: &str) -> (r: Option<String>)
    ensures
        match r {
            Some(u) => url_join_of(base@, rel@) == Some(u@),
            None => url_join_of(base@, rel@) is None,
        },
{
    match url::Url::parse(base) {
        Ok(b) => b.join(rel).ok().map(|u| u.as_str().to_owned()),
        Err(_) => None,
    }
}

/// Relies on `url::Url::domain` (with `url::Url::parse` converting the
/// argument): `Some` exactly when the URL's host is a domain name.
#[verifier::external_body]
pub fn url_domain(s: &str) -> (r: Option<String>)
    ensures
        match r {
            Some(d) => url_domain_of(s@) == Some(d@),
            None => url_domain_of(s@) is None,
        },
{
    match url::Url::parse(s) {
        Ok(u) => u.domain().map(|d| d.to_owned()),
        Err(_) => None,
    }
}

/// Relies on `url::Url::path` (with `url::Url::parse` converting the
/// argument): the percent-encoded path component of the URL.
#[verifier::external_body]
pub fn url_path(s: &str) -> (r: Option<String>)
    ensures
        match r {
            Some(p) => url_path_of(s@) == Some(p@),
            None => url_path_of(s@) is None,
        },
{
    url::Url::parse(s).ok().map(|u| u.path().to_owned())
}

} // verus!

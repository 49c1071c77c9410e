//! The fixed header set every portal exchange carries.
//!
//! Every request the engine issues (other than the two plain fetches of
//! the base address and the artifact download) sends the same four
//! headers derived from the base address, optionally followed by custom
//! headers — the CSRF and referer pair once the session is upgraded.

use vstd::prelude::*;
use vstd::string::StrSliceExecFns;

use crate::http::{headers_view, HttpHeader};
use crate::urls::{normalize_url, url_domain, url_domain_of, url_normal_of};

verus! {

/// Why the header set could not be built.
#[derive(Debug, Clone, Copy, PartialEq, Eq, Structural)]
pub enum HeaderFailure {
    /// The base address does not parse as a URL.
    BaseUriInvalid,
    /// The base address has no domain host.
    NoDomain,
}

/// The ghost image of an optional custom-header list.
pub open spec fn custom_view(custom: Option<&Vec<HttpHeader>>) -> Option<
    Seq<(Seq<char>, Seq<char>)>,
> {
    match custom {
        Some(cs) => Some(headers_view(cs@)),
        None => None,
    }
}

/// What [`common_headers`] returns: host and origin derived from the
/// base address, the two fixed portal markers, then the custom headers
/// in order.
pub open spec fn common_headers_model(
    custom: Option<Seq<(Seq<char>, Seq<char>)>>,
    base_uri: Seq<char>,
) -> Result<Seq<(Seq<char>, Seq<char>)>, HeaderFailure> {
    match url_normal_of(base_uri) {
        None => Err(HeaderFailure::BaseUriInvalid),
        Some(origin) => match url_domain_of(base_uri) {
            None => Err(HeaderFailure::NoDomain),
            Some(domain) => {
                let fixed = seq![
                    ("host"@, domain),
                    ("origin"@, origin),
                    ("X-Citrix-Isusinghttps"@, "Yes"@),
                    ("X-Requested-With"@, "XMLHttpRequest"@),
                ];
                Ok(
                    match custom {
                        Some(cs) => fixed + cs,
                        None => fixed,
                    },
                )
            },
        },
    }
}

/// Build the header set for one exchange: host (the base address's
/// domain), origin (its normalized serialization), the secure-transport
/// and requested-with markers, and any custom headers appended in order.
pub fn common_headers(custom: Option<&Vec<HttpHeader>>, base_uri: &str) -> (r: Result<
    Vec<HttpHeader>,
    HeaderFailure,
>)
    ensures
        match r {
            Ok(hs) => common_headers_model(custom_view(custom), base_uri@) == Ok::<
                _,
                HeaderFailure,
            >(headers_view(hs@)),
            Err(e) => common_headers_model(custom_view(custom), base_uri@) == Err::<
                Seq<(Seq<char>, Seq<char>)>,
                _,
            >(e),
        },
{
    let origin = match normalize_url(base_uri) {
        Some(u) => u,
        None => {
            return Err(HeaderFailure::BaseUriInvalid);
        },
    };
    let domain = match url_domain(base_uri) {
        Some(d) => d,
        None => {
            return Err(HeaderFailure::NoDomain);
        },
    };
    let mut hs: Vec<HttpHeader> = Vec::new();
    hs.push(HttpHeader { name: "host".to_owned(), value: domain });
    hs.push(HttpHeader { name: "origin".to_owned(), value: origin });
    hs.push(HttpHeader { name: "X-Citrix-Isusinghttps".to_owned(), value: "Yes".to_owned() });
    hs.push(
        HttpHeader { name: "X-Requested-With".to_owned(), value: "XMLHttpRequest".to_owned() },
    );
    let ghost fixed = headers_view(hs@);
    proof {
        assert(fixed =~= common_headers_model(custom_view(custom), base_uri@)->Ok_0.subrange(
            0,
            4,
        ));
    }
    match custom {
        None => {
            proof {
                assert(headers_view(hs@) =~= common_headers_model(
                    custom_view(custom),
                    base_uri@,
                )->Ok_0);
            }
            Ok(hs)
        },
        Some(cs) => {
            let n = cs.len();
            let mut i: usize = 0;
            while i < n
                invariant
                    n == cs@.len(),
                    i <= n,
                    headers_view(hs@) =~= fixed + headers_view(cs@).subrange(0, i as int),
                decreases n - i,
            {
                let c = &cs[i];
                let h = HttpHeader { name: c.name.clone(), value: c.value.clone() };
                proof {
                    assert(h@ == cs@[i as int]@);
                }
                let ghost pre = hs@;
                let ghost hview = h@;
                hs.push(h);
                proof {
                    assert(headers_view(hs@) =~= headers_view(pre).push(hview));
                    assert(headers_view(pre).push(hview) =~= fixed + headers_view(cs@).subrange(
                        0,
                        i + 1,
                    ));
                }
                i += 1;
            }
            proof {
                assert(headers_view(cs@).subrange(0, n as int) =~= headers_view(cs@));
                assert(headers_view(hs@) =~= common_headers_model(
                    custom_view(custom),
                    base_uri@,
                )->Ok_0);
            }
            Ok(hs)
        },
    }
}

} // verus!

use vstd::prelude::*;

verus! {

#[verifier::external_type_specification]
#[verifier::external_body]
pub struct ExUrl(reqwest::Url);

/// Whether a text parses as an absolute URL.
pub uninterp spec fn url_parses(s: Seq<char>) -> bool;

/// Whether the URL that a text parses to names a host.
pub uninterp spec fn url_names_host(s: Seq<char>) -> bool;

/// Relies on `url::Url::parse`, re-exported by reqwest as `reqwest::Url`, and
/// on `url::Url::has_host` of its result: whether the text parses, and whether
/// the parsed address names a host, which reqwest asks of every URL it sends a
/// request to, both depend on the text alone.
#[verifier::external_body]
pub(crate) fn parse_url(s: &str) -> (r: Option<(reqwest::Url, bool)>)
    ensures
        r is Some <==> url_parses(s@),
        r is Some ==> r->Some_0.1 == url_names_host(s@),
{
    match reqwest::Url::parse(s) {
        Ok(u) => {
            let has_host = u.has_host();
            Some((u, has_host))
        },
        Err(_) => None,
    }
}

} // verus!

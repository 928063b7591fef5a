//! The validated base endpoint: address parsing and joining, and the two
//! security-relevant facts the executor reads from an address.
use vstd::prelude::*;

use crate::errors::AgentError;

verus! {

/// What resolving a base address yields when it is syntactically valid: the
/// canonical API root (the address joined with the fixed API root path), its
/// scheme, and its host when it has one. Left uninterpreted: it stands for
/// exactly what URL parsing and joining produce, which depends on the
/// address alone.
pub uninterp spec fn api_root_of(base: Seq<char>) -> Option<
    (Seq<char>, Seq<char>, Option<Seq<char>>),
>;

/// The view of an optional host string.
pub open spec fn host_view(host: Option<String>) -> Option<Seq<char>> {
    match host {
        Some(h) => Some(h@),
        None => None,
    }
}

/// What resolving a relative path against an absolute address yields. Left
/// uninterpreted: it stands for exactly what URL parsing and joining produce,
/// which depends on the two strings alone.
pub uninterp spec fn joined_url_of(root: Seq<char>, rel: Seq<char>) -> Option<Seq<char>>;

/// Relies on `url::Url::parse` and `url::Url::join` (reexported by reqwest),
/// and on `Url::scheme` and `Url::host_str` of the joined URL: the base
/// address is parsed, joined with `api/v2/`, and rendered back, with its
/// scheme and host handed out as plain strings. The whole result depends on
/// the base address alone.
#[verifier::external_body]
fn resolve_api_root(base: &str) -> (r: Option<(String, String, Option<String>)>)
    ensures
        r is Some <==> api_root_of(base@) is Some,
        r matches Some((url, scheme, host)) ==> api_root_of(base@) == Some(
            (url@, scheme@, host_view(host)),
        ),
{
    let url = reqwest::Url::parse(base).and_then(|u| u.join("api/v2/")).ok()?;
    let scheme = url.scheme().to_string();
    let host = url.host_str().map(|h| h.to_string());
    Some((url.as_str().to_string(), scheme, host))
}

/// Relies on `url::Url::parse` and `url::Url::join` (reexported by reqwest):
/// resolving a relative path against an absolute root address, whose result
/// depends on the two strings alone.
#[verifier::external_body]
fn join_url(root: &str, rel: &str) -> (r: Option<String>)
    ensures
        r is Some <==> joined_url_of(root@, rel@) is Some,
        r matches Some(url) ==> joined_url_of(root@, rel@) == Some(url@),
{
    let joined = reqwest::Url::parse(root).ok()?.join(rel).ok()?;
    Some(joined.as_str().to_string())
}

/// A validated base endpoint: the canonical API root address, plus the two
/// facts about it that the authentication policy reads. Immutable after
/// construction; an invalid address fails at construction time, never later.
pub struct Endpoint {
    /// The canonical API root address: the base address joined with `api/v2/`.
    pub url: String,
    /// Whether the address scheme is `https`.
    pub secure: bool,
    /// Whether the host is the local loopback name `localhost`.
    pub loopback: bool,
}

/// What a validated endpoint must be for a given base address: its root is
/// the resolved API root, its `secure` fact is exactly "the scheme is
/// `https`", and its `loopback` fact exactly "the host is `localhost`".
pub open spec fn endpoint_resolves(base: Seq<char>, e: Endpoint) -> bool {
    api_root_of(base) matches Some(parts) && e.url@ == parts.0 && e.secure == (parts.1
        == "https"@) && e.loopback == (parts.2 == Some("localhost"@))
}

impl Endpoint {
    /// Resolve a base address into a validated endpoint, or fail with
    /// `InvalidReplicaUrl` carrying the rejected address. No network exchange
    /// is involved: this is pure address computation; the two policy facts
    /// are computed here, in verified code, from the resolved scheme and
    /// host.
    pub fn resolve(base: &str) -> (r: Result<Endpoint, AgentError>)
        ensures
            r is Ok <==> api_root_of(base@) is Some,
            r matches Ok(e) ==> endpoint_resolves(base@, e),
            r matches Err(e) ==> (e matches AgentError::InvalidReplicaUrl(u) && u@ == base@),
    {
        match resolve_api_root(base) {
            Some((url, scheme, host)) => {
                let https: String = "https".to_owned();
                let localhost: String = "localhost".to_owned();
                let secure = scheme == https;
                let loopback = match &host {
                    Some(h) => *h == localhost,
                    None => false,
                };
                Ok(Endpoint { url, secure, loopback })
            },
            None => Err(AgentError::InvalidReplicaUrl(base.to_owned())),
        }
    }

    /// Resolve a relative path against this endpoint's API root.
    pub fn join(&self, rel: &str) -> (r: Option<String>)
        ensures
            r is Some <==> joined_url_of(self.url@, rel@) is Some,
            r matches Some(url) ==> joined_url_of(self.url@, rel@) == Some(url@),
    {
        join_url(self.url.as_str(), rel)
    }
}

} // verus!

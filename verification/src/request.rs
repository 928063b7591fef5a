//! The wire-level data carried by one logical call: the outgoing request and
//! the response envelope.
use vstd::prelude::*;

verus! {

/// The HTTP method of an outgoing request. The four logical operations use
/// only these two.
#[derive(Clone, Copy, Debug, PartialEq, Eq, Structural)]
pub enum HttpMethod {
    Get,
    Post,
}

/// One outgoing request: method, absolute address, header set, and optional
/// body bytes. Across authentication retries only the authorization header
/// may be replaced; every other part stays exactly as built.
pub struct OutgoingRequest {
    /// The HTTP method.
    pub method: HttpMethod,
    /// The absolute address the request is sent to.
    pub url: String,
    /// The `Content-Type` header value, fixed to the binary envelope media
    /// type at construction.
    pub content_type: String,
    /// The `Authorization` header value, if credentials are attached.
    pub authorization: Option<String>,
    /// The request body bytes, if any.
    pub body: Option<Vec<u8>>,
}

impl OutgoingRequest {
    /// Build the one request of a logical call, carrying the fixed binary
    /// envelope media type and no authorization yet.
    pub fn new(method: HttpMethod, url: String, body: Option<Vec<u8>>) -> (r: OutgoingRequest)
        ensures
            r.method == method,
            r.url == url,
            r.body == body,
            r.content_type@ == "application/cbor"@,
            r.authorization is None,
    {
        OutgoingRequest {
            method,
            url,
            content_type: "application/cbor".to_owned(),
            authorization: None,
            body,
        }
    }
}

/// One response as the executor sees it: the status code, the `Content-Type`
/// header value when the peer sent one, and the raw body bytes. Produced once
/// per attempt and never mutated.
pub struct ResponseEnvelope {
    /// The HTTP status code.
    pub status: u16,
    /// The value of the `Content-Type` header, if present.
    pub content_type: Option<String>,
    /// The raw response body.
    pub body: Vec<u8>,
}

/// The transient authentication state of one logical call, owned by that call
/// for its own lifetime only: no credential applied yet, the cached
/// credential applied, or freshly demanded credentials applied the given
/// number of times.
pub enum AuthAttemptState {
    /// No credential has been attached to the request.
    NotTried,
    /// The provider's cached credential has been attached.
    CachedApplied,
    /// Freshly demanded credentials have been attached this many times.
    RequiredApplied(nat),
}

} // verus!

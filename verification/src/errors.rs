//! The failure taxonomy of the transport.
use vstd::prelude::*;

verus! {

/// The payload of a terminal HTTP error response: the status code, the
/// `Content-Type` header value when the peer sent one, and the raw body bytes.
/// The body is not assumed to be in the binary envelope format.
#[derive(Debug)]
pub struct HttpErrorPayload {
    /// The HTTP status code of the terminal response.
    pub status: u16,
    /// The value of the `Content-Type` header, if present.
    pub content_type: Option<String>,
    /// The raw response body, unchanged.
    pub content: Vec<u8>,
}

/// Every failure a logical call can return. Each failure is scoped to the one
/// call that produced it; none is fatal to the process.
#[derive(Debug)]
pub enum AgentError {
    /// The supplied address could not be parsed or joined with the API root
    /// path, carrying the rejected address. Raised at construction time for
    /// the base address; the four logical operations also return it should
    /// their relative path fail to resolve against the API root, which the
    /// fixed operation paths never do.
    InvalidReplicaUrl(String),
    /// The underlying connector could not complete the network exchange.
    /// Not retried at this layer.
    TransportError(String),
    /// The credential provider itself reported an error, or credentials were
    /// demanded by the peer and no provider was configured.
    AuthenticationError(String),
    /// A `401 Unauthorized` response arrived over a non-secure, non-local
    /// connection; credentials are withheld by policy rather than attempted.
    CannotUseAuthenticationOnNonSecureUrl,
    /// The final response status is a client or server error.
    HttpError(HttpErrorPayload),
}

} // verus!

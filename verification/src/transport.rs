//! The authenticated request executor and the endpoint router: one outgoing
//! request per logical call, driven through zero or more authentication
//! retries, with the final response classified into success or a typed
//! failure.
use vstd::prelude::*;
use vstd::string::StringExecFns;

use crate::auth::PasswordManager;
use crate::auth::is_basic_auth;
use crate::endpoint::Endpoint;
use crate::endpoint::joined_url_of;
use crate::errors::AgentError;
use crate::errors::HttpErrorPayload;
use crate::request::AuthAttemptState;
use crate::request::HttpMethod;
use crate::request::OutgoingRequest;
use crate::request::ResponseEnvelope;

verus! {

/// A capability that can send one request over the secured connection and
/// hand back the peer's response. Establishing the connection itself and any
/// timeout policy are its concern, not the executor's.
///
/// Nothing is specified of the response: the executor is verified to behave
/// correctly for every outcome of a send.
pub trait Connector: Send + Sync {
    /// Send one request and return the status, content type and body of the
    /// response, or fail with a description of the transport fault.
    fn send(&self, request: &OutgoingRequest) -> Result<ResponseEnvelope, String>;
}

/// A status in the client-error or server-error range.
pub open spec fn is_error_status(status: u16) -> bool {
    400 <= status < 600
}

/// Classify a terminal response: a client- or server-error status yields an
/// `HttpError` carrying the peer's status, content type and body bytes
/// exactly as received, with no transformation applied; any other status
/// yields success with the raw body.
pub fn classify_response(response: ResponseEnvelope) -> (r: Result<Vec<u8>, AgentError>)
    ensures
        is_error_status(response.status) ==> (r matches Err(e)
            && e matches AgentError::HttpError(p)
            && p.status == response.status
            && p.content_type == response.content_type
            && p.content == response.body),
        !is_error_status(response.status) ==> (r matches Ok(b) && b == response.body),
{
    if 400 <= response.status && response.status < 600 {
        Err(AgentError::HttpError(HttpErrorPayload {
            status: response.status,
            content_type: response.content_type,
            content: response.body,
        }))
    } else {
        Ok(response.body)
    }
}

/// The relative path of the submit-call operation for a target identifier.
pub open spec fn call_path_spec(id: Seq<char>) -> Seq<char> {
    "canister/"@ + id + "/call"@
}

/// The relative path of the read-state operation for a target identifier.
pub open spec fn read_state_path_spec(id: Seq<char>) -> Seq<char> {
    "canister/"@ + id + "/read_state"@
}

/// The relative path of the query operation for a target identifier.
pub open spec fn query_path_spec(id: Seq<char>) -> Seq<char> {
    "canister/"@ + id + "/query"@
}

/// The relative path of the status operation.
pub open spec fn status_path_spec() -> Seq<char> {
    "status"@
}

/// Build the submit-call path for a target identifier.
pub fn call_path(effective_canister_id: &str) -> (r: String)
    ensures
        r@ == call_path_spec(effective_canister_id@),
{
    let p: String = "canister/".to_owned();
    let p = p.concat(effective_canister_id);
    p.concat("/call")
}

/// Build the read-state path for a target identifier.
pub fn read_state_path(effective_canister_id: &str) -> (r: String)
    ensures
        r@ == read_state_path_spec(effective_canister_id@),
{
    let p: String = "canister/".to_owned();
    let p = p.concat(effective_canister_id);
    p.concat("/read_state")
}

/// Build the query path for a target identifier.
pub fn query_path(effective_canister_id: &str) -> (r: String)
    ensures
        r@ == query_path_spec(effective_canister_id@),
{
    let p: String = "canister/".to_owned();
    let p = p.concat(effective_canister_id);
    p.concat("/query")
}

/// What the executor guarantees of the outcome of one logical call against a
/// given endpoint and relative path, whatever the connector and the
/// credential provider returned:
/// an `InvalidReplicaUrl` failure exactly when the path does not resolve
/// against the endpoint; authentication over a non-secure connection refused
/// only for a non-secure, non-loopback endpoint (never for a secure or local
/// one); and a terminal `HttpError` only for an error status — a terminal
/// `401` only where escalation was permitted at all and the call's retry
/// budget ran out against a peer that kept challenging.
pub open spec fn outcome_follows_policy<T>(
    endpoint: Endpoint,
    rel: Seq<char>,
    r: Result<T, AgentError>,
) -> bool {
    &&& (joined_url_of(endpoint.url@, rel) is None <==> r matches Err(
        AgentError::InvalidReplicaUrl(_),
    ))
    &&& (r matches Err(AgentError::CannotUseAuthenticationOnNonSecureUrl) ==> !endpoint.secure
        && !endpoint.loopback)
    &&& (r matches Err(AgentError::HttpError(p)) ==> is_error_status(p.status) && (p.status == 401
        ==> endpoint.secure || endpoint.loopback))
}

/// The transport: a validated endpoint, a connector that performs the
/// network exchanges, and an optional credential provider. The connector and
/// the provider are shared, read-only capability handles; each logical call
/// owns its request, response and authentication state exclusively.
pub struct ReqwestHttpReplicaV2TransportImpl<C: Connector, P: PasswordManager> {
    /// The validated endpoint every call is resolved against.
    pub endpoint: Endpoint,
    /// The capability that performs the network exchanges.
    pub connector: C,
    /// The credential provider, or `None` when authentication is disabled.
    pub password_manager: Option<P>,
    /// How many credential escalations one call may still attempt: the
    /// externally imposed cancellation on the otherwise unbounded `401`
    /// retry loop. Construction sets the largest representable count, which
    /// in practice never runs out; a caller that needs an earlier abort
    /// lowers it. When it runs out, the last `401` response is classified as
    /// the terminal response.
    pub retry_budget: u64,
}

impl<C: Connector, P: PasswordManager> ReqwestHttpReplicaV2TransportImpl<C, P> {
    /// Build a transport from a base address and a connector. Fails with
    /// `InvalidReplicaUrl` exactly when the address cannot be parsed or
    /// joined with the API root path; no network exchange is performed.
    pub fn create(url: &str, connector: C) -> (r: Result<Self, AgentError>)
        ensures
            r is Ok <==> crate::endpoint::api_root_of(url@) is Some,
            r matches Ok(t) ==> crate::endpoint::endpoint_resolves(url@, t.endpoint)
                && t.password_manager is None && t.connector == connector && t.retry_budget
                == u64::MAX,
            r matches Err(e) ==> (e matches AgentError::InvalidReplicaUrl(u) && u@ == url@),
    {
        match Endpoint::resolve(url) {
            Ok(endpoint) => Ok(ReqwestHttpReplicaV2TransportImpl {
                endpoint,
                connector,
                password_manager: None,
                retry_budget: u64::MAX,
            }),
            Err(e) => Err(e),
        }
    }

    /// Equip the transport with a credential provider, keeping its endpoint
    /// and connector.
    pub fn with_password_manager<P1: PasswordManager>(self, password_manager: P1) -> (r:
        ReqwestHttpReplicaV2TransportImpl<C, P1>)
        ensures
            r.endpoint == self.endpoint,
            r.connector == self.connector,
            r.retry_budget == self.retry_budget,
            r.password_manager matches Some(p) && p == password_manager,
    {
        ReqwestHttpReplicaV2TransportImpl {
            endpoint: self.endpoint,
            connector: self.connector,
            password_manager: Some(password_manager),
            retry_budget: self.retry_budget,
        }
    }

    /// The configured credential provider, if any.
    pub fn password_manager(&self) -> (r: &Option<P>)
        ensures
            *r == self.password_manager,
    {
        &self.password_manager
    }

    /// Mutable access to the configured credential provider.
    pub fn password_manager_mut(&mut self) -> (r: &mut Option<P>)
        ensures
            *r == old(self).password_manager,
            final(self).password_manager == *final(r),
            final(self).endpoint == old(self).endpoint,
            final(self).connector == old(self).connector,
            final(self).retry_budget == old(self).retry_budget,
    {
        &mut self.password_manager
    }

    /// Replace the configured credential provider, keeping the endpoint and
    /// the connector.
    pub fn set_password_manager(&mut self, password_manager: Option<P>)
        ensures
            final(self).password_manager == password_manager,
            final(self).endpoint == old(self).endpoint,
            final(self).connector == old(self).connector,
            final(self).retry_budget == old(self).retry_budget,
    {
        self.password_manager = password_manager;
    }

    /// Attach a credential to the request, or leave it as it is. With
    /// `cached` the provider's stored credential is consulted and `None`
    /// simply leaves the request unchanged; otherwise a credential is
    /// demanded, which fails when no provider is configured, and success
    /// means a Basic header now stands on the request, overwriting any
    /// earlier one. Only the authorization header may change; a provider
    /// failure becomes an `AuthenticationError` and leaves the request
    /// unchanged.
    fn maybe_add_authorization(&self, http_request: &mut OutgoingRequest, cached: bool) -> (r:
        Result<(), AgentError>)
        ensures
            final(http_request).method == old(http_request).method,
            final(http_request).url == old(http_request).url,
            final(http_request).content_type == old(http_request).content_type,
            final(http_request).body == old(http_request).body,
            self.password_manager is None && cached ==> (r is Ok && *final(http_request)
                == *old(http_request)),
            self.password_manager is None && !cached ==> (r matches Err(
                AgentError::AuthenticationError(_),
            )),
            r matches Err(e) ==> ((e matches AgentError::AuthenticationError(_)) && *final(
                http_request) == *old(http_request)),
            r is Ok ==> (final(http_request).authorization == old(http_request).authorization || (
            final(http_request).authorization matches Some(a) && is_basic_auth(a@))),
            self.password_manager is Some && !cached && r is Ok ==> (final(
                http_request).authorization matches Some(a) && is_basic_auth(a@)),
    {
        match &self.password_manager {
            None => {
                if cached {
                    Ok(())
                } else {
                    Err(AgentError::AuthenticationError(
                        "credentials were demanded but no credential provider is configured".to_owned(),
                    ))
                }
            },
            Some(pm) => {
                let maybe_user_pass: Result<Option<(String, String)>, String> = if cached {
                    pm.cached(http_request.url.as_str())
                } else {
                    match pm.required(http_request.url.as_str()) {
                        Ok(cred) => Ok(Some(cred)),
                        Err(e) => Err(e),
                    }
                };
                match maybe_user_pass {
                    Err(e) => Err(AgentError::AuthenticationError(e)),
                    Ok(None) => Ok(()),
                    Ok(Some((user, pass))) => {
                        http_request.authorization = Some(
                            crate::auth::authorization_header_value(
                                user.as_str(),
                                pass.as_str(),
                            ),
                        );
                        Ok(())
                    },
                }
            },
        }
    }

    /// The authenticated request executor: resolve the path, build the one
    /// request of this call, attach the cached credential when one exists,
    /// then send and keep escalating credentials for as long as the peer
    /// answers `401 Unauthorized` — over a secure or local connection only —
    /// and classify the terminal response. The protocol itself imposes no
    /// retry bound: a peer that keeps answering `401` keeps the call going
    /// until the provider or the connector aborts it with an error, or the
    /// transport's retry budget — the externally imposed cancellation — runs
    /// out, upon which the last `401` is classified as terminal.
    pub fn execute(&self, method: HttpMethod, endpoint: &str, body: Option<Vec<u8>>) -> (r: Result<
        Vec<u8>,
        AgentError,
    >)
        ensures
            outcome_follows_policy(self.endpoint, endpoint@, r),
    {
        let url = match self.endpoint.join(endpoint) {
            Some(u) => u,
            None => {
                return Err(AgentError::InvalidReplicaUrl(endpoint.to_owned()));
            },
        };
        let mut http_request = OutgoingRequest::new(method, url, body);
        let ghost mut auth_state = AuthAttemptState::NotTried;
        match self.maybe_add_authorization(&mut http_request, true) {
            Ok(()) => {},
            Err(e) => {
                return Err(e);
            },
        }
        proof {
            if http_request.authorization is Some {
                auth_state = AuthAttemptState::CachedApplied;
            }
        }
        let mut budget: u64 = self.retry_budget;
        loop
            invariant
                joined_url_of(self.endpoint.url@, endpoint@) is Some,
                auth_state is NotTried ==> http_request.authorization is None,
                auth_state is RequiredApplied ==> self.password_manager is Some,
                http_request.authorization matches Some(a) ==> is_basic_auth(a@),
            decreases budget,
        {
            let response = match self.connector.send(&http_request) {
                Ok(response) => response,
                Err(e) => {
                    return Err(AgentError::TransportError(e));
                },
            };
            if response.status == 401 {
                if self.endpoint.secure || self.endpoint.loopback {
                    if budget == 0 {
                        return classify_response(response);
                    }
                    budget = budget - 1;
                    match self.maybe_add_authorization(&mut http_request, false) {
                        Ok(()) => {},
                        Err(e) => {
                            return Err(e);
                        },
                    }
                    proof {
                        auth_state = match auth_state {
                            AuthAttemptState::RequiredApplied(n) => AuthAttemptState::RequiredApplied(
                                n + 1,
                            ),
                            _ => AuthAttemptState::RequiredApplied(1),
                        };
                    }
                } else {
                    return Err(AgentError::CannotUseAuthenticationOnNonSecureUrl);
                }
            } else {
                return classify_response(response);
            }
        }
    }

    /// The submit-call operation: `POST canister/{id}/call` with the
    /// envelope bytes passed through unmodified as the body. The response
    /// body is discarded; success is signaled by a non-error response.
    pub fn call(&self, effective_canister_id: &str, envelope: Vec<u8>) -> (r: Result<
        (),
        AgentError,
    >)
        ensures
            outcome_follows_policy(
                self.endpoint,
                call_path_spec(effective_canister_id@),
                r,
            ),
    {
        let endpoint = call_path(effective_canister_id);
        match self.execute(HttpMethod::Post, endpoint.as_str(), Some(envelope)) {
            Ok(_) => Ok(()),
            Err(e) => Err(e),
        }
    }

    /// The read-state operation: `POST canister/{id}/read_state` with the
    /// envelope bytes passed through unmodified; returns the raw response
    /// body.
    pub fn read_state(&self, effective_canister_id: &str, envelope: Vec<u8>) -> (r: Result<
        Vec<u8>,
        AgentError,
    >)
        ensures
            outcome_follows_policy(
                self.endpoint,
                read_state_path_spec(effective_canister_id@),
                r,
            ),
    {
        let endpoint = read_state_path(effective_canister_id);
        self.execute(HttpMethod::Post, endpoint.as_str(), Some(envelope))
    }

    /// The query operation: `POST canister/{id}/query` with the envelope
    /// bytes passed through unmodified; returns the raw response body.
    pub fn query(&self, effective_canister_id: &str, envelope: Vec<u8>) -> (r: Result<
        Vec<u8>,
        AgentError,
    >)
        ensures
            outcome_follows_policy(
                self.endpoint,
                query_path_spec(effective_canister_id@),
                r,
            ),
    {
        let endpoint = query_path(effective_canister_id);
        self.execute(HttpMethod::Post, endpoint.as_str(), Some(envelope))
    }

    /// The status operation: `GET status` with no body; returns the raw
    /// response body.
    pub fn status(&self) -> (r: Result<Vec<u8>, AgentError>)
        ensures
            outcome_follows_policy(self.endpoint, status_path_spec(), r),
    {
        self.execute(HttpMethod::Get, "status", None)
    }
}

} // verus!

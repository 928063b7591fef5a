//! A transport that submits binary-encoded requests to a remote compute node
//! over a secured HTTP connection, translating four logical operations
//! (submit-call, read-state, query, status) into concrete requests and
//! transparently handling HTTP Basic Authentication challenges.
pub mod auth;
pub mod endpoint;
pub mod errors;
pub mod request;
pub mod transport;

pub use auth::NoPasswordManager;
pub use auth::PasswordManager;
pub use endpoint::Endpoint;
pub use errors::AgentError;
pub use errors::HttpErrorPayload;
pub use request::AuthAttemptState;
pub use request::HttpMethod;
pub use request::OutgoingRequest;
pub use request::ResponseEnvelope;
pub use transport::Connector;
pub use transport::ReqwestHttpReplicaV2TransportImpl;

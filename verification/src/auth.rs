//! Basic Authentication credentials: the pluggable provider and the encoding
//! of a credential into an `Authorization` header value.
use vstd::prelude::*;
use vstd::string::StringExecFns;

verus! {

/// Implemented by the embedding application to cache and update an HTTP
/// Basic Authentication credential, returned as a `(username, password)`
/// pair. A provider shared across concurrent calls must itself be safe for
/// concurrent use; the executor imposes no serialization.
///
/// Nothing is specified of what an implementation returns: the executor is
/// verified to behave correctly for every outcome of these operations.
pub trait PasswordManager: Send + Sync {
    /// Retrieve the cached credential for an address. Must return without
    /// prompting; `Ok(None)` means no credential is stored for this address.
    fn cached(&self, url: &str) -> Result<Option<(String, String)>, String>;

    /// A request to that exact address was rejected as unauthorized, so a
    /// credential is demanded. May block (for example, on an interactive
    /// prompt). An error here is terminal for the call.
    fn required(&self, url: &str) -> Result<(String, String), String>;
}

impl<P: PasswordManager> PasswordManager for Box<P> {
    fn cached(&self, url: &str) -> Result<Option<(String, String)>, String> {
        (**self).cached(url)
    }

    fn required(&self, url: &str) -> Result<(String, String), String> {
        (**self).required(url)
    }
}

impl<P: PasswordManager> PasswordManager for std::sync::Arc<P> {
    fn cached(&self, url: &str) -> Result<Option<(String, String)>, String> {
        (**self).cached(url)
    }

    fn required(&self, url: &str) -> Result<(String, String), String> {
        (**self).required(url)
    }
}

/// A type with no values, indicating that no credential provider is
/// configured. Because no value of it can ever be constructed, a transport
/// parameterized by it always holds `None` for its provider, and the
/// provider operations on it are statically unreachable.
pub type NoPasswordManager = std::convert::Infallible;

/// Relies on `std::convert::Infallible` being uninhabited, as std documents:
/// no caller can ever produce the reference this function takes, so it can
/// never run; nothing is stated or assumed of its result.
#[verifier::external_body]
fn no_provider_cached(disabled: &NoPasswordManager, _url: &str) -> (r: Result<
    Option<(String, String)>,
    String,
>) {
    match *disabled {}
}

/// Relies on `std::convert::Infallible` being uninhabited, as std documents:
/// no caller can ever produce the reference this function takes, so it can
/// never run; nothing is stated or assumed of its result.
#[verifier::external_body]
fn no_provider_required(disabled: &NoPasswordManager, _url: &str) -> (r: Result<
    (String, String),
    String,
>) {
    match *disabled {}
}

impl PasswordManager for NoPasswordManager {
    fn cached(&self, url: &str) -> Result<Option<(String, String)>, String> {
        no_provider_cached(self, url)
    }

    fn required(&self, url: &str) -> Result<(String, String), String> {
        no_provider_required(self, url)
    }
}

/// The standard base64 encoding of a string's bytes. Left uninterpreted: it
/// stands for exactly what `base64::encode` returns on them.
pub uninterp spec fn base64_of(s: Seq<char>) -> Seq<char>;

/// Relies on `base64::encode`: the standard base64 encoding of the bytes of
/// the given string, which depends on that string alone.
#[verifier::external_body]
fn base64_encode(credentials: &str) -> (r: String)
    ensures
        r@ == base64_of(credentials@),
{
    base64::encode(credentials)
}

/// The full `Authorization` header value carrying a Basic Authentication
/// credential: `Basic base64(user:pass)`.
pub open spec fn basic_auth_header_value(user: Seq<char>, pass: Seq<char>) -> Seq<char> {
    "Basic "@ + base64_of(user + ":"@ + pass)
}

/// Whether a header value is a well-formed Basic Authentication header for
/// some credential.
pub open spec fn is_basic_auth(header: Seq<char>) -> bool {
    exists|user: Seq<char>, pass: Seq<char>| header == basic_auth_header_value(user, pass)
}

/// Encode a credential into the `Authorization` header value that carries it.
pub fn authorization_header_value(user: &str, pass: &str) -> (r: String)
    ensures
        r@ == basic_auth_header_value(user@, pass@),
        is_basic_auth(r@),
{
    let joined = user.to_owned().concat(":").concat(pass);
    let encoded = base64_encode(joined.as_str());
    let prefix: String = "Basic ".to_owned();
    let r = prefix.concat(encoded.as_str());
    proof {
        // The credential itself witnesses that the header is well formed.
        assert(r@ == basic_auth_header_value(user@, pass@));
    }
    r
}

} // verus!

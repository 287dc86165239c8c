use vstd::prelude::*;

verus! {

/// Errors raised while assembling the provider's configuration.
#[derive(Debug, Clone, PartialEq, Eq)]
pub enum Error {
    /// Two tenants were registered under the same name.
    DuplicateIssuer(String),
}

/// Errors raised while answering one request.
#[derive(Debug, Clone, PartialEq, Eq)]
pub enum RequestError {
    /// No tenant is registered under this name.
    UnknownIssuer(String),
    /// The connection's scheme and host do not form a valid URL.
    InvalidBaseUrl,
    /// The base URL cannot take path segments.
    CannotBeABase,
    /// Minting or another processing step failed; the message says why.
    Generic(String),
}

} // verus!

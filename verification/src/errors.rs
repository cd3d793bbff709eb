//! Error taxonomy: key-source failures, key-cache failures, and the
//! classified failures of the token verification pipeline.
use vstd::prelude::*;

verus! {

/// Failure of a key-document retrieval: the transport did not complete,
/// or the response body could not be decoded into a key set.
#[derive(Clone, Copy, Debug, PartialEq, Eq, Structural)]
pub enum SourceError {
    FetchError,
    ParseError,
}

/// Failure of a key-cache resolution: the requested key id is absent
/// from the current key set, or a refresh attempt failed underneath.
#[derive(Clone, Copy, Debug, PartialEq, Eq, Structural)]
pub enum KeyError {
    KeyNotFound,
    KeyFetchFailed(SourceError),
}

/// The claim whose constraint was violated during claim validation.
#[derive(Clone, Copy, Debug, PartialEq, Eq, Structural)]
pub enum ClaimKind {
    Expiry,
    Issuer,
    Audience,
}

/// Classified failure of a token verification call.
#[derive(Clone, Copy, Debug, PartialEq, Eq, Structural)]
pub enum VerifyError {
    /// The token is not well-formed: wrong segment count, or an
    /// undecodable header or payload.
    MalformedToken,
    /// The signing key could not be obtained from the cache.
    KeyUnavailable(KeyError),
    /// The header declares a signing algorithm other than RS256.
    UnsupportedAlgorithm,
    /// The RS256 signature does not verify under the resolved key.
    InvalidSignature,
    /// A claim constraint was violated; names the claim.
    ClaimValidationFailed(ClaimKind),
}

/// A requested key id was not found in the current key set.
#[derive(Debug, Clone)]
pub struct KeyNotFoundError {
    pub details: String,
}

impl KeyNotFoundError {
    pub fn new(message: &str) -> (r: KeyNotFoundError)
        ensures
            r.details@ == message@,
    {
        KeyNotFoundError { details: message.to_owned() }
    }

    pub fn description(&self) -> (r: &str)
        ensures
            r@ == self.details@,
    {
        self.details.as_str()
    }
}

/// A token failed verification; carries a human-readable cause.
#[derive(Debug, Clone)]
pub struct InvalidKeyError {
    pub details: String,
}

impl InvalidKeyError {
    pub fn new(message: &str) -> (r: InvalidKeyError)
        ensures
            r.details@ == message@,
    {
        InvalidKeyError { details: message.to_owned() }
    }

    pub fn description(&self) -> (r: &str)
        ensures
            r@ == self.details@,
    {
        self.details.as_str()
    }
}

impl VerifyError {
    /// Collapse a classified failure into the error type callers of the
    /// service see, with a message naming the failure kind.
    pub fn to_invalid_key_error(&self) -> (r: InvalidKeyError)
        ensures
            r.details@ == match *self {
                VerifyError::MalformedToken => "malformed token"@,
                VerifyError::KeyUnavailable(_) => "signing key unavailable"@,
                VerifyError::UnsupportedAlgorithm => "unsupported signing algorithm"@,
                VerifyError::InvalidSignature => "invalid signature"@,
                VerifyError::ClaimValidationFailed(ClaimKind::Expiry) => "claim validation failed: expiry"@,
                VerifyError::ClaimValidationFailed(ClaimKind::Issuer) => "claim validation failed: issuer"@,
                VerifyError::ClaimValidationFailed(ClaimKind::Audience) => "claim validation failed: audience"@,
            },
    {
        match *self {
            VerifyError::MalformedToken => InvalidKeyError::new("malformed token"),
            VerifyError::KeyUnavailable(_) => InvalidKeyError::new("signing key unavailable"),
            VerifyError::UnsupportedAlgorithm => InvalidKeyError::new("unsupported signing algorithm"),
            VerifyError::InvalidSignature => InvalidKeyError::new("invalid signature"),
            VerifyError::ClaimValidationFailed(ClaimKind::Expiry) => InvalidKeyError::new(
                "claim validation failed: expiry",
            ),
            VerifyError::ClaimValidationFailed(ClaimKind::Issuer) => InvalidKeyError::new(
                "claim validation failed: issuer",
            ),
            VerifyError::ClaimValidationFailed(ClaimKind::Audience) => InvalidKeyError::new(
                "claim validation failed: audience",
            ),
        }
    }
}

} // verus!

//! Verification of provider-issued JWTs against the provider's
//! published RSA signing keys: a time-bounded signing-key cache fed by
//! parsed key documents, and a token verification pipeline that checks
//! the declared algorithm, the RS256 signature, and the claim
//! constraints (expiry, issuer, audience).
pub mod configuration;
pub mod errors;
pub mod jsonval;
pub mod key_providers;
pub mod models;
pub mod routes;
pub mod validator;

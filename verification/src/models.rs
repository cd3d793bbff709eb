//! Result of a verification call: validity together with the decoded
//! claims, constructed once per call and not retained.
use vstd::prelude::*;

verus! {

/// A verified token: `valid` holds exactly when every check passed, and
/// `claims` carries the decoded payload claims.
#[derive(Debug)]
pub struct Token<T> {
    pub valid: bool,
    pub claims: T,
}

} // verus!

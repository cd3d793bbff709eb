//! The values exchanged with the external HTTP layer, and the decision
//! how a verification outcome is answered: a successful verification
//! carries its claims back, every failure kind collapses to a single
//! unauthorized signal.
use vstd::prelude::*;

use crate::errors::VerifyError;
use crate::models::Token;
use crate::validator::Claims;

verus! {

/// The request body of a verification call.
pub struct JwtBody {
    pub jwt: String,
}

/// The response body of a successful verification call.
pub struct ValidateResponse {
    pub valid: bool,
    pub claims: Claims,
}

/// Answer a verification outcome: the response body for a verified
/// token, and `None` — the unauthorized signal — for every failure
/// kind alike.
pub fn validate_outcome(outcome: Result<Token<Claims>, VerifyError>) -> (r: Option<
    ValidateResponse,
>)
    ensures
        match outcome {
            Ok(t) => r matches Some(resp) && resp.valid == t.valid && resp.claims@ == t.claims@,
            Err(_) => r is None,
        },
{
    match outcome {
        Ok(t) => Some(ValidateResponse { valid: t.valid, claims: t.claims }),
        Err(_) => None,
    }
}

} // verus!

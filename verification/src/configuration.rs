//! Settings the service is started with: the port to listen on and the
//! expected token audience and issuer. Reading them from disk is the
//! surrounding application's concern; the library only holds the values.
use vstd::prelude::*;

verus! {

/// The expected `aud` and `iss` claim values for accepted tokens.
pub struct Oauth {
    pub audience: String,
    pub issuer: String,
}

/// Service settings as consumed at startup.
pub struct Settings {
    pub application_port: u16,
    pub oauth: Oauth,
}

} // verus!

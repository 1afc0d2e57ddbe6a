//! The claims of the token that authenticates a service account. Signing
//! them is left to the caller.

use crate::types::credentials::GoogleCredentials;
use vstd::prelude::*;

verus! {

/// Number of seconds for which a signed token is valid.
pub const TOKEN_LIFETIME_SECS: usize = 3600;

/// The claims to be signed.
pub struct Claims {
    /// Issuer: the e-mail address of the service account.
    pub iss: String,
    /// The access that is asked for.
    pub scope: String,
    /// Audience: the token endpoint.
    pub aud: String,
    /// Expiration time, in seconds since the Unix epoch.
    pub exp: usize,
    /// Time of issue, in seconds since the Unix epoch.
    pub iat: usize,
}

/// The claims for `credentials`, issued at `now` seconds since the Unix
/// epoch and valid for one hour from then.
pub fn claims_at(credentials: &GoogleCredentials, now: usize) -> (claims: Claims)
    requires
        now + TOKEN_LIFETIME_SECS <= usize::MAX,
    ensures
        claims.iss@ == credentials.client_email@,
        claims.scope@ == "https://www.googleapis.com/auth/cloud-platform"@,
        claims.aud@ == credentials.token_uri@,
        claims.exp == now + TOKEN_LIFETIME_SECS,
        claims.iat == now,
{
    Claims {
        iss: credentials.client_email.clone(),
        scope: "https://www.googleapis.com/auth/cloud-platform".to_string(),
        aud: credentials.token_uri.clone(),
        exp: now + TOKEN_LIFETIME_SECS,
        iat: now,
    }
}

} // verus!

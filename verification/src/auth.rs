//! The exchange of a signed token for an access token, as far as it can be
//! computed: what is posted to the token endpoint, and until when the
//! access token that comes back is valid.

use vstd::prelude::*;

verus! {

/// Number of clock units, which are nanoseconds, in a second.
pub const NANOS_PER_SEC: u128 = 1_000_000_000;

/// The form posted to the token endpoint: the grant type of a signed-token
/// exchange, then the signed token as the assertion.
pub fn token_request_form(jwt: &str) -> (form: Vec<(String, String)>)
    ensures
        form@.len() == 2,
        form@[0].0@ == "grant_type"@,
        form@[0].1@ == "urn:ietf:params:oauth:grant-type:jwt-bearer"@,
        form@[1].0@ == "assertion"@,
        form@[1].1@ == jwt@,
{
    let mut form: Vec<(String, String)> = Vec::new();
    form.push(
        ("grant_type".to_string(), "urn:ietf:params:oauth:grant-type:jwt-bearer".to_string()),
    );
    form.push(("assertion".to_string(), jwt.to_string()));
    form
}

/// The clock reading at which an access token expires that was received at
/// reading `now` and is valid for `expires_in` seconds.
pub fn token_expiration(now: u128, expires_in: usize) -> (expiration: u128)
    requires
        now + expires_in * NANOS_PER_SEC <= u128::MAX,
    ensures
        expiration == now + expires_in * NANOS_PER_SEC,
{
    now + (expires_in as u128) * NANOS_PER_SEC
}

} // verus!

//! Service-account credentials and the token endpoint's answer.

use vstd::prelude::*;

verus! {

/// The parts of a service-account key file that authentication needs.
pub struct GoogleCredentials {
    pub private_key: String,
    pub client_email: String,
    pub token_uri: String,
}

impl Clone for GoogleCredentials {
    fn clone(&self) -> (copy: Self)
        ensures
            copy == *self,
    {
        GoogleCredentials {
            private_key: self.private_key.clone(),
            client_email: self.client_email.clone(),
            token_uri: self.token_uri.clone(),
        }
    }
}

/// The token endpoint's answer, as far as a caller reads it.
pub struct TokenResponse {
    pub access_token: String,
}

} // verus!

//! Token bookkeeping of a text-to-speech client. Time is a reading of a
//! monotonic clock in nanoseconds since an origin that the caller fixes.

use crate::services::synthesize::SynthesizeSpeechBuilder;
use crate::types::credentials::GoogleCredentials;
use crate::types::synthesize::{AudioConfig, SsmlVoiceGender};
use vstd::prelude::*;

verus! {

/// An access token and the clock reading from which it is no longer valid.
pub struct AuthToken {
    access_token: String,
    expiration: u128,
}

impl AuthToken {
    /// The token text.
    pub closed spec fn token(&self) -> Seq<char> {
        self.access_token@
    }

    /// The first clock reading at which the token counts as expired.
    pub closed spec fn expires_at(&self) -> nat {
        self.expiration as nat
    }
}

/// A client of the text-to-speech service: the credentials it authenticates
/// with and the access token it currently holds.
pub struct TextToSpeechClient {
    credentials: GoogleCredentials,
    auth_token: AuthToken,
}

impl TextToSpeechClient {
    /// The credentials of the client.
    pub closed spec fn spec_credentials(&self) -> GoogleCredentials {
        self.credentials
    }

    /// The token the client holds.
    pub closed spec fn auth_token(&self) -> AuthToken {
        self.auth_token
    }

    /// A client that holds `access_token`, valid until `expiration`.
    pub fn with_token(
        credentials: GoogleCredentials,
        access_token: String,
        expiration: u128,
    ) -> (client: Self)
        ensures
            client.spec_credentials() == credentials,
            client.auth_token().token() == access_token@,
            client.auth_token().expires_at() == expiration,
    {
        TextToSpeechClient { credentials, auth_token: AuthToken { access_token, expiration } }
    }

    /// The credentials to authenticate with.
    pub fn credentials(&self) -> (credentials: &GoogleCredentials)
        ensures
            *credentials == self.spec_credentials(),
    {
        &self.credentials
    }

    /// Whether the token has to be replaced before it is used at clock
    /// reading `now`: it has once `now` reaches its expiration.
    pub fn token_expired(&self, now: u128) -> (expired: bool)
        ensures
            expired == (now >= self.auth_token().expires_at()),
    {
        now >= self.auth_token.expiration
    }

    /// Replaces the token and its expiration; the credentials stay.
    pub fn set_token(&mut self, access_token: String, expiration: u128)
        ensures
            final(self).spec_credentials() == old(self).spec_credentials(),
            final(self).auth_token().token() == access_token@,
            final(self).auth_token().expires_at() == expiration,
    {
        self.auth_token.access_token = access_token;
        self.auth_token.expiration = expiration;
    }

    /// A copy of the access token the client holds; the client is unchanged.
    pub fn get_token(&mut self) -> (token: String)
        ensures
            token@ == old(self).auth_token().token(),
            *final(self) == *old(self),
    {
        self.auth_token.access_token.clone()
    }

    /// A builder for the synthesis of `input_text`, authorized by the token
    /// the client holds, with the defaults of
    /// [`SynthesizeSpeechBuilder::new`].
    pub fn synthesize_text<R>(&self, input_text: String) -> (builder: SynthesizeSpeechBuilder<R>)
        ensures
            builder@.access_token == self.auth_token().token(),
            builder@.input_text == input_text@,
            builder@.voice.languageCode@ == "en-US"@,
            builder@.voice.name is None,
            builder@.voice.ssmlGender == SsmlVoiceGender::Neutral,
            builder@.voice.customVoice is None,
            builder@.audio_config == AudioConfig::<R>::unset(),
    {
        SynthesizeSpeechBuilder::new(self.auth_token.access_token.clone(), input_text)
    }
}

} // verus!

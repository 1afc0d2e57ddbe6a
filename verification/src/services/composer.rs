//! Lazily turns a synthesized payload into a media source.

use crate::services::decoder::{decoded_len, standard_base64_decoding};
use crate::services::media_source::{GoogleTtsMediaSource, MediaSourceError};
use crate::types::synthesize::SynthesizeResponse;
use vstd::prelude::*;

verus! {

/// Holds a base64 payload until a consumer asks for the media source.
pub struct GoogleTtsComposer {
    text: String,
}

impl View for GoogleTtsComposer {
    type V = Seq<char>;

    /// The base64 payload.
    closed spec fn view(&self) -> Seq<char> {
        self.text@
    }
}

impl GoogleTtsComposer {
    /// A composer for the base64 payload `text`; nothing is decoded yet.
    pub fn new(text: String) -> (composer: Self)
        ensures
            composer@ == text@,
    {
        GoogleTtsComposer { text }
    }

    /// A composer for the audio content of a synthesis response.
    pub fn from_response(value: SynthesizeResponse) -> (composer: Self)
        ensures
            composer@ == value.audioContent@,
    {
        GoogleTtsComposer::new(value.audioContent.clone())
    }

    /// Synchronous creation is not offered: this always fails with
    /// [`MediaSourceError::Unsupported`].
    pub fn create(&mut self) -> (r: Result<GoogleTtsMediaSource, MediaSourceError>)
        ensures
            r is Err,
            r->Err_0 == MediaSourceError::Unsupported,
            final(self)@ == old(self)@,
    {
        Err(MediaSourceError::Unsupported)
    }

    /// Decodes the payload into a fresh media source, as
    /// [`GoogleTtsMediaSource::new`] does; the composer keeps its payload.
    pub fn create_async(&mut self) -> (r: Result<GoogleTtsMediaSource, MediaSourceError>)
        ensures
            final(self)@ == old(self)@,
            match r {
                Ok(source) => standard_base64_decoding(old(self)@) == Some(source@.bytes)
                    && source@.position == 0 && old(self)@.len() % 4 == 0 && source@.len()
                    == decoded_len(old(self)@),
                Err(e) => e == MediaSourceError::Decode && standard_base64_decoding(old(self)@)
                    is None,
            },
    {
        GoogleTtsMediaSource::new(self.text.clone())
    }

    /// Consumers are to use [`GoogleTtsComposer::create_async`].
    pub fn should_create_async(&self) -> (yes: bool)
        ensures
            yes,
    {
        true
    }
}

} // verus!

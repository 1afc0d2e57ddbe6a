//! Building a synthesis request and judging the service's answer. Sending
//! the request is left to the caller.

use crate::types::synthesize::{
    default_language_code, AudioConfig, SsmlVoiceGender, SynthesisInput, SynthesizeRequest,
    VoiceSelectionParams,
};
use vstd::prelude::*;
use vstd::std_specs::convert::FromSpecImpl;
use vstd::string::to_string_from_display_ensures;

verus! {

/// reqwest's error, taken as an opaque value.
#[verifier::external_type_specification]
#[verifier::external_body]
pub struct ExRequestError(reqwest::Error);

/// What a builder holds, as mathematical values.
pub struct SpeechBuilderView<R> {
    pub access_token: Seq<char>,
    pub input_text: Seq<char>,
    pub voice: VoiceSelectionParams,
    pub audio_config: AudioConfig<R>,
}

/// Collects what a synthesis request needs, starting from defaults.
pub struct SynthesizeSpeechBuilder<R> {
    access_token: String,
    input_text: String,
    voice: VoiceSelectionParams,
    audio_config: AudioConfig<R>,
}

impl<R> View for SynthesizeSpeechBuilder<R> {
    type V = SpeechBuilderView<R>;

    closed spec fn view(&self) -> SpeechBuilderView<R> {
        SpeechBuilderView {
            access_token: self.access_token@,
            input_text: self.input_text@,
            voice: self.voice,
            audio_config: self.audio_config,
        }
    }
}

impl<R> SynthesizeSpeechBuilder<R> {
    /// A builder for `input_text` with a neutral voice in the default
    /// language and the default audio configuration.
    pub fn new(access_token: String, input_text: String) -> (builder: Self)
        ensures
            builder@.access_token == access_token@,
            builder@.input_text == input_text@,
            builder@.voice.languageCode@ == "en-US"@,
            builder@.voice.name is None,
            builder@.voice.ssmlGender == SsmlVoiceGender::Neutral,
            builder@.voice.customVoice is None,
            builder@.audio_config == AudioConfig::<R>::unset(),
    {
        SynthesizeSpeechBuilder {
            access_token,
            input_text,
            voice: VoiceSelectionParams {
                languageCode: default_language_code(),
                name: None,
                ssmlGender: SsmlVoiceGender::Neutral,
                customVoice: None,
            },
            audio_config: AudioConfig::default(),
        }
    }

    /// Replaces the text to be synthesized.
    pub fn input_text(self, text: &str) -> (builder: Self)
        ensures
            builder@ == (SpeechBuilderView { input_text: text@, ..self@ }),
    {
        let mut builder = self;
        builder.input_text = text.to_string();
        builder
    }

    /// Replaces the voice selection.
    pub fn voice_params(self, voice: VoiceSelectionParams) -> (builder: Self)
        ensures
            builder@ == (SpeechBuilderView { voice, ..self@ }),
    {
        let mut builder = self;
        builder.voice = voice;
        builder
    }

    /// Replaces the audio configuration held by the builder.
    pub fn audio_config(self, config: AudioConfig<R>) -> (builder: Self)
        ensures
            builder@ == (SpeechBuilderView { audio_config: config, ..self@ }),
    {
        let mut builder = self;
        builder.audio_config = config;
        builder
    }

    /// Takes the builder apart into the access token to authorize with and
    /// the request to send. The request says the text as plain text, in the
    /// voice of the builder.
    ///
    /// The request always carries the default audio configuration: the one
    /// held by the builder is not sent.
    pub fn into_request(self) -> (parts: (String, SynthesizeRequest<R>))
        ensures
            parts.0@ == self@.access_token,
            parts.1.input.text is Some,
            parts.1.input.text->Some_0@ == self@.input_text,
            parts.1.input.ssml is None,
            parts.1.voice == self@.voice,
            parts.1.audioConfig == AudioConfig::<R>::unset(),
    {
        let request = SynthesizeRequest {
            input: SynthesisInput { text: Some(self.input_text), ssml: None },
            voice: self.voice,
            audioConfig: AudioConfig::default(),
        };
        (self.access_token, request)
    }
}

/// Where a synthesis request is posted.
pub fn synthesize_endpoint() -> (url: String)
    ensures
        url@ == "https://texttospeech.googleapis.com/v1/text:synthesize"@,
{
    "https://texttospeech.googleapis.com/v1/text:synthesize".to_string()
}

/// Whether a response with this HTTP status carries a synthesis result:
/// only status 200 does; the body of any other response reports an error.
pub fn is_success(status: u16) -> (ok: bool)
    ensures
        ok == (status == 200),
{
    status == 200
}

/// The error for a response whose status is not a success, from its body.
pub fn api_error(error_body: &str) -> (error: SynthesisError)
    ensures
        error is ApiError,
        error->ApiError_0@ == "error from google api "@ + error_body@,
{
    SynthesisError::ApiError("error from google api ".to_string().concat(error_body))
}

/// Why a synthesis failed.
#[derive(Debug)]
pub enum SynthesisError {
    /// The request could not be sent or its answer could not be read.
    RequestError(reqwest::Error),
    /// The service answered with an error; the text reports its answer.
    ApiError(String),
}

impl From<reqwest::Error> for SynthesisError {
    fn from(error: reqwest::Error) -> (r: Self) {
        SynthesisError::RequestError(error)
    }
}

impl FromSpecImpl<reqwest::Error> for SynthesisError {
    open spec fn obeys_from_spec() -> bool {
        true
    }

    open spec fn from_spec(v: reqwest::Error) -> Self {
        SynthesisError::RequestError(v)
    }
}

impl SynthesisError {
    /// The error as a line of text: the kind of failure, then its report.
    pub fn message(&self) -> (text: String)
        ensures
            match self {
                SynthesisError::RequestError(e) => exists|report: String|
                    #[trigger] to_string_from_display_ensures::<reqwest::Error>(e, report) && text@
                        == "Request error: "@ + report@,
                SynthesisError::ApiError(e) => text@ == "API error: "@ + e@,
            },
    {
        match self {
            SynthesisError::RequestError(e) => {
                let report = e.to_string();
                "Request error: ".to_string().concat(report.as_str())
            },
            SynthesisError::ApiError(e) => "API error: ".to_string().concat(e.as_str()),
        }
    }
}

} // verus!

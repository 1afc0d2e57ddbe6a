//! The synthesis request and response envelope. Field names follow the
//! service's JSON representation.

use vstd::prelude::*;

verus! {

/// A request to synthesize speech: what to say, in which voice, and how the
/// audio is to be encoded. `R` is the type of a speaking rate, a pitch or a
/// gain; the library carries such values and never computes with them.
#[allow(non_snake_case)]
#[derive(Debug)]
pub struct SynthesizeRequest<R> {
    /// Required. Plain text or SSML.
    pub input: SynthesisInput,
    /// The desired voice.
    pub voice: VoiceSelectionParams,
    /// The configuration of the synthesized audio.
    pub audioConfig: AudioConfig<R>,
}

/// The input of a synthesis: the service reads one of the two fields.
#[derive(Debug)]
pub struct SynthesisInput {
    /// The raw text to be synthesized.
    pub text: Option<String>,
    /// An SSML document to be synthesized.
    pub ssml: Option<String>,
}

/// Which voice to synthesize with.
#[allow(non_snake_case)]
#[derive(Debug)]
pub struct VoiceSelectionParams {
    /// Required. A BCP-47 language tag such as "en-US".
    pub languageCode: String,
    /// The name of the voice; the service chooses one when it is absent.
    pub name: Option<String>,
    /// The preferred gender of the voice.
    pub ssmlGender: SsmlVoiceGender,
    /// The configuration of a custom voice.
    pub customVoice: Option<CustomVoiceParams>,
}

impl Default for VoiceSelectionParams {
    /// No language tag, no name, a neutral voice and no custom voice.
    fn default() -> (voice: Self)
        ensures
            voice.languageCode@ == Seq::<char>::empty(),
            voice.name is None,
            voice.ssmlGender == SsmlVoiceGender::Neutral,
            voice.customVoice is None,
    {
        VoiceSelectionParams {
            languageCode: String::new(),
            name: None,
            ssmlGender: SsmlVoiceGender::Neutral,
            customVoice: None,
        }
    }
}

/// Language tag used when a voice selection does not name one.
pub fn default_language_code() -> (code: String)
    ensures
        code@ == "en-US"@,
{
    "en-US".to_string()
}

/// Gender of a voice.
#[derive(Debug)]
pub enum SsmlVoiceGender {
    /// Gender unspecified.
    SsmlVoiceGenderUnspecified,
    /// Male voice.
    Male,
    /// Female voice.
    Female,
    /// Neutral voice.
    Neutral,
}

impl Default for SsmlVoiceGender {
    fn default() -> (gender: Self)
        ensures
            gender == SsmlVoiceGender::Neutral,
    {
        SsmlVoiceGender::Neutral
    }
}

/// A custom voice model and how its audio will be used.
#[allow(non_snake_case)]
#[derive(Debug)]
pub struct CustomVoiceParams {
    /// Required. The name of the model that synthesizes the custom voice.
    pub model: String,
    /// The usage of the synthesized audio to be reported.
    pub reportedUsage: Option<ReportedUsage>,
}

/// The usage of synthesized audio; it does not affect billing.
#[derive(Debug)]
pub enum ReportedUsage {
    /// Requests with this usage are rejected by the service.
    ReportedUsageUnspecified,
    /// Audio that is not downloadable and is used once.
    Realtime,
    /// Audio that is downloadable and can be reused.
    Offline,
}

/// How the synthesized audio is to be produced.
#[allow(non_snake_case)]
#[derive(Debug)]
pub struct AudioConfig<R> {
    /// Required. The format of the audio byte stream.
    pub audioEncoding: AudioEncoding,
    /// Speaking rate, where 1.0 is the native speed of the voice.
    pub speakingRate: Option<R>,
    /// Speaking pitch, in semitones above or below the native pitch.
    pub pitch: Option<R>,
    /// Volume gain in dB over the native volume of the voice.
    pub volumeGainDb: Option<R>,
    /// The synthesis sample rate in hertz.
    pub sampleRateHertz: Option<i32>,
    /// Audio effects profiles, applied in the order given.
    pub effectsProfileId: Option<Vec<String>>,
}

impl<R> AudioConfig<R> {
    /// The configuration that asks for MP3 audio and leaves every optional
    /// setting to the service.
    pub open spec fn unset() -> Self {
        AudioConfig {
            audioEncoding: AudioEncoding::Mp3,
            speakingRate: None,
            pitch: None,
            volumeGainDb: None,
            sampleRateHertz: None,
            effectsProfileId: None,
        }
    }
}

impl<R> Default for AudioConfig<R> {
    /// MP3 audio with every optional setting left to the service.
    fn default() -> (config: Self)
        ensures
            config == Self::unset(),
    {
        AudioConfig {
            audioEncoding: AudioEncoding::Mp3,
            speakingRate: None,
            pitch: None,
            volumeGainDb: None,
            sampleRateHertz: None,
            effectsProfileId: None,
        }
    }
}

/// Encoding of the synthesized audio.
#[derive(Debug)]
pub enum AudioEncoding {
    /// Not specified; the service rejects it.
    AudioEncodingUnspecified,
    /// MP3 audio at 32kbps.
    Mp3,
    /// Opus encoded audio wrapped in an ogg container.
    OggOpus,
    /// 8-bit samples that compand 14-bit audio samples using G.711 PCMU/mu-law.
    Mulaw,
    /// 8-bit samples that compand 14-bit audio samples using G.711 PCMU/A-law.
    Alaw,
}

impl Default for AudioEncoding {
    fn default() -> (encoding: Self)
        ensures
            encoding == AudioEncoding::Mp3,
    {
        AudioEncoding::Mp3
    }
}

/// The response to a synthesis request.
#[allow(non_snake_case)]
#[derive(Debug)]
pub struct SynthesizeResponse {
    /// The audio bytes, encoded as the request asked, as base64 text.
    pub audioContent: String,
}

} // verus!

use vstd::prelude::*;

use crate::config::{opt_str_view, ConfigModel, OpenAIConfiguration};
use crate::encoder;
use crate::errors::TranscriptionError;

verus! {

/// Which language a request carries: the per-call override when present,
/// otherwise the configured default.
pub open spec fn chosen_language(
    per_call: Option<Seq<char>>,
    configured: Option<Seq<char>>,
) -> Option<Seq<char>> {
    if per_call is Some {
        per_call
    } else {
        configured
    }
}

/// Ghost model of a built request.
pub struct RequestModel {
    pub model: Seq<char>,
    pub audio: Seq<u8>,
    pub file_name: Seq<char>,
    pub language: Option<Seq<char>>,
    pub prompt: Option<Seq<char>>,
    pub temperature_centi: u8,
}

/// A per-call transcription request, immutable once built. The host maps it
/// one for one onto the provider's transport, requesting plain transcribed
/// text (no timestamps or segments), with the audio named as a `.wav`
/// attachment.
#[derive(Debug)]
pub struct TranscriptionRequest {
    pub model: String,
    pub audio_wav: Vec<u8>,
    pub file_name: String,
    pub language: Option<String>,
    pub prompt: Option<String>,
    pub temperature_centi: u8,
}

impl View for TranscriptionRequest {
    type V = RequestModel;

    open spec fn view(&self) -> RequestModel {
        RequestModel {
            model: self.model@,
            audio: self.audio_wav@,
            file_name: self.file_name@,
            language: opt_str_view(self.language),
            prompt: opt_str_view(self.prompt),
            temperature_centi: self.temperature_centi,
        }
    }
}

/// Client state for the remote transcription provider: the hot-swappable
/// configuration behind `update_config` and `snapshot`. The host owns the
/// connection handle and the lock around the copy/replace operations; the
/// lock is never held across a network call, so an in-flight call cannot
/// stall an update.
#[derive(Debug)]
pub struct OpenAIClient {
    config: OpenAIConfiguration,
}

impl View for OpenAIClient {
    type V = ConfigModel;

    closed spec fn view(&self) -> ConfigModel {
        self.config@
    }
}

impl OpenAIClient {
    /// The temperature stays within the provider's accepted range.
    pub open spec fn well_formed(&self) -> bool {
        self@.temperature_centi <= 100
    }

    /// Creates a client. Fails fast with a configuration error when the
    /// credential is empty — misconfiguration surfaces at construction, not
    /// after an expensive capture. All other fields start at their defaults.
    pub fn new(api_key: String) -> (r: Result<OpenAIClient, TranscriptionError>)
        ensures
            api_key@.len() == 0 <==> r is Err,
            r matches Err(e) ==> e matches TranscriptionError::Configuration(m) && m@
                == "OpenAI API key is required"@,
            r matches Ok(c) ==> c@ == (ConfigModel {
                api_key: api_key@,
                model: "whisper-1"@,
                language: None,
                temperature_centi: 0,
                prompt: None,
            }) && c.well_formed(),
    {
        if api_key.as_str().is_empty() {
            return Err(
                TranscriptionError::Configuration("OpenAI API key is required".to_owned()),
            );
        }
        let mut config = OpenAIConfiguration::default();
        config.api_key = api_key;
        Ok(OpenAIClient { config })
    }

    /// Atomically replaces the whole configuration; there is no
    /// partial-field merge. A call already in flight with a snapshot it
    /// captured earlier is unaffected.
    pub fn update_config(&mut self, config: OpenAIConfiguration)
        requires
            config.well_formed(),
        ensures
            final(self)@ == config@,
            final(self).well_formed(),
    {
        self.config = config;
    }

    /// Returns a consistent, fully-formed copy of the current configuration
    /// for use by one call: always the whole current value, never a mix of
    /// old and new fields.
    pub fn snapshot(&self) -> (r: OpenAIConfiguration)
        ensures
            r@ == self@,
    {
        self.config.clone()
    }

    /// Converts quantized audio samples to the container bytes (mono,
    /// 16 kHz, 16-bit integer PCM). Succeeds for every input within the
    /// container's size limit.
    pub fn audio_samples_to_wav_bytes(&self, samples: &Vec<i16>) -> (r: Result<
        Vec<u8>,
        TranscriptionError,
    >)
        requires
            samples@.len() <= encoder::MAX_SAMPLE_COUNT,
        ensures
            r matches Ok(b) && b@ == encoder::wav_bytes(samples@),
    {
        Ok(encoder::encode(samples))
    }

    /// Builds the per-call request from a snapshot of the configuration.
    /// Fails if and only if the credential is empty. The per-call language
    /// override takes precedence over the configured language; the prompt is
    /// included only when configured; the temperature is always included;
    /// the audio is the encoded container named as a `.wav` attachment.
    /// The translate flag is accepted for interface compatibility and has no
    /// effect: this pipeline transcribes in the source language.
    pub fn prepare_transcription(
        &self,
        samples: &Vec<i16>,
        language: Option<String>,
        translate_to_english: bool,
    ) -> (r: Result<TranscriptionRequest, TranscriptionError>)
        requires
            samples@.len() <= encoder::MAX_SAMPLE_COUNT,
        ensures
            self@.api_key.len() == 0 <==> r is Err,
            r matches Err(e) ==> e matches TranscriptionError::Configuration(m) && m@
                == "OpenAI API key is not configured"@,
            r matches Ok(req) ==> req@ == (RequestModel {
                model: self@.model,
                audio: encoder::wav_bytes(samples@),
                file_name: "audio.wav"@,
                language: chosen_language(opt_str_view(language), self@.language),
                prompt: self@.prompt,
                temperature_centi: self@.temperature_centi,
            }),
    {
        let _ = translate_to_english;
        let config = self.snapshot();
        if config.api_key.as_str().is_empty() {
            return Err(
                TranscriptionError::Configuration("OpenAI API key is not configured".to_owned()),
            );
        }
        let wav = encoder::encode(samples);
        let lang = match language {
            Some(l) => Some(l),
            None => config.language,
        };
        Ok(
            TranscriptionRequest {
                model: config.model,
                audio_wav: wav,
                file_name: "audio.wav".to_owned(),
                language: lang,
                prompt: config.prompt,
                temperature_centi: config.temperature_centi,
            },
        )
    }

    /// The local precondition of credential validation: fails if and only if
    /// the credential is empty, before any network call is made.
    pub fn validate_api_key_ready(&self) -> (r: Result<(), TranscriptionError>)
        ensures
            self@.api_key.len() == 0 <==> r is Err,
            r matches Err(e) ==> e matches TranscriptionError::Configuration(m) && m@
                == "OpenAI API key is empty"@,
    {
        if self.config.api_key.as_str().is_empty() {
            Err(TranscriptionError::Configuration("OpenAI API key is empty".to_owned()))
        } else {
            Ok(())
        }
    }
}

/// Maps the provider's outcome of one transcription call, whatever came
/// back: a success is the transcript text verbatim — no post-processing,
/// trimming, or normalization — and any provider-side failure (network,
/// authentication, malformed request, rate limiting) becomes one unified
/// provider error carrying the provider's message.
pub fn complete_transcription(outcome: Result<String, String>) -> (r: Result<
    String,
    TranscriptionError,
>)
    ensures
        r is Ok <==> outcome is Ok,
        outcome matches Ok(t) ==> r matches Ok(rt) && rt == t,
        outcome matches Err(m) ==> r matches Err(e) && e matches TranscriptionError::Provider(pm)
            && pm == m,
{
    match outcome {
        Ok(t) => Ok(t),
        Err(m) => Err(TranscriptionError::Provider(m)),
    }
}

/// Maps the provider's outcome of one credential-validation call, whatever
/// came back: any non-success response becomes a provider error wrapping
/// the provider's diagnostic.
pub fn complete_validation(outcome: Result<(), String>) -> (r: Result<(), TranscriptionError>)
    ensures
        r is Ok <==> outcome is Ok,
        outcome matches Err(m) ==> r matches Err(e) && e matches TranscriptionError::Provider(pm)
            && pm == m,
{
    match outcome {
        Ok(u) => Ok(u),
        Err(m) => Err(TranscriptionError::Provider(m)),
    }
}

/// An atomic whole-value replacement followed immediately by a snapshot
/// yields exactly the replacing values, never a mix of old and new fields:
/// what `update_config` ensures of the client and `snapshot` ensures of its
/// copy pin every field of the copy to the replacement.
pub proof fn lemma_snapshot_after_update(
    updated: OpenAIClient,
    replacement: OpenAIConfiguration,
    snap: OpenAIConfiguration,
)
    requires
        updated@ == replacement@,
        snap@ == updated@,
    ensures
        snap@ == replacement@,
        snap@.api_key == replacement@.api_key,
        snap@.model == replacement@.model,
        snap@.language == replacement@.language,
        snap@.temperature_centi == replacement@.temperature_centi,
        snap@.prompt == replacement@.prompt,
{
}

} // verus!

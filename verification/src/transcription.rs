//! A transcriber together with the normalizer that fits the output of its
//! backend.

use vstd::prelude::*;
use crate::normalizer::{
    regex_compiles, timestamp_pattern_spec, Normalizer, NormalizerError,
};
use crate::whisper::api_client::{transcript_view, TranscribeError, TranscribeErrorSpec};
use crate::whisper::provider::AudioFile;
use crate::whisper::{
    Stage, TranscriberSpec, Transcription, TranscriptionSpec, WhisperTranscriber,
};

verus! {

/// Transcribes audio files and normalizes what comes back.
pub struct TranscriptionService {
    whisper: WhisperTranscriber,
    normalizer: Normalizer,
}

/// What becomes of the result of a transcription: a transcript is
/// normalized, a failure is handed on.
pub open spec fn finish_spec(
    normalizer: Normalizer,
    result: Result<Seq<char>, TranscribeErrorSpec>,
) -> Result<Seq<char>, TranscribeErrorSpec> {
    match result {
        Ok(raw) => Ok(normalizer.normalized(raw)),
        Err(e) => Err(e),
    }
}

impl TranscriptionService {
    pub closed spec fn transcriber(&self) -> TranscriberSpec {
        self.whisper@
    }

    pub closed spec fn normalizer(&self) -> Normalizer {
        self.normalizer
    }

    /// The service for `whisper`. The output of the second local dialect is
    /// freed of its timestamp markers; any other output is only trimmed.
    pub fn new(whisper: WhisperTranscriber) -> (r: Result<Self, NormalizerError>)
        ensures
            !(whisper@.provider is WhisperCpp) ==> r is Ok,
            whisper@.provider is WhisperCpp ==> (r is Ok == regex_compiles(
                timestamp_pattern_spec(),
            )),
            r matches Ok(s) ==> {
                &&& s.transcriber() == whisper@
                &&& s.normalizer() is OpenAIWhisper == !(whisper@.provider is WhisperCpp)
                &&& s.normalizer() matches Normalizer::WhisperCpp(n) ==> n.pattern()
                    == timestamp_pattern_spec()
            },
    {
        match Normalizer::create(whisper.output_is_clean()) {
            Ok(normalizer) => Ok(TranscriptionService { whisper, normalizer }),
            Err(e) => Err(e),
        }
    }

    /// The transcriber.
    pub fn whisper(&self) -> (r: &WhisperTranscriber)
        ensures
            r@ == self.transcriber(),
    {
        &self.whisper
    }

    /// A transcription of `audio`, ready to begin.
    pub fn transcribe(&self, audio: AudioFile) -> (r: Transcription)
        ensures
            r@ == (TranscriptionSpec { stage: Stage::Start, audio: audio@ }),
    {
        self.whisper.transcribe(audio)
    }

    /// The normal form of the raw transcript `raw`.
    pub fn normalize(&self, raw: &str) -> (r: String)
        ensures
            r@ == self.normalizer().normalized(raw@),
    {
        self.normalizer.run(raw)
    }

    /// What becomes of the result of a transcription.
    pub fn finish(&self, result: Result<String, TranscribeError>) -> (r: Result<
        String,
        TranscribeError,
    >)
        ensures
            transcript_view(r) == finish_spec(self.normalizer(), transcript_view(result)),
    {
        match result {
            Ok(raw) => Ok(self.normalizer.run(raw.as_str())),
            Err(e) => Err(e),
        }
    }
}

} // verus!

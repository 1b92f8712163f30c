//! The remote backend.

use vstd::prelude::*;
use crate::text_injection::opt_str_view;
use crate::whisper::api_client::{
    default_endpoint_spec, upload_request_spec, OpenAIClient, TranscribeError, UploadRequest,
};
use crate::whisper::provider::{
    AudioFile, AudioFileSpec, TranscribeAction, TranscribeActionSpec, TranscriptionProvider,
};

verus! {

/// The remote transcription service with the model to ask it for.
pub struct OpenAIProvider {
    client: OpenAIClient,
    model: String,
}

impl OpenAIProvider {
    pub closed spec fn api_key(&self) -> Seq<char> {
        self.client.api_key()
    }

    pub closed spec fn endpoint(&self) -> Seq<char> {
        self.client.endpoint()
    }

    pub closed spec fn model(&self) -> Seq<char> {
        self.model@
    }

    /// The service at `endpoint`, or at the usual endpoint where none is
    /// given.
    pub fn new(api_key: String, endpoint: Option<String>, model: String) -> (r: Result<
        Self,
        TranscribeError,
    >)
        ensures
            r is Ok,
            r->Ok_0.api_key() == api_key@,
            r->Ok_0.model() == model@,
            r->Ok_0.endpoint() == (match endpoint {
                Some(e) => e@,
                None => default_endpoint_spec(),
            }),
    {
        match OpenAIClient::new(api_key, endpoint) {
            Ok(client) => Ok(OpenAIProvider { client, model }),
            Err(e) => Err(e),
        }
    }

    /// The upload that asks for the transcription of an audio file called
    /// `file_name`, in `language`.
    pub fn upload_request(&self, file_name: Option<&str>, language: &str) -> (r: UploadRequest)
        ensures
            r@ == upload_request_spec(
                self.endpoint(),
                self.api_key(),
                opt_str_view(file_name),
                self.model(),
                language@,
            ),
    {
        self.client.transcribe(file_name, self.model.as_str(), language)
    }
}

impl TranscriptionProvider for OpenAIProvider {
    open spec fn name_spec(&self) -> Seq<char> {
        "OpenAI API"@
    }

    open spec fn available(&self, binary_exists: bool) -> bool {
        self.api_key().len() > 0
    }

    open spec fn request_spec(&self, audio: AudioFileSpec, language: Seq<char>)
        -> TranscribeActionSpec {
        TranscribeActionSpec::Upload {
            audio_path: audio.path,
            request: upload_request_spec(
                self.endpoint(),
                self.api_key(),
                audio.file_name,
                self.model(),
                language,
            ),
        }
    }

    fn transcribe(&self, audio: &AudioFile, language: &str) -> (r: TranscribeAction) {
        let request = match &audio.file_name {
            Some(name) => self.upload_request(Some(name.as_str()), language),
            None => self.upload_request(None, language),
        };
        TranscribeAction::Upload { audio_path: audio.path.clone(), request }
    }

    fn name(&self) -> (r: &'static str) {
        "OpenAI API"
    }

    fn is_available(&self, binary_exists: bool) -> (r: bool) {
        self.client.has_credential()
    }
}

} // verus!

//! The remote transcription service: what is sent to it and how its answer
//! is read.

use vstd::prelude::*;
use vstd::string::StringExecFns;
use crate::text::{opt_view, str_eq, trim, trim_spec};
use crate::text_injection::opt_str_view;

verus! {

/// The body of a successful answer.
#[derive(Debug, PartialEq, Eq)]
pub struct TranscriptionResponse {
    pub text: String,
}

/// The body of a failed answer.
#[derive(Debug, PartialEq, Eq)]
pub struct ErrorResponse {
    pub error: ErrorDetail,
}

/// What the service says went wrong.
#[derive(Debug, PartialEq, Eq)]
pub struct ErrorDetail {
    pub message: String,
    pub kind: Option<String>,
    pub code: Option<String>,
}

/// An answer of the service: its status, its body, and what the body holds
/// where it is a transcript or an error report.
#[derive(Debug, PartialEq, Eq)]
pub struct ApiResponse {
    pub status: u16,
    pub body: String,
    pub transcript: Option<TranscriptionResponse>,
    pub error: Option<ErrorResponse>,
}

/// An error report as a value.
pub struct ErrorDetailSpec {
    pub message: Seq<char>,
    pub kind: Option<Seq<char>>,
    pub code: Option<Seq<char>>,
}

/// An answer of the service as a value.
pub struct ApiResponseSpec {
    pub status: u16,
    pub body: Seq<char>,
    pub transcript: Option<Seq<char>>,
    pub error: Option<ErrorDetailSpec>,
}

impl View for ErrorDetail {
    type V = ErrorDetailSpec;

    open spec fn view(&self) -> ErrorDetailSpec {
        ErrorDetailSpec {
            message: self.message@,
            kind: opt_view(self.kind),
            code: opt_view(self.code),
        }
    }
}

impl View for ApiResponse {
    type V = ApiResponseSpec;

    open spec fn view(&self) -> ApiResponseSpec {
        ApiResponseSpec {
            status: self.status,
            body: self.body@,
            transcript: match self.transcript {
                Some(t) => Some(t.text@),
                None => None,
            },
            error: match self.error {
                Some(e) => Some(e.error@),
                None => None,
            },
        }
    }
}

/// Why a transcription failed.
#[derive(Debug, PartialEq, Eq)]
pub enum TranscribeError {
    /// The audio file could not be read.
    AudioUnreadable,
    /// The request could not be sent, or its answer not received.
    RequestFailed,
    /// The service refused the request and said why.
    Api { message: String, kind: Option<String>, code: Option<String> },
    /// The service refused the request without a reason that could be read.
    Http { status: u16, body: String },
    /// The service accepted the request, but its answer holds no transcript.
    MalformedResponse,
    /// The program could not be started.
    NotStarted,
    /// The program ended with a failure and printed this as its reason.
    CommandFailed { stderr: String },
    /// The audio file has no name to derive the name of the output from.
    InvalidAudioPath,
    /// The program left no output that could be read.
    OutputMissing,
    /// The transcription was handed something it had not asked for.
    OutOfTurn,
}

/// A failure of a transcription as a value.
pub enum TranscribeErrorSpec {
    AudioUnreadable,
    RequestFailed,
    Api { message: Seq<char>, kind: Option<Seq<char>>, code: Option<Seq<char>> },
    Http { status: u16, body: Seq<char> },
    MalformedResponse,
    NotStarted,
    CommandFailed { stderr: Seq<char> },
    InvalidAudioPath,
    OutputMissing,
    OutOfTurn,
}

impl View for TranscribeError {
    type V = TranscribeErrorSpec;

    open spec fn view(&self) -> TranscribeErrorSpec {
        match self {
            TranscribeError::AudioUnreadable => TranscribeErrorSpec::AudioUnreadable,
            TranscribeError::RequestFailed => TranscribeErrorSpec::RequestFailed,
            TranscribeError::Api { message, kind, code } => TranscribeErrorSpec::Api {
                message: message@,
                kind: opt_view(*kind),
                code: opt_view(*code),
            },
            TranscribeError::Http { status, body } => TranscribeErrorSpec::Http {
                status: *status,
                body: body@,
            },
            TranscribeError::MalformedResponse => TranscribeErrorSpec::MalformedResponse,
            TranscribeError::NotStarted => TranscribeErrorSpec::NotStarted,
            TranscribeError::CommandFailed { stderr } => TranscribeErrorSpec::CommandFailed {
                stderr: stderr@,
            },
            TranscribeError::InvalidAudioPath => TranscribeErrorSpec::InvalidAudioPath,
            TranscribeError::OutputMissing => TranscribeErrorSpec::OutputMissing,
            TranscribeError::OutOfTurn => TranscribeErrorSpec::OutOfTurn,
        }
    }
}

/// The view of the result of a transcription.
pub open spec fn transcript_view(r: Result<String, TranscribeError>) -> Result<
    Seq<char>,
    TranscribeErrorSpec,
> {
    match r {
        Ok(text) => Ok(text@),
        Err(e) => Err(e@),
    }
}

/// The multipart upload that asks for a transcription.
#[derive(Debug, PartialEq, Eq)]
pub struct UploadRequest {
    /// Where the request is posted.
    pub endpoint: String,
    /// The value of the `Authorization` header.
    pub authorization: String,
    /// The file name of the part `file`, which holds the audio.
    pub file_name: String,
    /// The media type of the part `file`.
    pub mime_type: String,
    /// The field `model`.
    pub model: String,
    /// The field `language`, which is left out where this is `None`.
    pub language: Option<String>,
    /// The field `response_format`.
    pub response_format: String,
}

/// An upload as a value.
pub struct UploadRequestSpec {
    pub endpoint: Seq<char>,
    pub authorization: Seq<char>,
    pub file_name: Seq<char>,
    pub mime_type: Seq<char>,
    pub model: Seq<char>,
    pub language: Option<Seq<char>>,
    pub response_format: Seq<char>,
}

impl View for UploadRequest {
    type V = UploadRequestSpec;

    open spec fn view(&self) -> UploadRequestSpec {
        UploadRequestSpec {
            endpoint: self.endpoint@,
            authorization: self.authorization@,
            file_name: self.file_name@,
            mime_type: self.mime_type@,
            model: self.model@,
            language: opt_view(self.language),
            response_format: self.response_format@,
        }
    }
}

/// Where requests go unless another endpoint is configured.
pub open spec fn default_endpoint_spec() -> Seq<char> {
    "https://api.openai.com/v1/audio/transcriptions"@
}

/// The `language` field for a language hint: none for an empty hint and for
/// `auto`.
pub open spec fn language_field_spec(language: Seq<char>) -> Option<Seq<char>> {
    if language.len() == 0 || language == "auto"@ {
        None
    } else {
        Some(language)
    }
}

/// Whether `status` says that the request succeeded.
pub open spec fn is_success_spec(status: u16) -> bool {
    200 <= status < 300
}

/// The upload for an audio file called `file_name`.
pub open spec fn upload_request_spec(
    endpoint: Seq<char>,
    api_key: Seq<char>,
    file_name: Option<Seq<char>>,
    model: Seq<char>,
    language: Seq<char>,
) -> UploadRequestSpec {
    UploadRequestSpec {
        endpoint,
        authorization: "Bearer "@ + api_key,
        file_name: match file_name {
            Some(name) => name,
            None => "audio.wav"@,
        },
        mime_type: "audio/wav"@,
        model,
        language: language_field_spec(language),
        response_format: "json"@,
    }
}

/// What an answer of the service comes to: the trimmed transcript of a
/// successful one; of a failed one the error it reports, or else its status
/// and body.
pub open spec fn read_response_spec(response: ApiResponseSpec) -> Result<
    Seq<char>,
    TranscribeErrorSpec,
> {
    if !is_success_spec(response.status) {
        match response.error {
            Some(e) => Err(
                TranscribeErrorSpec::Api { message: e.message, kind: e.kind, code: e.code },
            ),
            None => Err(
                TranscribeErrorSpec::Http { status: response.status, body: response.body },
            ),
        }
    } else {
        match response.transcript {
            Some(text) => Ok(trim_spec(text)),
            None => Err(TranscribeErrorSpec::MalformedResponse),
        }
    }
}

/// `a` followed by `b`.
pub fn concat(a: &str, b: &str) -> (r: String)
    ensures
        r@ == a@ + b@,
{
    let mut r = String::from_str(a);
    r.append(b);
    r
}

/// A copy of an optional string.
pub fn clone_opt(s: &Option<String>) -> (r: Option<String>)
    ensures
        opt_view(r) == opt_view(*s),
{
    match s {
        Some(x) => Some(x.clone()),
        None => None,
    }
}

/// The `language` field for a language hint.
pub fn language_field(language: &str) -> (r: Option<String>)
    ensures
        opt_view(r) == language_field_spec(language@),
{
    if language.is_empty() || str_eq(language, "auto") {
        None
    } else {
        Some(language.to_owned())
    }
}

/// Whether `status` says that the request succeeded.
pub fn is_success(status: u16) -> (r: bool)
    ensures
        r == is_success_spec(status),
{
    200 <= status && status < 300
}

/// What an answer of the service comes to.
pub fn read_response(response: ApiResponse) -> (r: Result<String, TranscribeError>)
    ensures
        transcript_view(r) == read_response_spec(response@),
{
    if !is_success(response.status) {
        match response.error {
            Some(e) => Err(
                TranscribeError::Api {
                    message: e.error.message,
                    kind: e.error.kind,
                    code: e.error.code,
                },
            ),
            None => Err(TranscribeError::Http { status: response.status, body: response.body }),
        }
    } else {
        match response.transcript {
            Some(t) => Ok(trim(t.text.as_str())),
            None => Err(TranscribeError::MalformedResponse),
        }
    }
}

/// A client of the remote transcription service.
pub struct OpenAIClient {
    api_key: String,
    endpoint: String,
}

impl OpenAIClient {
    /// The credential that requests carry.
    pub closed spec fn api_key(&self) -> Seq<char> {
        self.api_key@
    }

    /// Where requests are posted.
    pub closed spec fn endpoint(&self) -> Seq<char> {
        self.endpoint@
    }

    /// A client for `endpoint`, or for the usual endpoint where none is
    /// given.
    pub fn new(api_key: String, endpoint: Option<String>) -> (r: Result<Self, TranscribeError>)
        ensures
            r is Ok,
            r->Ok_0.api_key() == api_key@,
            r->Ok_0.endpoint() == (match endpoint {
                Some(e) => e@,
                None => default_endpoint_spec(),
            }),
    {
        let endpoint = match endpoint {
            Some(e) => e,
            None => "https://api.openai.com/v1/audio/transcriptions".to_owned(),
        };
        Ok(OpenAIClient { api_key, endpoint })
    }

    /// Whether the client has a credential.
    pub fn has_credential(&self) -> (r: bool)
        ensures
            r == (self.api_key().len() > 0),
    {
        !self.api_key.as_str().is_empty()
    }

    /// The upload that asks for the transcription of an audio file called
    /// `file_name` with `model`, in `language`.
    pub fn transcribe(&self, file_name: Option<&str>, model: &str, language: &str) -> (r:
        UploadRequest)
        ensures
            r@ == upload_request_spec(
                self.endpoint(),
                self.api_key(),
                opt_str_view(file_name),
                model@,
                language@,
            ),
    {
        UploadRequest {
            endpoint: self.endpoint.clone(),
            authorization: concat("Bearer ", self.api_key.as_str()),
            file_name: match file_name {
                Some(name) => name.to_owned(),
                None => "audio.wav".to_owned(),
            },
            mime_type: "audio/wav".to_owned(),
            model: model.to_owned(),
            language: language_field(language),
            response_format: "json".to_owned(),
        }
    }
}

} // verus!

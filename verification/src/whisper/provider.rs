//! What all transcription backends have in common.

use vstd::prelude::*;
use crate::probe::which_path;
use crate::text::{contains, contains_spec, opt_view};
use crate::text_injection::{CommandSpec, ToolCommand};
use crate::whisper::api_client::{
    transcript_view, TranscribeError, TranscribeErrorSpec, UploadRequest, UploadRequestSpec,
};

verus! {

/// Why no backend could be set up.
#[derive(Debug, Clone, Copy, PartialEq, Eq, Structural)]
pub enum ProviderError {
    /// The configured path of the program leads to nothing.
    CustomPathMissing,
    /// The program is not on the search path.
    BinaryNotFound,
    /// The program does not take the arguments of this dialect.
    NotOpenAiWhisper,
    /// The remote service was asked for, but there is no credential.
    MissingApiKey,
    /// No credential and no program: nothing can transcribe.
    NoProviderAvailable,
}

/// A finished recording: the path of its file, with the file's name and the
/// name without its extension where the path has them.
#[derive(Debug, PartialEq, Eq)]
pub struct AudioFile {
    pub path: String,
    pub file_name: Option<String>,
    pub file_stem: Option<String>,
}

/// An audio file as a value.
pub struct AudioFileSpec {
    pub path: Seq<char>,
    pub file_name: Option<Seq<char>>,
    pub file_stem: Option<Seq<char>>,
}

impl View for AudioFile {
    type V = AudioFileSpec;

    open spec fn view(&self) -> AudioFileSpec {
        AudioFileSpec {
            path: self.path@,
            file_name: opt_view(self.file_name),
            file_stem: opt_view(self.file_stem),
        }
    }
}

/// What was found out about the local transcription program: where it is, or
/// why it was not found, and what it printed when asked for help, if it ran.
#[derive(Debug, PartialEq, Eq)]
pub struct BinaryProbe {
    pub binary: Result<String, ProviderError>,
    pub help_text: Option<String>,
}

/// A probe as a value.
pub struct BinaryProbeSpec {
    pub binary: Result<Seq<char>, ProviderError>,
    pub help_text: Option<Seq<char>>,
}

impl View for BinaryProbe {
    type V = BinaryProbeSpec;

    open spec fn view(&self) -> BinaryProbeSpec {
        BinaryProbeSpec {
            binary: match self.binary {
                Ok(p) => Ok(p@),
                Err(e) => Err(e),
            },
            help_text: opt_view(self.help_text),
        }
    }
}

/// Where the program is: at the configured path if one is configured, which
/// then has to exist; else where the search path leads.
pub open spec fn resolve_binary_spec(
    command_path: Option<Seq<char>>,
    custom_exists: bool,
    on_search_path: Option<Seq<char>>,
) -> Result<Seq<char>, ProviderError> {
    match command_path {
        Some(p) => if custom_exists {
            Ok(p)
        } else {
            Err(ProviderError::CustomPathMissing)
        },
        None => match on_search_path {
            Some(p) => Ok(p),
            None => Err(ProviderError::BinaryNotFound),
        },
    }
}

/// Whether a help text names both flags by which the first dialect is known.
pub open spec fn is_openai_help_spec(help_text: Option<Seq<char>>) -> bool {
    match help_text {
        Some(h) => contains_spec(h, "--output_format"@) && contains_spec(h, "--output_dir"@),
        None => false,
    }
}

/// Whether a help text names both flags by which the first dialect is known.
pub fn is_openai_help(help_text: &Option<String>) -> (r: bool)
    ensures
        r == is_openai_help_spec(opt_view(*help_text)),
{
    match help_text {
        Some(h) => contains(h.as_str(), "--output_format") && contains(h.as_str(), "--output_dir"),
        None => false,
    }
}

impl BinaryProbe {
    /// The probe for a configured path, of which `custom_exists` says whether
    /// it exists, and for what the search path gave; no help text yet.
    pub fn resolve(
        command_path: Option<String>,
        custom_exists: bool,
        on_search_path: Option<String>,
    ) -> (r: BinaryProbe)
        ensures
            r@.binary == resolve_binary_spec(
                opt_view(command_path),
                custom_exists,
                opt_view(on_search_path),
            ),
            r@.help_text is None,
    {
        let binary = match command_path {
            Some(p) => if custom_exists {
                Ok(p)
            } else {
                Err(ProviderError::CustomPathMissing)
            },
            None => match on_search_path {
                Some(p) => Ok(p),
                None => Err(ProviderError::BinaryNotFound),
            },
        };
        BinaryProbe { binary, help_text: None }
    }

    /// The probe for a configured path, or else for the program called
    /// `whisper` that the search path leads to now; no help text yet.
    pub fn locate(command_path: Option<String>, custom_exists: bool) -> (r: BinaryProbe)
        ensures
            r@.help_text is None,
            command_path is Some ==> r@.binary == resolve_binary_spec(
                opt_view(command_path),
                custom_exists,
                None,
            ),
            command_path is None ==> exists|found: Option<Seq<char>>|
                r@.binary == #[trigger] resolve_binary_spec(None, custom_exists, found),
    {
        match command_path {
            Some(p) => Self::resolve(Some(p), custom_exists, None),
            None => {
                let found = which_path("whisper");
                let r = Self::resolve(None, custom_exists, found);
                assert(r@.binary == resolve_binary_spec(None, custom_exists, opt_view(found)));
                r
            },
        }
    }
}

/// What a transcription asks for next.
#[derive(Debug, PartialEq, Eq)]
pub enum TranscribeAction {
    /// Read the audio file at `audio_path` and send it with this upload.
    Upload { audio_path: String, request: UploadRequest },
    /// Run this program.
    Run(ToolCommand),
    /// Read this file, then remove it.
    ReadOutput { path: String },
    /// Nothing more: the transcription ended so.
    Done(Result<String, TranscribeError>),
}

/// An action as a value.
pub enum TranscribeActionSpec {
    Upload { audio_path: Seq<char>, request: UploadRequestSpec },
    Run(CommandSpec),
    ReadOutput { path: Seq<char> },
    Done(Result<Seq<char>, TranscribeErrorSpec>),
}

impl View for TranscribeAction {
    type V = TranscribeActionSpec;

    open spec fn view(&self) -> TranscribeActionSpec {
        match self {
            TranscribeAction::Upload { audio_path, request } => TranscribeActionSpec::Upload {
                audio_path: audio_path@,
                request: request@,
            },
            TranscribeAction::Run(c) => TranscribeActionSpec::Run(c@),
            TranscribeAction::ReadOutput { path } => TranscribeActionSpec::ReadOutput {
                path: path@,
            },
            TranscribeAction::Done(r) => TranscribeActionSpec::Done(transcript_view(*r)),
        }
    }
}

/// A transcription backend.
pub trait TranscriptionProvider {
    /// The name of the backend.
    spec fn name_spec(&self) -> Seq<char>;

    /// Whether the backend has what it needs, where `binary_exists` says
    /// whether the local program is at its path now: the remote backend
    /// needs a credential, a local one its program.
    spec fn available(&self, binary_exists: bool) -> bool;

    /// The request that begins the transcription of `audio` in `language`.
    spec fn request_spec(&self, audio: AudioFileSpec, language: Seq<char>) -> TranscribeActionSpec;

    fn transcribe(&self, audio: &AudioFile, language: &str) -> (r: TranscribeAction)
        ensures
            r@ == self.request_spec(audio@, language@),
    ;

    fn name(&self) -> (r: &'static str)
        ensures
            r@ == self.name_spec(),
    ;

    fn is_available(&self, binary_exists: bool) -> (r: bool)
        ensures
            r == self.available(binary_exists),
    ;
}

} // verus!

//! The local backend of the first dialect: it takes the model, the language
//! and the place of its output as named arguments, and writes the transcript
//! to a file.

use vstd::prelude::*;
use crate::text::string_views;
use crate::text_injection::{CommandSpec, ToolCommand};
use crate::whisper::api_client::concat;
use crate::whisper::provider::{
    is_openai_help, is_openai_help_spec, AudioFile, AudioFileSpec, BinaryProbe, BinaryProbeSpec,
    ProviderError, TranscribeAction, TranscribeActionSpec, TranscriptionProvider,
};

verus! {

/// The command line of the first dialect.
pub open spec fn openai_cli_command_spec(
    command_path: Seq<char>,
    model: Seq<char>,
    audio_path: Seq<char>,
    language: Seq<char>,
) -> CommandSpec {
    CommandSpec {
        program: command_path,
        args: seq![
            audio_path,
            "--model"@,
            model,
            "--language"@,
            language,
            "--output_format"@,
            "txt"@,
            "--output_dir"@,
            "/tmp"@,
        ],
        stdin: None,
    }
}

/// Where the program writes the transcript of an audio file whose name
/// without extension is `stem`.
pub open spec fn output_path_spec(stem: Seq<char>) -> Seq<char> {
    "/tmp/"@ + stem + ".txt"@
}

/// Whether a backend of the first dialect can be set up from `probe`, and
/// why not.
pub open spec fn openai_cli_new_spec(probe: BinaryProbeSpec) -> Result<Seq<char>, ProviderError> {
    match probe.binary {
        Err(e) => Err(e),
        Ok(path) => if is_openai_help_spec(probe.help_text) {
            Ok(path)
        } else {
            Err(ProviderError::NotOpenAiWhisper)
        },
    }
}

/// The local program of the first dialect, with the model to ask it for.
pub struct OpenAIWhisperCliProvider {
    command_path: String,
    model: String,
}

impl OpenAIWhisperCliProvider {
    pub closed spec fn command_path(&self) -> Seq<char> {
        self.command_path@
    }

    pub closed spec fn model(&self) -> Seq<char> {
        self.model@
    }

    /// The backend for the program that `probe` found, which has to know the
    /// flags of this dialect.
    pub fn new(probe: &BinaryProbe, model: String) -> (r: Result<Self, ProviderError>)
        ensures
            match r {
                Ok(p) => openai_cli_new_spec(probe@) == Ok::<Seq<char>, ProviderError>(
                    p.command_path(),
                ) && p.model() == model@,
                Err(e) => openai_cli_new_spec(probe@) == Err::<Seq<char>, ProviderError>(e),
            },
    {
        match &probe.binary {
            Err(e) => Err(*e),
            Ok(path) => {
                if is_openai_help(&probe.help_text) {
                    Ok(OpenAIWhisperCliProvider { command_path: path.clone(), model })
                } else {
                    Err(ProviderError::NotOpenAiWhisper)
                }
            },
        }
    }

    /// The command that transcribes the file at `audio_path`.
    pub fn command(&self, audio_path: &str, language: &str) -> (r: ToolCommand)
        ensures
            r@ == openai_cli_command_spec(
                self.command_path(),
                self.model(),
                audio_path@,
                language@,
            ),
    {
        let mut args: Vec<String> = Vec::new();
        args.push(audio_path.to_owned());
        args.push("--model".to_owned());
        args.push(self.model.clone());
        args.push("--language".to_owned());
        args.push(language.to_owned());
        args.push("--output_format".to_owned());
        args.push("txt".to_owned());
        args.push("--output_dir".to_owned());
        args.push("/tmp".to_owned());
        assert(string_views(args@) =~= openai_cli_command_spec(
            self.command_path(),
            self.model(),
            audio_path@,
            language@,
        ).args);
        ToolCommand { program: self.command_path.clone(), args, stdin: None }
    }

    /// Where the program writes the transcript of an audio file whose name
    /// without extension is `stem`.
    pub fn output_path(stem: &str) -> (r: String)
        ensures
            r@ == output_path_spec(stem@),
    {
        let front = concat("/tmp/", stem);
        concat(front.as_str(), ".txt")
    }
}

impl TranscriptionProvider for OpenAIWhisperCliProvider {
    open spec fn name_spec(&self) -> Seq<char> {
        "OpenAI Whisper CLI"@
    }

    open spec fn available(&self, binary_exists: bool) -> bool {
        binary_exists
    }

    open spec fn request_spec(&self, audio: AudioFileSpec, language: Seq<char>)
        -> TranscribeActionSpec {
        TranscribeActionSpec::Run(
            openai_cli_command_spec(self.command_path(), self.model(), audio.path, language),
        )
    }

    fn transcribe(&self, audio: &AudioFile, language: &str) -> (r: TranscribeAction) {
        TranscribeAction::Run(self.command(audio.path.as_str(), language))
    }

    fn name(&self) -> (r: &'static str) {
        "OpenAI Whisper CLI"
    }

    fn is_available(&self, binary_exists: bool) -> (r: bool) {
        binary_exists
    }
}

} // verus!

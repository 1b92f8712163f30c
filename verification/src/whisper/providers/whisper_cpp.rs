//! The local backend of the second dialect: short flags, the transcript on
//! standard output, and a second try with fewer arguments.

use vstd::prelude::*;
use crate::text::{opt_view, string_views};
use crate::text_injection::{CommandSpec, ToolCommand};
use crate::whisper::api_client::concat;
use crate::whisper::provider::{
    AudioFile, AudioFileSpec, BinaryProbe, ProviderError, TranscribeAction, TranscribeActionSpec,
    TranscriptionProvider,
};

verus! {

/// The model file that is named to the program: the configured one, or the
/// usual file of the model.
pub open spec fn model_arg_spec(model_path: Option<Seq<char>>, model: Seq<char>) -> Seq<char> {
    match model_path {
        Some(path) => path,
        None => "models/ggml-"@ + model + ".bin"@,
    }
}

/// The command line of the second dialect.
pub open spec fn whisper_cpp_command_spec(
    command_path: Seq<char>,
    model_path: Option<Seq<char>>,
    model: Seq<char>,
    audio_path: Seq<char>,
    language: Seq<char>,
) -> CommandSpec {
    CommandSpec {
        program: command_path,
        args: seq![
            "-f"@,
            audio_path,
            "-m"@,
            model_arg_spec(model_path, model),
            "-l"@,
            language,
            "-nt"@,
            "-np"@,
        ],
        stdin: None,
    }
}

/// The command line of the second try: the audio file, and the model file
/// only where one is configured.
pub open spec fn whisper_cpp_fallback_spec(
    command_path: Seq<char>,
    model_path: Option<Seq<char>>,
    audio_path: Seq<char>,
) -> CommandSpec {
    CommandSpec {
        program: command_path,
        args: match model_path {
            Some(path) => seq!["-f"@, audio_path, "-m"@, path],
            None => seq!["-f"@, audio_path],
        },
        stdin: None,
    }
}

/// The local program of the second dialect, with its model.
pub struct WhisperCppProvider {
    command_path: String,
    model_path: Option<String>,
    model: String,
}

impl WhisperCppProvider {
    pub closed spec fn command_path(&self) -> Seq<char> {
        self.command_path@
    }

    pub closed spec fn model_path(&self) -> Option<Seq<char>> {
        opt_view(self.model_path)
    }

    pub closed spec fn model(&self) -> Seq<char> {
        self.model@
    }

    /// The backend for the program that `probe` found, whatever dialect its
    /// help text shows.
    pub fn new(probe: &BinaryProbe, model: String, model_path: Option<String>) -> (r: Result<
        Self,
        ProviderError,
    >)
        ensures
            match r {
                Ok(p) => probe@.binary == Ok::<Seq<char>, ProviderError>(p.command_path())
                    && p.model() == model@ && p.model_path() == opt_view(model_path),
                Err(e) => probe@.binary == Err::<Seq<char>, ProviderError>(e),
            },
    {
        match &probe.binary {
            Err(e) => Err(*e),
            Ok(path) => Ok(WhisperCppProvider { command_path: path.clone(), model_path, model }),
        }
    }

    /// The command that transcribes the file at `audio_path`.
    pub fn command(&self, audio_path: &str, language: &str) -> (r: ToolCommand)
        ensures
            r@ == whisper_cpp_command_spec(
                self.command_path(),
                self.model_path(),
                self.model(),
                audio_path@,
                language@,
            ),
    {
        let model_arg = match &self.model_path {
            Some(path) => path.clone(),
            None => {
                let front = concat("models/ggml-", self.model.as_str());
                concat(front.as_str(), ".bin")
            },
        };
        let mut args: Vec<String> = Vec::new();
        args.push("-f".to_owned());
        args.push(audio_path.to_owned());
        args.push("-m".to_owned());
        args.push(model_arg);
        args.push("-l".to_owned());
        args.push(language.to_owned());
        args.push("-nt".to_owned());
        args.push("-np".to_owned());
        assert(string_views(args@) =~= whisper_cpp_command_spec(
            self.command_path(),
            self.model_path(),
            self.model(),
            audio_path@,
            language@,
        ).args);
        ToolCommand { program: self.command_path.clone(), args, stdin: None }
    }

    /// The command of the second try.
    pub fn fallback_command(&self, audio_path: &str) -> (r: ToolCommand)
        ensures
            r@ == whisper_cpp_fallback_spec(self.command_path(), self.model_path(), audio_path@),
    {
        let mut args: Vec<String> = Vec::new();
        args.push("-f".to_owned());
        args.push(audio_path.to_owned());
        match &self.model_path {
            Some(path) => {
                args.push("-m".to_owned());
                args.push(path.clone());
            },
            None => {},
        }
        assert(string_views(args@) =~= whisper_cpp_fallback_spec(
            self.command_path(),
            self.model_path(),
            audio_path@,
        ).args);
        ToolCommand { program: self.command_path.clone(), args, stdin: None }
    }
}

impl TranscriptionProvider for WhisperCppProvider {
    open spec fn name_spec(&self) -> Seq<char> {
        "whisper.cpp"@
    }

    open spec fn available(&self, binary_exists: bool) -> bool {
        binary_exists
    }

    open spec fn request_spec(&self, audio: AudioFileSpec, language: Seq<char>)
        -> TranscribeActionSpec {
        TranscribeActionSpec::Run(
            whisper_cpp_command_spec(
                self.command_path(),
                self.model_path(),
                self.model(),
                audio.path,
                language,
            ),
        )
    }

    fn transcribe(&self, audio: &AudioFile, language: &str) -> (r: TranscribeAction) {
        TranscribeAction::Run(self.command(audio.path.as_str(), language))
    }

    fn name(&self) -> (r: &'static str) {
        "whisper.cpp"
    }

    fn is_available(&self, binary_exists: bool) -> (r: bool) {
        binary_exists
    }
}

} // verus!

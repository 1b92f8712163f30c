//! Transcription backends, the choice among them, and the course of one
//! transcription.
//!
//! Programs are run and requests are sent by the caller. A [`Transcription`]
//! says what to do next and takes what came of it.

pub mod api_client;
pub mod provider;
pub mod providers;

use vstd::prelude::*;
use crate::text::{opt_view, str_eq, trim, trim_spec};
use api_client::{
    clone_opt, default_endpoint_spec, read_response, read_response_spec, transcript_view, upload_request_spec,
    ApiResponse, ApiResponseSpec, TranscribeError, TranscribeErrorSpec,
};
use provider::{
    is_openai_help_spec, AudioFile, AudioFileSpec, BinaryProbe, BinaryProbeSpec, ProviderError,
    TranscribeAction, TranscribeActionSpec, TranscriptionProvider,
};
use providers::openai_cli::{openai_cli_command_spec, openai_cli_new_spec, output_path_spec};
use providers::whisper_cpp::{whisper_cpp_command_spec, whisper_cpp_fallback_spec};
use providers::{OpenAIProvider, OpenAIWhisperCliProvider, WhisperCppProvider};

verus! {

/// What is configured for the transcription.
#[derive(Debug, Clone)]
pub struct ProviderConfig {
    pub model: Option<String>,
    pub model_path: Option<String>,
    pub language: Option<String>,
    pub command_path: Option<String>,
    pub api_endpoint: Option<String>,
}

/// A configuration as a value.
pub struct ProviderConfigSpec {
    pub model: Option<Seq<char>>,
    pub model_path: Option<Seq<char>>,
    pub language: Option<Seq<char>>,
    pub command_path: Option<Seq<char>>,
    pub api_endpoint: Option<Seq<char>>,
}

impl View for ProviderConfig {
    type V = ProviderConfigSpec;

    open spec fn view(&self) -> ProviderConfigSpec {
        ProviderConfigSpec {
            model: opt_view(self.model),
            model_path: opt_view(self.model_path),
            language: opt_view(self.language),
            command_path: opt_view(self.command_path),
            api_endpoint: opt_view(self.api_endpoint),
        }
    }
}

impl Default for ProviderConfig {
    fn default() -> (r: Self)
        ensures
            r@ == (ProviderConfigSpec {
                model: None,
                model_path: None,
                language: Some("en"@),
                command_path: None,
                api_endpoint: None,
            }),
    {
        ProviderConfig {
            model: None,
            model_path: None,
            language: Some("en".to_owned()),
            command_path: None,
            api_endpoint: None,
        }
    }
}

/// What the environment offers for the transcription: the credential of the
/// remote service, and what was found out about the local program.
#[derive(Debug, PartialEq, Eq)]
pub struct ProviderEnvironment {
    pub api_key: Option<String>,
    pub binary: BinaryProbe,
}

/// An environment as a value.
pub struct ProviderEnvironmentSpec {
    pub api_key: Option<Seq<char>>,
    pub binary: BinaryProbeSpec,
}

impl View for ProviderEnvironment {
    type V = ProviderEnvironmentSpec;

    open spec fn view(&self) -> ProviderEnvironmentSpec {
        ProviderEnvironmentSpec { api_key: opt_view(self.api_key), binary: self.binary@ }
    }
}

/// One of the transcription backends.
pub enum Provider {
    OpenAI(OpenAIProvider),
    OpenAICli(OpenAIWhisperCliProvider),
    WhisperCpp(WhisperCppProvider),
}

/// A backend as a value.
pub enum ProviderSpec {
    OpenAI { endpoint: Seq<char>, api_key: Seq<char>, model: Seq<char> },
    OpenAICli { command_path: Seq<char>, model: Seq<char> },
    WhisperCpp { command_path: Seq<char>, model_path: Option<Seq<char>>, model: Seq<char> },
}

impl View for Provider {
    type V = ProviderSpec;

    open spec fn view(&self) -> ProviderSpec {
        match self {
            Provider::OpenAI(p) => ProviderSpec::OpenAI {
                endpoint: p.endpoint(),
                api_key: p.api_key(),
                model: p.model(),
            },
            Provider::OpenAICli(p) => ProviderSpec::OpenAICli {
                command_path: p.command_path(),
                model: p.model(),
            },
            Provider::WhisperCpp(p) => ProviderSpec::WhisperCpp {
                command_path: p.command_path(),
                model_path: p.model_path(),
                model: p.model(),
            },
        }
    }
}

impl Provider {
    /// The name of the backend.
    pub fn name(&self) -> (r: &'static str)
        ensures
            r@ == provider_name_spec(self@),
    {
        match self {
            Provider::OpenAI(p) => p.name(),
            Provider::OpenAICli(p) => p.name(),
            Provider::WhisperCpp(p) => p.name(),
        }
    }

    /// Whether the backend has what it needs, where `binary_exists` says
    /// whether the local program is at its path now.
    pub fn is_available(&self, binary_exists: bool) -> (r: bool)
        ensures
            r == provider_available_spec(self@, binary_exists),
    {
        match self {
            Provider::OpenAI(p) => p.is_available(binary_exists),
            Provider::OpenAICli(p) => p.is_available(binary_exists),
            Provider::WhisperCpp(p) => p.is_available(binary_exists),
        }
    }
}

/// The name of a backend.
pub open spec fn provider_name_spec(p: ProviderSpec) -> Seq<char> {
    match p {
        ProviderSpec::OpenAI { .. } => "OpenAI API"@,
        ProviderSpec::OpenAICli { .. } => "OpenAI Whisper CLI"@,
        ProviderSpec::WhisperCpp { .. } => "whisper.cpp"@,
    }
}

/// Whether a backend has what it needs: the remote one a credential; a local
/// one its program at its path, of which `binary_exists` says whether it is
/// there now.
pub open spec fn provider_available_spec(p: ProviderSpec, binary_exists: bool) -> bool {
    match p {
        ProviderSpec::OpenAI { api_key, .. } => api_key.len() > 0,
        _ => binary_exists,
    }
}

/// `o`, or `d` where there is none.
pub open spec fn or_default(o: Option<Seq<char>>, d: Seq<char>) -> Seq<char> {
    match o {
        Some(x) => x,
        None => d,
    }
}

/// The backend that is chosen where none is named: the remote service where
/// there is a credential; else the local program as the first dialect where
/// its help text shows that; else the local program as the second dialect;
/// and none where there is neither credential nor program. The backend has
/// the configured model, or its own default where none is configured; the
/// remote service is asked at the configured endpoint, and the second dialect
/// gets the configured model file.
pub open spec fn detect_spec(config: ProviderConfigSpec, env: ProviderEnvironmentSpec) -> Result<
    ProviderSpec,
    ProviderError,
> {
    if env.api_key is Some && env.api_key->Some_0.len() > 0 {
        Ok(
            ProviderSpec::OpenAI {
                endpoint: or_default(config.api_endpoint, default_endpoint_spec()),
                api_key: env.api_key->Some_0,
                model: or_default(config.model, "whisper-1"@),
            },
        )
    } else if openai_cli_new_spec(env.binary) is Ok {
        Ok(
            ProviderSpec::OpenAICli {
                command_path: env.binary.binary->Ok_0,
                model: or_default(config.model, "base"@),
            },
        )
    } else if env.binary.binary is Ok {
        Ok(
            ProviderSpec::WhisperCpp {
                command_path: env.binary.binary->Ok_0,
                model_path: config.model_path,
                model: or_default(config.model, "base"@),
            },
        )
    } else {
        Err(ProviderError::NoProviderAvailable)
    }
}

/// The backend for a name: the one named, set up from the configuration, or
/// the reason why it cannot be; for a name that is not known, the backend
/// that is chosen where none is named.
pub open spec fn named_provider_spec(
    name: Seq<char>,
    config: ProviderConfigSpec,
    env: ProviderEnvironmentSpec,
) -> Result<ProviderSpec, ProviderError> {
    if name == "openai-api"@ {
        match env.api_key {
            Some(key) => Ok(
                ProviderSpec::OpenAI {
                    endpoint: or_default(config.api_endpoint, default_endpoint_spec()),
                    api_key: key,
                    model: or_default(config.model, "whisper-1"@),
                },
            ),
            None => Err(ProviderError::MissingApiKey),
        }
    } else if name == "openai-cli"@ {
        match openai_cli_new_spec(env.binary) {
            Ok(path) => Ok(
                ProviderSpec::OpenAICli {
                    command_path: path,
                    model: or_default(config.model, "base"@),
                },
            ),
            Err(e) => Err(e),
        }
    } else if name == "whisper-cpp"@ {
        match env.binary.binary {
            Ok(path) => Ok(
                ProviderSpec::WhisperCpp {
                    command_path: path,
                    model_path: config.model_path,
                    model: or_default(config.model, "base"@),
                },
            ),
            Err(e) => Err(e),
        }
    } else {
        detect_spec(config, env)
    }
}

/// A credential wins over any local program; without one, a program of the
/// first dialect is taken as such; and with neither credential nor program
/// nothing is chosen. Whichever backend is chosen has the configured model
/// where one is configured.
pub proof fn lemma_detection_priority(config: ProviderConfigSpec, env: ProviderEnvironmentSpec)
    ensures
        env.api_key is Some && env.api_key->Some_0.len() > 0 ==> detect_spec(config, env) is Ok
            && detect_spec(config, env)->Ok_0 is OpenAI,
        !(env.api_key is Some && env.api_key->Some_0.len() > 0) && env.binary.binary is Ok
            && is_openai_help_spec(env.binary.help_text) ==> detect_spec(config, env) is Ok
            && detect_spec(config, env)->Ok_0 is OpenAICli,
        !(env.api_key is Some && env.api_key->Some_0.len() > 0) && env.binary.binary is Ok
            && !is_openai_help_spec(env.binary.help_text) ==> detect_spec(config, env) is Ok
            && detect_spec(config, env)->Ok_0 is WhisperCpp,
        !(env.api_key is Some && env.api_key->Some_0.len() > 0) && env.binary.binary is Err
            ==> detect_spec(config, env) == Err::<ProviderSpec, ProviderError>(
            ProviderError::NoProviderAvailable,
        ),
        detect_spec(config, env) matches Ok(p) ==> provider_model_spec(p) == or_default(
            config.model,
            default_model_spec(p),
        ),
{
}

/// The model that a backend asks for.
pub open spec fn provider_model_spec(p: ProviderSpec) -> Seq<char> {
    match p {
        ProviderSpec::OpenAI { model, .. } => model,
        ProviderSpec::OpenAICli { model, .. } => model,
        ProviderSpec::WhisperCpp { model, .. } => model,
    }
}

/// The model that a backend asks for where none is configured.
pub open spec fn default_model_spec(p: ProviderSpec) -> Seq<char> {
    match p {
        ProviderSpec::OpenAI { .. } => "whisper-1"@,
        _ => "base"@,
    }
}

/// Where a transcription stands: what it asked for last.
#[derive(Debug, Clone, Copy, PartialEq, Eq, Structural)]
pub enum Stage {
    /// Nothing asked yet.
    Start,
    /// The upload to the remote service is under way.
    Uploading,
    /// The local program runs.
    Running,
    /// The output file of the local program is read.
    ReadingOutput,
    /// The local program runs a second time, with fewer arguments.
    RunningFallback,
    /// The transcription is over.
    Done,
}

/// What came of the last request of a transcription.
#[derive(Debug, PartialEq, Eq)]
pub enum TranscribeInput {
    /// Nothing yet: the transcription is to begin.
    Begin,
    /// The upload failed: the audio file could not be read, or it was read
    /// and the request failed.
    UploadFailed { audio_read: bool },
    /// The remote service answered.
    Response(ApiResponse),
    /// The program ran: whether it could be started, whether it ended well,
    /// and what it printed.
    Finished { started: bool, success: bool, stdout: String, stderr: String },
    /// What the output file held, if it could be read.
    Output(Option<String>),
}

/// An input as a value.
pub enum TranscribeInputSpec {
    Begin,
    UploadFailed { audio_read: bool },
    Response(ApiResponseSpec),
    Finished { started: bool, success: bool, stdout: Seq<char>, stderr: Seq<char> },
    Output(Option<Seq<char>>),
}

impl View for TranscribeInput {
    type V = TranscribeInputSpec;

    open spec fn view(&self) -> TranscribeInputSpec {
        match self {
            TranscribeInput::Begin => TranscribeInputSpec::Begin,
            TranscribeInput::UploadFailed { audio_read } => TranscribeInputSpec::UploadFailed {
                audio_read: *audio_read,
            },
            TranscribeInput::Response(r) => TranscribeInputSpec::Response(r@),
            TranscribeInput::Finished {
                started,
                success,
                stdout,
                stderr,
            } => TranscribeInputSpec::Finished {
                started: *started,
                success: *success,
                stdout: stdout@,
                stderr: stderr@,
            },
            TranscribeInput::Output(o) => TranscribeInputSpec::Output(opt_view(*o)),
        }
    }
}

/// A transcriber as a value: its backend and the language hint.
pub struct TranscriberSpec {
    pub provider: ProviderSpec,
    pub language: Seq<char>,
}

/// A transcription as a value.
pub struct TranscriptionSpec {
    pub stage: Stage,
    pub audio: AudioFileSpec,
}

/// The transcription ended with `result`.
pub open spec fn finished(t: TranscriptionSpec, result: Result<Seq<char>, TranscribeErrorSpec>)
    -> (TranscriptionSpec, TranscribeActionSpec) {
    (TranscriptionSpec { stage: Stage::Done, ..t }, TranscribeActionSpec::Done(result))
}

/// The first request of a transcription: the upload for the remote service,
/// the command line for a local program.
pub open spec fn begin_spec(cfg: TranscriberSpec, t: TranscriptionSpec) -> (
    TranscriptionSpec,
    TranscribeActionSpec,
) {
    match cfg.provider {
        ProviderSpec::OpenAI { endpoint, api_key, model } => (
            TranscriptionSpec { stage: Stage::Uploading, ..t },
            TranscribeActionSpec::Upload {
                audio_path: t.audio.path,
                request: upload_request_spec(
                    endpoint,
                    api_key,
                    t.audio.file_name,
                    model,
                    cfg.language,
                ),
            },
        ),
        ProviderSpec::OpenAICli { command_path, model } => (
            TranscriptionSpec { stage: Stage::Running, ..t },
            TranscribeActionSpec::Run(
                openai_cli_command_spec(command_path, model, t.audio.path, cfg.language),
            ),
        ),
        ProviderSpec::WhisperCpp { command_path, model_path, model } => (
            TranscriptionSpec { stage: Stage::Running, ..t },
            TranscribeActionSpec::Run(
                whisper_cpp_command_spec(
                    command_path,
                    model_path,
                    model,
                    t.audio.path,
                    cfg.language,
                ),
            ),
        ),
    }
}

/// What follows the first run of a local program. The first dialect has
/// failed if the program has; else its output file is read. The second
/// dialect prints the transcript; if the program fails it is run once more,
/// with fewer arguments.
pub open spec fn after_run_spec(
    cfg: TranscriberSpec,
    t: TranscriptionSpec,
    started: bool,
    success: bool,
    stdout: Seq<char>,
    stderr: Seq<char>,
) -> (TranscriptionSpec, TranscribeActionSpec) {
    if !started {
        finished(t, Err(TranscribeErrorSpec::NotStarted))
    } else {
        match cfg.provider {
            ProviderSpec::OpenAI { .. } => finished(t, Err(TranscribeErrorSpec::OutOfTurn)),
            ProviderSpec::OpenAICli { .. } => if !success {
                finished(t, Err(TranscribeErrorSpec::CommandFailed { stderr }))
            } else {
                match t.audio.file_stem {
                    Some(stem) => (
                        TranscriptionSpec { stage: Stage::ReadingOutput, ..t },
                        TranscribeActionSpec::ReadOutput { path: output_path_spec(stem) },
                    ),
                    None => finished(t, Err(TranscribeErrorSpec::InvalidAudioPath)),
                }
            },
            ProviderSpec::WhisperCpp { command_path, model_path, model } => if success {
                finished(t, Ok(trim_spec(stdout)))
            } else {
                (
                    TranscriptionSpec { stage: Stage::RunningFallback, ..t },
                    TranscribeActionSpec::Run(
                        whisper_cpp_fallback_spec(command_path, model_path, t.audio.path),
                    ),
                )
            },
        }
    }
}

/// One step of a transcription: from where it stands and what came of its
/// last request to where it stands next and what it asks for.
pub open spec fn transcribe_step_spec(
    cfg: TranscriberSpec,
    t: TranscriptionSpec,
    input: TranscribeInputSpec,
) -> (TranscriptionSpec, TranscribeActionSpec) {
    match (t.stage, input) {
        (Stage::Start, TranscribeInputSpec::Begin) => begin_spec(cfg, t),
        (Stage::Uploading, TranscribeInputSpec::UploadFailed { audio_read }) => finished(
            t,
            Err(
                if audio_read {
                    TranscribeErrorSpec::RequestFailed
                } else {
                    TranscribeErrorSpec::AudioUnreadable
                },
            ),
        ),
        (Stage::Uploading, TranscribeInputSpec::Response(response)) => finished(
            t,
            read_response_spec(response),
        ),
        (
            Stage::Running,
            TranscribeInputSpec::Finished { started, success, stdout, stderr },
        ) => after_run_spec(cfg, t, started, success, stdout, stderr),
        (Stage::ReadingOutput, TranscribeInputSpec::Output(content)) => match content {
            Some(text) => finished(t, Ok(trim_spec(text))),
            None => finished(t, Err(TranscribeErrorSpec::OutputMissing)),
        },
        (
            Stage::RunningFallback,
            TranscribeInputSpec::Finished { started, success, stdout, stderr },
        ) => {
            if !started {
                finished(t, Err(TranscribeErrorSpec::NotStarted))
            } else if success {
                finished(t, Ok(trim_spec(stdout)))
            } else {
                finished(t, Err(TranscribeErrorSpec::CommandFailed { stderr }))
            }
        },
        _ => finished(t, Err(TranscribeErrorSpec::OutOfTurn)),
    }
}

/// The second try of the second dialect is the last: whatever comes of it
/// ends the transcription. And a program that prints its transcript on the
/// first run is not run again.
pub proof fn lemma_one_retry_at_most(
    cfg: TranscriberSpec,
    t: TranscriptionSpec,
    input: TranscribeInputSpec,
)
    ensures
        t.stage == Stage::RunningFallback ==> transcribe_step_spec(cfg, t, input).1 is Done,
        transcribe_step_spec(cfg, t, input).0.stage == Stage::RunningFallback ==> {
            &&& t.stage == Stage::Running
            &&& cfg.provider is WhisperCpp
            &&& input matches TranscribeInputSpec::Finished { started, success, .. } && started
                && !success
        },
        transcribe_step_spec(cfg, t, input).1 is Done <==> transcribe_step_spec(
            cfg,
            t,
            input,
        ).0.stage == Stage::Done,
        transcribe_step_spec(cfg, t, input).0.audio == t.audio,
{
}

/// The part of a configuration that the choice of a backend goes by.
pub open spec fn detection_config(
    model: Option<Seq<char>>,
    model_path: Option<Seq<char>>,
    api_endpoint: Option<Seq<char>>,
) -> ProviderConfigSpec {
    ProviderConfigSpec { model, model_path, language: None, command_path: None, api_endpoint }
}

/// A backend with the language hint it is asked with.
pub struct WhisperTranscriber {
    provider: Provider,
    language: String,
}

impl View for WhisperTranscriber {
    type V = TranscriberSpec;

    closed spec fn view(&self) -> TranscriberSpec {
        TranscriberSpec { provider: self.provider@, language: self.language@ }
    }
}

/// One transcription of one audio file.
pub struct Transcription {
    stage: Stage,
    audio: AudioFile,
}

impl View for Transcription {
    type V = TranscriptionSpec;

    closed spec fn view(&self) -> TranscriptionSpec {
        TranscriptionSpec { stage: self.stage, audio: self.audio@ }
    }
}

fn unwrap_or_str(o: Option<String>, d: &str) -> (r: String)
    ensures
        r@ == or_default(opt_view(o), d@),
{
    match o {
        Some(x) => x,
        None => d.to_owned(),
    }
}

impl WhisperTranscriber {
    /// The transcriber with the backend that the environment offers first,
    /// set up from the configuration and asked in the configured language,
    /// or in English where none is configured.
    pub fn auto_detect(config: ProviderConfig, env: &ProviderEnvironment) -> (r: Result<
        Self,
        ProviderError,
    >)
        ensures
            match r {
                Ok(t) => detect_spec(config@, env@) == Ok::<ProviderSpec, ProviderError>(
                    t@.provider,
                ) && t@.language == or_default(config@.language, "en"@),
                Err(e) => detect_spec(config@, env@) == Err::<ProviderSpec, ProviderError>(e),
            },
    {
        let ProviderConfig { model, model_path, language, command_path: _, api_endpoint } = config;
        let language = unwrap_or_str(language, "en");
        match Self::auto_detect_provider(model, model_path, api_endpoint, env) {
            Ok(provider) => Ok(WhisperTranscriber { provider, language }),
            Err(e) => Err(e),
        }
    }

    /// The transcriber with the backend called `provider_name`, set up from
    /// the configuration; for a name that is not known, the backend that the
    /// environment offers first.
    pub fn with_provider(provider_name: &str, config: ProviderConfig, env: &ProviderEnvironment)
        -> (r: Result<Self, ProviderError>)
        ensures
            match r {
                Ok(t) => named_provider_spec(provider_name@, config@, env@) == Ok::<
                    ProviderSpec,
                    ProviderError,
                >(t@.provider) && t@.language == or_default(config@.language, "en"@),
                Err(e) => named_provider_spec(provider_name@, config@, env@) == Err::<
                    ProviderSpec,
                    ProviderError,
                >(e),
            },
    {
        let ProviderConfig { model, model_path, language, command_path: _, api_endpoint } = config;
        let language = unwrap_or_str(language, "en");
        let provider = if str_eq(provider_name, "openai-api") {
            match &env.api_key {
                None => {
                    return Err(ProviderError::MissingApiKey);
                },
                Some(key) => {
                    let model = unwrap_or_str(model, "whisper-1");
                    match OpenAIProvider::new(key.clone(), api_endpoint, model) {
                        Ok(p) => Provider::OpenAI(p),
                        Err(_) => {
                            return Err(ProviderError::MissingApiKey);
                        },
                    }
                },
            }
        } else if str_eq(provider_name, "openai-cli") {
            let model = unwrap_or_str(model, "base");
            match OpenAIWhisperCliProvider::new(&env.binary, model) {
                Ok(p) => Provider::OpenAICli(p),
                Err(e) => {
                    return Err(e);
                },
            }
        } else if str_eq(provider_name, "whisper-cpp") {
            let model = unwrap_or_str(model, "base");
            match WhisperCppProvider::new(&env.binary, model, model_path) {
                Ok(p) => Provider::WhisperCpp(p),
                Err(e) => {
                    return Err(e);
                },
            }
        } else {
            match Self::auto_detect_provider(model, model_path, api_endpoint, env) {
                Ok(p) => p,
                Err(e) => {
                    return Err(e);
                },
            }
        };
        Ok(WhisperTranscriber { provider, language })
    }

    fn auto_detect_provider(
        model: Option<String>,
        model_path: Option<String>,
        api_endpoint: Option<String>,
        env: &ProviderEnvironment,
    ) -> (r: Result<Provider, ProviderError>)
        ensures
            match r {
                Ok(p) => detect_spec(
                    detection_config(opt_view(model), opt_view(model_path), opt_view(api_endpoint)),
                    env@,
                ) == Ok::<ProviderSpec, ProviderError>(p@),
                Err(e) => detect_spec(
                    detection_config(opt_view(model), opt_view(model_path), opt_view(api_endpoint)),
                    env@,
                ) == Err::<ProviderSpec, ProviderError>(e),
            },
    {
        let on_disk = env.binary.binary.is_ok();
        match &env.api_key {
            Some(key) => {
                if !key.as_str().is_empty() {
                    let model = unwrap_or_str(model, "whisper-1");
                    match OpenAIProvider::new(key.clone(), api_endpoint, model) {
                        Ok(p) => {
                            return Ok(Provider::OpenAI(p));
                        },
                        Err(_) => {
                            return Err(ProviderError::MissingApiKey);
                        },
                    }
                }
            },
            None => {},
        }
        let first_model = unwrap_or_str(clone_opt(&model), "base");
        match OpenAIWhisperCliProvider::new(&env.binary, first_model) {
            Ok(p) => {
                if p.is_available(on_disk) {
                    return Ok(Provider::OpenAICli(p));
                }
            },
            Err(_) => {},
        }
        let second_model = unwrap_or_str(model, "base");
        match WhisperCppProvider::new(&env.binary, second_model, model_path) {
            Ok(p) => {
                if p.is_available(on_disk) {
                    return Ok(Provider::WhisperCpp(p));
                }
            },
            Err(_) => {},
        }
        Err(ProviderError::NoProviderAvailable)
    }

    /// The backend.
    pub fn provider(&self) -> (r: &Provider)
        ensures
            r@ == self@.provider,
    {
        &self.provider
    }

    /// The language hint.
    pub fn language(&self) -> (r: &str)
        ensures
            r@ == self@.language,
    {
        self.language.as_str()
    }

    /// Whether the backend is the local program of the first dialect, whose
    /// output is clean but for surrounding whitespace.
    pub fn is_openai_whisper(&self) -> (r: bool)
        ensures
            r == (self@.provider is OpenAICli),
            r == (provider_name_spec(self@.provider) == "OpenAI Whisper CLI"@),
    {
        proof {
            reveal_strlit("OpenAI Whisper CLI");
            reveal_strlit("OpenAI API");
            reveal_strlit("whisper.cpp");
            assert("OpenAI API"@.len() != "OpenAI Whisper CLI"@.len());
            assert("whisper.cpp"@.len() != "OpenAI Whisper CLI"@.len());
        }
        match &self.provider {
            Provider::OpenAICli(_) => true,
            _ => false,
        }
    }

    /// Whether the output of the backend is clean but for surrounding
    /// whitespace: so it is for all but the local program of the second
    /// dialect, which marks its lines with timestamps.
    pub fn output_is_clean(&self) -> (r: bool)
        ensures
            r == !(self@.provider is WhisperCpp),
    {
        match &self.provider {
            Provider::WhisperCpp(_) => false,
            _ => true,
        }
    }

    /// A transcription of `audio`, ready to begin.
    pub fn transcribe(&self, audio: AudioFile) -> (r: Transcription)
        ensures
            r@ == (TranscriptionSpec { stage: Stage::Start, audio: audio@ }),
    {
        Transcription { stage: Stage::Start, audio }
    }
}

impl Transcription {
    /// Where the transcription stands.
    pub fn stage(&self) -> (r: Stage)
        ensures
            r == self@.stage,
    {
        self.stage
    }

    fn finish(&mut self, result: Result<String, TranscribeError>) -> (a: TranscribeAction)
        ensures
            (final(self)@, a@) == finished(old(self)@, transcript_view(result)),
    {
        self.stage = Stage::Done;
        TranscribeAction::Done(result)
    }

    fn begin(&mut self, transcriber: &WhisperTranscriber) -> (a: TranscribeAction)
        ensures
            (final(self)@, a@) == begin_spec(transcriber@, old(self)@),
    {
        let language = transcriber.language.as_str();
        match &transcriber.provider {
            Provider::OpenAI(p) => {
                self.stage = Stage::Uploading;
                p.transcribe(&self.audio, language)
            },
            Provider::OpenAICli(p) => {
                self.stage = Stage::Running;
                p.transcribe(&self.audio, language)
            },
            Provider::WhisperCpp(p) => {
                self.stage = Stage::Running;
                p.transcribe(&self.audio, language)
            },
        }
    }

    fn after_run(
        &mut self,
        transcriber: &WhisperTranscriber,
        started: bool,
        success: bool,
        stdout: String,
        stderr: String,
    ) -> (a: TranscribeAction)
        ensures
            (final(self)@, a@) == after_run_spec(
                transcriber@,
                old(self)@,
                started,
                success,
                stdout@,
                stderr@,
            ),
    {
        if !started {
            return self.finish(Err(TranscribeError::NotStarted));
        }
        match &transcriber.provider {
            Provider::OpenAI(_) => self.finish(Err(TranscribeError::OutOfTurn)),
            Provider::OpenAICli(_) => {
                if !success {
                    return self.finish(Err(TranscribeError::CommandFailed { stderr }));
                }
                let path = match &self.audio.file_stem {
                    Some(stem) => Some(OpenAIWhisperCliProvider::output_path(stem.as_str())),
                    None => None,
                };
                match path {
                    Some(path) => {
                        self.stage = Stage::ReadingOutput;
                        TranscribeAction::ReadOutput { path }
                    },
                    None => self.finish(Err(TranscribeError::InvalidAudioPath)),
                }
            },
            Provider::WhisperCpp(p) => {
                if success {
                    self.finish(Ok(trim(stdout.as_str())))
                } else {
                    self.stage = Stage::RunningFallback;
                    TranscribeAction::Run(p.fallback_command(self.audio.path.as_str()))
                }
            },
        }
    }

    /// One step: takes what came of the last request and says what to do
    /// next.
    pub fn step(&mut self, transcriber: &WhisperTranscriber, input: TranscribeInput) -> (a:
        TranscribeAction)
        ensures
            (final(self)@, a@) == transcribe_step_spec(transcriber@, old(self)@, input@),
    {
        match self.stage {
            Stage::Start => match input {
                TranscribeInput::Begin => self.begin(transcriber),
                _ => self.finish(Err(TranscribeError::OutOfTurn)),
            },
            Stage::Uploading => match input {
                TranscribeInput::UploadFailed { audio_read } => {
                    if audio_read {
                        self.finish(Err(TranscribeError::RequestFailed))
                    } else {
                        self.finish(Err(TranscribeError::AudioUnreadable))
                    }
                },
                TranscribeInput::Response(response) => {
                    let result = read_response(response);
                    self.finish(result)
                },
                _ => self.finish(Err(TranscribeError::OutOfTurn)),
            },
            Stage::Running => match input {
                TranscribeInput::Finished { started, success, stdout, stderr } => self.after_run(
                    transcriber,
                    started,
                    success,
                    stdout,
                    stderr,
                ),
                _ => self.finish(Err(TranscribeError::OutOfTurn)),
            },
            Stage::ReadingOutput => match input {
                TranscribeInput::Output(content) => match content {
                    Some(text) => self.finish(Ok(trim(text.as_str()))),
                    None => self.finish(Err(TranscribeError::OutputMissing)),
                },
                _ => self.finish(Err(TranscribeError::OutOfTurn)),
            },
            Stage::RunningFallback => match input {
                TranscribeInput::Finished { started, success, stdout, stderr } => {
                    if !started {
                        self.finish(Err(TranscribeError::NotStarted))
                    } else if success {
                        self.finish(Ok(trim(stdout.as_str())))
                    } else {
                        self.finish(Err(TranscribeError::CommandFailed { stderr }))
                    }
                },
                _ => self.finish(Err(TranscribeError::OutOfTurn)),
            },
            Stage::Done => self.finish(Err(TranscribeError::OutOfTurn)),
        }
    }
}

} // verus!

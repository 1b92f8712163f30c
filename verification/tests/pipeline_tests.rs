use chezwizper::api::{status_label, ApiCommand};
use chezwizper::audio::{AudioStreamManager, RecordingState};
use chezwizper::clipboard::{ClipboardManager, CopyPlan};
use chezwizper::config::{
    default_audio_feedback, AudioConfig, BehaviorConfig, Config, UiConfig, WaylandConfig,
    WhisperConfig,
};
use chezwizper::normalizer::{Normalizer, NormalizerError};
use chezwizper::audio::AudioError;
use chezwizper::pipeline::{
    after_transcription, audio_path, decimal, stop_found_no_speech, Followup, Orchestrator,
    ToggleAction,
};
use chezwizper::text_injection::{
    Action, DeliveryOutcome, InjectionMethod, Input, TextInjector,
};
use chezwizper::transcription::TranscriptionService;
use chezwizper::ui::{char_utf8_len, hyprland_notify, preview, tone_for, Indicator};
use chezwizper::whisper::api_client::TranscribeError;
use chezwizper::whisper::provider::{AudioFile, BinaryProbe, ProviderError};
use chezwizper::whisper::provider::TranscribeAction;
use chezwizper::whisper::{
    ProviderConfig, ProviderEnvironment, TranscribeInput, WhisperTranscriber,
};

const HELP_A: &str = "whisper --output_format txt --output_dir DIR";

fn transcriber(key: Option<&str>, help: Option<&str>) -> WhisperTranscriber {
    let env = ProviderEnvironment {
        api_key: key.map(|s| s.to_string()),
        binary: BinaryProbe { binary: Ok("/usr/bin/whisper".to_string()), help_text: help.map(|s| s.to_string()) },
    };
    WhisperTranscriber::auto_detect(ProviderConfig::default(), &env).unwrap()
}

#[test]
fn config_defaults() {
    let c = Config::default();
    assert_eq!(c.audio.device, "default");
    assert_eq!(c.audio.sample_rate, 16000);
    assert_eq!(c.audio.channels, 1);
    assert_eq!(c.whisper.model, "base");
    assert_eq!(c.whisper.language, "en");
    assert!(c.whisper.command_path.is_none() && c.whisper.model_path.is_none());
    assert_eq!(c.ui.indicator_position, "top-right");
    assert_eq!(c.ui.indicator_size, 20);
    assert!(c.ui.show_notifications);
    assert_eq!(c.ui.layer_shell_anchor, "top | right");
    assert_eq!(c.ui.layer_shell_margin, 10);
    assert_eq!(c.wayland.input_method, "wtype");
    assert!(c.wayland.use_hyprland_ipc);
    assert_eq!(
        c.behavior,
        BehaviorConfig { auto_paste: true, preserve_clipboard: false, delete_audio_files: true, audio_feedback: true }
    );
    assert!(default_audio_feedback());
    assert_eq!(AudioConfig::default().sample_rate, 16000);
    assert_eq!(WhisperConfig::default().model, "base");
    assert_eq!(UiConfig::default().indicator_size, 20);
    assert_eq!(WaylandConfig::default().input_method, "wtype");
}

#[test]
fn api_status_label() {
    assert_eq!(status_label(true), "recording");
    assert_eq!(status_label(false), "idle");
    assert_eq!(ApiCommand::ToggleRecording, ApiCommand::ToggleRecording);
}

#[test]
fn indicator_notices() {
    let on = Indicator::new();
    let off = Indicator::new().with_audio_feedback(false);
    let n = on.show_recording();
    assert_eq!(n.title, "🔴 Recording...");
    assert_eq!(n.sound.as_deref(), Some("start"));
    assert_eq!(off.show_recording().sound, None);
    let n = on.show_processing();
    assert_eq!(n.title, "⏳Processing...");
    assert_eq!(n.sound.as_deref(), Some("stop"));
    let n = on.show_complete("short text");
    assert_eq!(n.title, "✅ short text");
    assert_eq!(n.sound.as_deref(), Some("complete"));
    let n = on.show_error("boom");
    assert_eq!(n.title, "Error: boom");
    assert_eq!(n.sound, None);
    assert_eq!(Indicator::new().with_audio_feedback(true), on);
}

#[test]
fn preview_cuts_long_texts_at_fifty_bytes() {
    let fifty: String = "abcdefghij".repeat(5);
    assert_eq!(preview(&fifty), fifty);
    let longer = format!("{}k", fifty);
    assert_eq!(preview(&longer), format!("{}...", fifty));
    assert_eq!(preview(""), "");
    let accented: String = "é".repeat(25);
    assert_eq!(preview(&accented), accented);
    assert_eq!(preview(&"é".repeat(26)), format!("{}...", accented));
    assert_eq!(preview(&"é".repeat(51)), format!("{}...", accented));
    let straddling = format!("{}é", "a".repeat(49));
    assert_eq!(straddling.len(), 51);
    assert_eq!(preview(&straddling), format!("{}...", "a".repeat(49)));
    let wide = format!("{}😀", "a".repeat(47));
    assert_eq!(preview(&wide), format!("{}...", "a".repeat(47)));
    assert_eq!(preview(&format!("{}😀", "a".repeat(46))), format!("{}😀", "a".repeat(46)));
    for text in ["short", "日本語のテキストはここで切られますか、それとも切られませんか", &longer] {
        let shown = preview(text);
        if text.len() <= 50 {
            assert_eq!(shown, text);
        } else {
            let head = shown.strip_suffix("...").unwrap();
            assert!(head.len() <= 50 && text.starts_with(head));
            let next = text[head.len()..].chars().next().unwrap();
            assert!(head.len() + next.len_utf8() > 50);
        }
    }
}

#[test]
fn utf8_length_of_a_character_matches_std() {
    for c in ['\0', 'a', '\u{7f}', '\u{80}', 'é', '\u{7ff}', '\u{800}', '日', '\u{ffff}', '\u{10000}', '😀', '\u{10ffff}'] {
        assert_eq!(char_utf8_len(c), c.len_utf8());
    }
}

#[test]
fn tones_and_notification_command() {
    assert_eq!(tone_for("start"), (800, 150));
    assert_eq!(tone_for("stop"), (400, 200));
    assert_eq!(tone_for("complete"), (1000, 100));
    assert_eq!(tone_for("anything"), (500, 150));
    let c = hyprland_notify("hi");
    assert_eq!(c.program, "hyprctl");
    assert_eq!(c.args, ["notify", "-1", "3000", "rgb(ff1744)", "hi"]);
    assert_eq!(c.stdin, None);
}

#[test]
fn clipboard_manager_plans() {
    let m = ClipboardManager::new();
    assert_eq!(m.copy_text(""), CopyPlan::Nothing);
    assert_eq!(m.copy_text("x"), CopyPlan::Write { read_previous: false });
    assert_eq!(m.with_preserve(true).copy_text("x"), CopyPlan::Write { read_previous: true });
    assert_eq!(m.with_preserve(true).copy_text(""), CopyPlan::Nothing);
    let c = ClipboardManager::copy_with_wayland_fallback("text");
    assert_eq!(c.program, "wl-copy");
    assert!(c.args.is_empty());
    assert_eq!(c.stdin.as_deref(), Some("text"));
}

#[test]
fn decimal_and_audio_path() {
    assert_eq!(decimal(0), "0");
    assert_eq!(decimal(7), "7");
    assert_eq!(decimal(10), "10");
    assert_eq!(decimal(1730073600), "1730073600");
    assert_eq!(decimal(u64::MAX), "18446744073709551615");
    assert_eq!(audio_path(1730073600), "/tmp/chezwizper_1730073600.wav");
}

#[test]
fn orchestrator_toggles_the_flag() {
    let mut o = Orchestrator::new();
    assert!(!o.is_recording());
    assert_eq!(o.toggle(), ToggleAction::StartRecording);
    assert!(o.is_recording());
    assert_eq!(o.toggle(), ToggleAction::StopRecording);
    assert!(!o.is_recording());
    assert_eq!(o.toggle(), ToggleAction::StartRecording);
    o.start_failed();
    assert!(!o.is_recording());
    assert_eq!(o.toggle(), ToggleAction::StartRecording);
}

#[test]
fn followup_of_a_transcript() {
    let mut b = BehaviorConfig::default();
    assert_eq!(
        after_transcription("", b),
        Followup { copy_to_clipboard: false, inject: false, no_speech: true }
    );
    assert_eq!(
        after_transcription("hi", b),
        Followup { copy_to_clipboard: true, inject: true, no_speech: false }
    );
    b.auto_paste = false;
    assert_eq!(
        after_transcription("hi", b),
        Followup { copy_to_clipboard: true, inject: false, no_speech: false }
    );
    assert!(Orchestrator::remove_audio(BehaviorConfig::default()));
    b.delete_audio_files = false;
    assert!(!Orchestrator::remove_audio(b));
}

#[test]
fn test_transcription_service_creation() {
    let service = TranscriptionService::new(transcriber(Some("k"), None)).unwrap();
    assert_eq!(service.whisper().provider().name(), "OpenAI API");
}

#[test]
fn service_trims_clean_output_and_strips_marked_output() {
    let remote = TranscriptionService::new(transcriber(Some("k"), None)).unwrap();
    assert_eq!(remote.normalize("  [00:00:00.000 --> 00:00:01.000] x "), "[00:00:00.000 --> 00:00:01.000] x");
    let a = TranscriptionService::new(transcriber(None, Some(HELP_A))).unwrap();
    assert_eq!(a.normalize("  Hello world  "), "Hello world");
    let b = TranscriptionService::new(transcriber(None, None)).unwrap();
    assert_eq!(b.normalize("[00:00:00.000 --> 00:00:01.000] x\n[00:00:01.000 --> 00:00:02.000] y"), "x y");
    assert_eq!(b.finish(Ok(" [00:00:00:000 --> 00:00:01:000]  z ".to_string())), Ok("[00:00:00:000 --> 00:00:01:000]  z".to_string()));
    assert_eq!(b.finish(Ok("[00:00:00:000 --> 00:00:01:000]  z ".to_string())), Ok("z".to_string()));
    assert_eq!(b.finish(Err(TranscribeError::NotStarted)), Err(TranscribeError::NotStarted));
    assert_eq!(Normalizer::create(true).err(), None::<NormalizerError>);
    assert_eq!(ProviderError::MissingApiKey, ProviderError::MissingApiKey);
}

#[test]
fn end_to_end_toggle_record_transcribe_deliver() {
    let config = Config::default();
    let mut orchestrator = Orchestrator::new();
    let mut recorder: AudioStreamManager<u8, f32> = AudioStreamManager::new(true).unwrap();
    let service = TranscriptionService::new(transcriber(None, Some(HELP_A))).unwrap();
    let injector = TextInjector::with_method(InjectionMethod::Wtype, None);

    assert_eq!(orchestrator.toggle(), ToggleAction::StartRecording);
    recorder.start_recording(|| Some(1)).unwrap();
    recorder.append_samples(vec![0.1, 0.2, 0.3]);
    recorder.append_samples(vec![0.4]);

    assert_eq!(orchestrator.toggle(), ToggleAction::StopRecording);
    let path = audio_path(42);
    recorder.stop_recording().unwrap();
    let written: Vec<f32> = recorder.samples().clone();
    assert_eq!(written, [0.1, 0.2, 0.3, 0.4]);
    recorder.finish_stop(true).unwrap();
    assert_eq!(recorder.state(), RecordingState::Idle);

    let audio = AudioFile {
        path: path.clone(),
        file_name: Some("chezwizper_42.wav".to_string()),
        file_stem: Some("chezwizper_42".to_string()),
    };
    let mut job = service.transcribe(audio);
    let first = job.step(service.whisper(), TranscribeInput::Begin);
    assert!(matches!(first, TranscribeAction::Run(_)));
    let second = job.step(
        service.whisper(),
        TranscribeInput::Finished { started: true, success: true, stdout: String::new(), stderr: String::new() },
    );
    assert_eq!(second, TranscribeAction::ReadOutput { path: "/tmp/chezwizper_42.txt".to_string() });
    let raw = match job.step(service.whisper(), TranscribeInput::Output(Some("  Hello world  ".to_string()))) {
        TranscribeAction::Done(result) => result,
        other => panic!("{:?}", other),
    };
    let text = service.finish(raw).unwrap();
    assert_eq!(text, "Hello world");

    let next = after_transcription(&text, config.behavior);
    assert!(next.copy_to_clipboard && next.inject && !next.no_speech);
    let mut delivery = injector.inject_text(&text);
    let mut action = delivery.step(&injector, Input::Begin);
    let mut in_clipboard = None;
    let outcome = loop {
        action = match action {
            Action::Probe(tool) => delivery.step(&injector, Input::Probed(tool == "wl-copy" || tool == "wl-paste")),
            Action::Run(c) => {
                if let Some(text) = &c.stdin {
                    in_clipboard = Some(text.clone());
                }
                let reads = c.program == "wl-paste";
                let stdout = if reads { in_clipboard.clone().unwrap() } else { String::new() };
                delivery.step(&injector, Input::Finished { success: c.stdin.is_some() || reads, stdout })
            }
            Action::Sleep(_) => delivery.step(&injector, Input::Slept),
            Action::Done(r) => break r,
        };
    };
    assert_eq!(outcome, Ok(DeliveryOutcome::LeftInClipboard));
    assert_eq!(in_clipboard.as_deref(), Some("Hello world"));
    assert!(Orchestrator::remove_audio(config.behavior));
}

#[test]
fn an_empty_recording_is_reported_as_no_speech() {
    assert!(stop_found_no_speech(AudioError::NoSamplesRecorded));
    for e in [
        AudioError::AlreadyRecording,
        AudioError::AlreadyStopping,
        AudioError::NotRecording,
        AudioError::DeviceUnavailable,
        AudioError::WriteFailed,
    ] {
        assert!(!stop_found_no_speech(e));
    }
}

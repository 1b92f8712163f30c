//! The course of one toggle: what the pipeline does when it is switched on
//! or off, and what follows a transcription.

use vstd::prelude::*;
use vstd::string::StringExecFns;
use crate::audio::AudioError;
use crate::config::BehaviorConfig;

verus! {

/// What a toggle asks for.
#[derive(Debug, Clone, Copy, PartialEq, Eq, Structural)]
pub enum ToggleAction {
    StartRecording,
    StopRecording,
}

/// What follows a transcription.
#[derive(Debug, Clone, Copy, PartialEq, Eq, Structural)]
pub struct Followup {
    /// Whether the text is copied to the clipboard.
    pub copy_to_clipboard: bool,
    /// Whether the text is delivered to the focused application.
    pub inject: bool,
    /// Whether the user is told that no speech was found.
    pub no_speech: bool,
}

/// Owner of the recording flag.
#[derive(Debug, Clone, Copy, PartialEq, Eq, Structural)]
pub struct Orchestrator {
    recording: bool,
}

/// The decimal digit for `d`.
pub open spec fn digit_spec(d: int) -> char {
    ((48 + d) as u8) as char
}

/// `n` in decimal digits.
pub open spec fn decimal_spec(n: nat) -> Seq<char>
    decreases n,
{
    if n < 10 {
        seq![digit_spec(n as int)]
    } else {
        decimal_spec(n / 10).push(digit_spec((n % 10) as int))
    }
}

/// Where the recording that was stopped at `seconds` is written.
pub open spec fn audio_path_spec(seconds: u64) -> Seq<char> {
    "/tmp/chezwizper_"@ + decimal_spec(seconds as nat) + ".wav"@
}

/// What follows the transcript `text`: an empty one is reported as no
/// speech; any other is copied, and delivered where pasting is switched on.
pub open spec fn followup_spec(text: Seq<char>, behavior: BehaviorConfig) -> Followup {
    if text.len() == 0 {
        Followup { copy_to_clipboard: false, inject: false, no_speech: true }
    } else {
        Followup { copy_to_clipboard: true, inject: behavior.auto_paste, no_speech: false }
    }
}

fn push_decimal(s: &mut String, n: u64)
    ensures
        final(s)@ == old(s)@ + decimal_spec(n as nat),
    decreases n,
{
    if n >= 10 {
        push_decimal(s, n / 10);
    }
    let d: u8 = (n % 10) as u8;
    let c: char = (48 + d) as char;
    proof {
        if n >= 10 {
            assert(old(s)@ + decimal_spec((n / 10) as nat).push(c) == (old(s)@ + decimal_spec(
                (n / 10) as nat,
            )).push(c));
        } else {
            assert(old(s)@ + seq![c] == old(s)@.push(c));
        }
    }
    s.push(c);
}

/// `n` in decimal digits.
pub fn decimal(n: u64) -> (r: String)
    ensures
        r@ == decimal_spec(n as nat),
{
    let mut s = String::new();
    push_decimal(&mut s, n);
    assert(Seq::<char>::empty() + decimal_spec(n as nat) == decimal_spec(n as nat));
    s
}

/// Where the recording that was stopped at `seconds` is written.
pub fn audio_path(seconds: u64) -> (r: String)
    ensures
        r@ == audio_path_spec(seconds),
{
    let mut s = String::from_str("/tmp/chezwizper_");
    push_decimal(&mut s, seconds);
    s.append(".wav");
    s
}

/// Whether a stop that failed with `error` is reported as no speech rather
/// than as a failure: so it is where the recording held no sample.
pub fn stop_found_no_speech(error: AudioError) -> (r: bool)
    ensures
        r == (error == AudioError::NoSamplesRecorded),
{
    match error {
        AudioError::NoSamplesRecorded => true,
        _ => false,
    }
}

/// What follows the transcript `text`.
pub fn after_transcription(text: &str, behavior: BehaviorConfig) -> (r: Followup)
    ensures
        r == followup_spec(text@, behavior),
{
    if text.is_empty() {
        Followup { copy_to_clipboard: false, inject: false, no_speech: true }
    } else {
        Followup { copy_to_clipboard: true, inject: behavior.auto_paste, no_speech: false }
    }
}

impl Orchestrator {
    /// Whether a recording is under way.
    pub closed spec fn recording(&self) -> bool {
        self.recording
    }

    /// An orchestrator that is not recording.
    pub fn new() -> (r: Self)
        ensures
            !r.recording(),
    {
        Orchestrator { recording: false }
    }

    /// Whether a recording is under way.
    pub fn is_recording(&self) -> (r: bool)
        ensures
            r == self.recording(),
    {
        self.recording
    }

    /// Flips the recording flag and says what that asks for.
    pub fn toggle(&mut self) -> (r: ToggleAction)
        ensures
            final(self).recording() == !old(self).recording(),
            r == (if old(self).recording() {
                ToggleAction::StopRecording
            } else {
                ToggleAction::StartRecording
            }),
    {
        self.recording = !self.recording;
        if self.recording {
            ToggleAction::StartRecording
        } else {
            ToggleAction::StopRecording
        }
    }

    /// Takes back the flag after a recording that could not be started.
    pub fn start_failed(&mut self)
        ensures
            !final(self).recording(),
    {
        self.recording = false;
    }

    /// Whether the audio file is removed after a recording was stopped and
    /// handled.
    pub fn remove_audio(behavior: BehaviorConfig) -> (r: bool)
        ensures
            r == behavior.delete_audio_files,
    {
        behavior.delete_audio_files
    }
}

} // verus!

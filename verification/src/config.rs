//! The configuration and its defaults.

use vstd::prelude::*;

verus! {

/// The whole configuration.
#[derive(Debug)]
pub struct Config {
    pub audio: AudioConfig,
    pub whisper: WhisperConfig,
    pub ui: UiConfig,
    pub wayland: WaylandConfig,
    pub behavior: BehaviorConfig,
}

#[derive(Debug)]
pub struct AudioConfig {
    pub device: String,
    pub sample_rate: u32,
    pub channels: u16,
}

#[derive(Debug)]
pub struct WhisperConfig {
    pub model: String,
    pub language: String,
    pub command_path: Option<String>,
    pub model_path: Option<String>,
}

#[derive(Debug)]
pub struct UiConfig {
    pub indicator_position: String,
    pub indicator_size: u32,
    pub show_notifications: bool,
    pub layer_shell_anchor: String,
    pub layer_shell_margin: u32,
}

#[derive(Debug)]
pub struct WaylandConfig {
    pub input_method: String,
    pub use_hyprland_ipc: bool,
}

#[derive(Debug, Clone, Copy, PartialEq, Eq, Structural)]
pub struct BehaviorConfig {
    pub auto_paste: bool,
    pub preserve_clipboard: bool,
    pub delete_audio_files: bool,
    pub audio_feedback: bool,
}

/// Whether sounds are played where the configuration does not say.
pub fn default_audio_feedback() -> (r: bool)
    ensures
        r,
{
    true
}

/// The audio settings where none are configured: the default device, one
/// channel at 16 kHz.
pub open spec fn is_default_audio(c: AudioConfig) -> bool {
    c.device@ == "default"@ && c.sample_rate == 16000 && c.channels == 1
}

/// The transcription settings where none are configured.
pub open spec fn is_default_whisper(c: WhisperConfig) -> bool {
    c.model@ == "base"@ && c.language@ == "en"@ && c.command_path is None && c.model_path is None
}

/// The settings of the indicator where none are configured.
pub open spec fn is_default_ui(c: UiConfig) -> bool {
    &&& c.indicator_position@ == "top-right"@
    &&& c.indicator_size == 20
    &&& c.show_notifications
    &&& c.layer_shell_anchor@ == "top | right"@
    &&& c.layer_shell_margin == 10
}

/// The settings of the session where none are configured.
pub open spec fn is_default_wayland(c: WaylandConfig) -> bool {
    c.input_method@ == "wtype"@ && c.use_hyprland_ipc
}

/// The behaviour where none is configured: paste, do not keep the clipboard,
/// delete audio files, play sounds.
pub open spec fn default_behavior() -> BehaviorConfig {
    BehaviorConfig {
        auto_paste: true,
        preserve_clipboard: false,
        delete_audio_files: true,
        audio_feedback: true,
    }
}

impl Default for AudioConfig {
    fn default() -> (r: Self)
        ensures
            is_default_audio(r),
    {
        AudioConfig { device: "default".to_owned(), sample_rate: 16000, channels: 1 }
    }
}

impl Default for WhisperConfig {
    fn default() -> (r: Self)
        ensures
            is_default_whisper(r),
    {
        WhisperConfig {
            model: "base".to_owned(),
            language: "en".to_owned(),
            command_path: None,
            model_path: None,
        }
    }
}

impl Default for UiConfig {
    fn default() -> (r: Self)
        ensures
            is_default_ui(r),
    {
        UiConfig {
            indicator_position: "top-right".to_owned(),
            indicator_size: 20,
            show_notifications: true,
            layer_shell_anchor: "top | right".to_owned(),
            layer_shell_margin: 10,
        }
    }
}

impl Default for WaylandConfig {
    fn default() -> (r: Self)
        ensures
            is_default_wayland(r),
    {
        WaylandConfig { input_method: "wtype".to_owned(), use_hyprland_ipc: true }
    }
}

impl Default for BehaviorConfig {
    fn default() -> (r: Self)
        ensures
            r == default_behavior(),
    {
        BehaviorConfig {
            auto_paste: true,
            preserve_clipboard: false,
            delete_audio_files: true,
            audio_feedback: default_audio_feedback(),
        }
    }
}

impl Default for Config {
    fn default() -> (r: Self)
        ensures
            is_default_audio(r.audio),
            is_default_whisper(r.whisper),
            is_default_ui(r.ui),
            is_default_wayland(r.wayland),
            r.behavior == default_behavior(),
    {
        Config {
            audio: AudioConfig::default(),
            whisper: WhisperConfig::default(),
            ui: UiConfig::default(),
            wayland: WaylandConfig::default(),
            behavior: BehaviorConfig::default(),
        }
    }
}

} // verus!

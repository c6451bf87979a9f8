//! Capture modes, platforms and audio routing of a recording.

use vstd::prelude::*;
use crate::text::same_text;

verus! {

/// Which physical inputs a recording opens.
#[derive(Clone, Copy, Debug, PartialEq, Eq, Structural)]
pub enum CaptureMode {
    Screen,
    Webcam,
    Combo,
}

/// The platform whose capture layer the encoder is driven on.
#[derive(Clone, Copy, Debug, PartialEq, Eq, Structural)]
pub enum Platform {
    MacOs,
    Windows,
    Linux,
}

/// Audio routing of a recording, as the caller chose it.
#[derive(Debug)]
pub struct AudioSettings {
    pub microphone_enabled: bool,
    pub microphone_device: String,
    pub system_audio_enabled: bool,
    pub system_audio_device: String,
    /// One of "voice", "standard" and "high".
    pub audio_quality: String,
}

/// The mode that a mode name stands for.
pub open spec fn mode_of(name: Seq<char>) -> Option<CaptureMode> {
    if name == "screen"@ {
        Some(CaptureMode::Screen)
    } else if name == "webcam"@ {
        Some(CaptureMode::Webcam)
    } else if name == "combo"@ {
        Some(CaptureMode::Combo)
    } else {
        None
    }
}

/// Reads a mode name: "screen", "webcam" or "combo".
pub fn capture_mode(name: &str) -> (r: Option<CaptureMode>)
    ensures
        r == mode_of(name@),
{
    if same_text(name, "screen") {
        Some(CaptureMode::Screen)
    } else if same_text(name, "webcam") {
        Some(CaptureMode::Webcam)
    } else if same_text(name, "combo") {
        Some(CaptureMode::Combo)
    } else {
        None
    }
}

/// Whether the microphone is captured. Without settings it is.
pub open spec fn mic_active(audio: Option<AudioSettings>) -> bool {
    match audio {
        Some(s) => s.microphone_enabled,
        None => true,
    }
}

/// The device that the microphone is read from: the chosen one, with
/// "default" and missing settings standing for device "0".
pub open spec fn mic_device(audio: Option<AudioSettings>) -> Seq<char> {
    match audio {
        Some(s) => if s.microphone_device@ == "default"@ {
            "0"@
        } else {
            s.microphone_device@
        },
        None => "0"@,
    }
}

/// Whether system audio is captured: only where it is enabled and a device
/// is named that is neither empty nor "none".
pub open spec fn system_active(audio: Option<AudioSettings>) -> bool {
    match audio {
        Some(s) => s.system_audio_enabled && s.system_audio_device@.len() > 0
            && s.system_audio_device@ != "none"@,
        None => false,
    }
}

/// The device that system audio is read from, where it is captured.
pub open spec fn system_device(audio: Option<AudioSettings>) -> Seq<char> {
    match audio {
        Some(s) => s.system_audio_device@,
        None => "1"@,
    }
}

/// The audio bit rate of a quality tier; an unknown tier counts as
/// "standard".
pub open spec fn bitrate_of(quality: Seq<char>) -> Seq<char> {
    if quality == "voice"@ {
        "96k"@
    } else if quality == "high"@ {
        "256k"@
    } else {
        "192k"@
    }
}

/// The audio bit rate that the settings ask for.
pub open spec fn bitrate(audio: Option<AudioSettings>) -> Seq<char> {
    match audio {
        Some(s) => bitrate_of(s.audio_quality@),
        None => "192k"@,
    }
}

/// Whether the microphone is captured.
pub fn microphone_active(audio: &Option<AudioSettings>) -> (r: bool)
    ensures
        r == mic_active(*audio),
{
    match audio {
        Some(s) => s.microphone_enabled,
        None => true,
    }
}

/// The device that the microphone is read from.
pub fn microphone_device(audio: &Option<AudioSettings>) -> (r: String)
    ensures
        r@ == mic_device(*audio),
{
    match audio {
        Some(s) => {
            if same_text(s.microphone_device.as_str(), "default") {
                "0".to_string()
            } else {
                s.microphone_device.clone()
            }
        },
        None => "0".to_string(),
    }
}

/// Whether system audio is captured.
pub fn system_audio_active(audio: &Option<AudioSettings>) -> (r: bool)
    ensures
        r == system_active(*audio),
{
    match audio {
        Some(s) => {
            s.system_audio_enabled && !s.system_audio_device.as_str().is_empty() && !same_text(
                s.system_audio_device.as_str(),
                "none",
            )
        },
        None => false,
    }
}

/// The device that system audio is read from.
pub fn system_audio_device(audio: &Option<AudioSettings>) -> (r: String)
    ensures
        r@ == system_device(*audio),
{
    match audio {
        Some(s) => s.system_audio_device.clone(),
        None => "1".to_string(),
    }
}

/// The audio bit rate that the settings ask for.
pub fn audio_bitrate(audio: &Option<AudioSettings>) -> (r: String)
    ensures
        r@ == bitrate(*audio),
{
    match audio {
        Some(s) => {
            if same_text(s.audio_quality.as_str(), "voice") {
                "96k".to_string()
            } else if same_text(s.audio_quality.as_str(), "high") {
                "256k".to_string()
            } else {
                "192k".to_string()
            }
        },
        None => "192k".to_string(),
    }
}

} // verus!

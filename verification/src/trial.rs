//! Recordings outside the standard invocation: trial recordings with
//! buffer settings under test, and recordings by the platform's native
//! capture helper.

use vstd::prelude::*;
use crate::millis::{seconds_short, seconds_string};
use crate::routing::{
    mic_active, mic_device, microphone_active, microphone_device, AudioSettings, Platform,
};
use crate::session::{
    already_recording, helper_missing, RecordingError, RecordingErrorKind, RecordingSession,
};
use crate::text::{concat2, decimal, push_arg, push_decimal, push_owned, same_text};

verus! {

/// The buffer settings that a trial recording tries out.
#[derive(Debug)]
pub struct TestSettings {
    pub use_wallclock_as_timestamps: bool,
    /// An audio filter, applied where it is not empty and the microphone
    /// is captured.
    pub audio_filter: String,
    /// The size of the real-time buffer, as the encoder reads it.
    pub rtbufsize: String,
    pub thread_queue_size: i32,
}

/// What a request to start a trial recording asks for.
#[derive(Debug)]
pub struct StartTestRecordingOptions {
    pub mode: String,
    pub output_path: String,
    pub audio_settings: Option<AudioSettings>,
    pub test_settings: TestSettings,
}

/// The decimal numeral of a signed number.
pub open spec fn signed_decimal(n: int) -> Seq<char> {
    if n < 0 {
        seq!['-'] + decimal((-n) as nat)
    } else {
        decimal(n as nat)
    }
}

/// The decimal numeral of a signed number.
pub fn signed_decimal_string(n: i32) -> (s: String)
    ensures
        s@ == signed_decimal(n as int),
{
    let mut s = String::new();
    if n < 0 {
        s.push('-');
        push_decimal(&mut s, (-(n as i64)) as u128);
    } else {
        push_decimal(&mut s, n as u128);
    }
    assert(s@ =~= signed_decimal(n as int));
    s
}

/// The screen input of a trial recording on macOS.
pub open spec fn trial_input_args(o: StartTestRecordingOptions) -> Seq<Seq<char>> {
    if o.mode@ == "screen"@ {
        seq!["-f"@, "avfoundation"@, "-capture_cursor"@, "1"@, "-framerate"@, "30"@] + (
        if o.test_settings.use_wallclock_as_timestamps {
            seq!["-use_wallclock_as_timestamps"@, "1"@]
        } else {
            Seq::empty()
        }) + seq![
            "-i"@,
            if mic_active(o.audio_settings) {
                "1:"@ + mic_device(o.audio_settings)
            } else {
                "1:none"@
            },
        ]
    } else {
        Seq::empty()
    }
}

/// The queue size and the encoding of a trial recording on macOS.
pub open spec fn trial_encoding_args(o: StartTestRecordingOptions) -> Seq<Seq<char>> {
    seq![
        "-thread_queue_size"@,
        signed_decimal(o.test_settings.thread_queue_size as int),
        "-c:v"@,
        "libx264"@,
        "-preset"@,
        "ultrafast"@,
        "-pix_fmt"@,
        "yuv420p"@,
        "-c:a"@,
        "aac"@,
        "-b:a"@,
        "128k"@,
        "-ar"@,
        "48000"@,
        "-ac"@,
        "2"@,
    ] + (if o.test_settings.audio_filter@.len() > 0 && mic_active(o.audio_settings) {
        seq!["-af"@, o.test_settings.audio_filter@]
    } else {
        Seq::empty()
    })
}

/// The encoder's argument list for a trial recording. Only macOS has
/// inputs and an encoding for it.
pub open spec fn trial_args(platform: Platform, o: StartTestRecordingOptions) -> Seq<Seq<char>> {
    seq!["-loglevel"@, "verbose"@, "-rtbufsize"@, o.test_settings.rtbufsize@] + (if platform
        == Platform::MacOs {
        trial_input_args(o) + trial_encoding_args(o)
    } else {
        Seq::empty()
    }) + seq!["-y"@, o.output_path@]
}

fn push_trial_input(v: &mut Vec<String>, o: &StartTestRecordingOptions)
    ensures
        final(v).deep_view() == old(v).deep_view() + trial_input_args(*o),
{
    if same_text(o.mode.as_str(), "screen") {
        push_arg(v, "-f");
        push_arg(v, "avfoundation");
        push_arg(v, "-capture_cursor");
        push_arg(v, "1");
        push_arg(v, "-framerate");
        push_arg(v, "30");
        if o.test_settings.use_wallclock_as_timestamps {
            push_arg(v, "-use_wallclock_as_timestamps");
            push_arg(v, "1");
        }
        push_arg(v, "-i");
        if microphone_active(&o.audio_settings) {
            let device = microphone_device(&o.audio_settings);
            push_owned(v, concat2("1:", device.as_str()));
        } else {
            push_arg(v, "1:none");
        }
    }
    assert(v.deep_view() =~= old(v).deep_view() + trial_input_args(*o));
}

fn push_trial_encoding(v: &mut Vec<String>, o: &StartTestRecordingOptions)
    ensures
        final(v).deep_view() == old(v).deep_view() + trial_encoding_args(*o),
{
    push_arg(v, "-thread_queue_size");
    push_owned(v, signed_decimal_string(o.test_settings.thread_queue_size));
    push_arg(v, "-c:v");
    push_arg(v, "libx264");
    push_arg(v, "-preset");
    push_arg(v, "ultrafast");
    push_arg(v, "-pix_fmt");
    push_arg(v, "yuv420p");
    push_arg(v, "-c:a");
    push_arg(v, "aac");
    push_arg(v, "-b:a");
    push_arg(v, "128k");
    push_arg(v, "-ar");
    push_arg(v, "48000");
    push_arg(v, "-ac");
    push_arg(v, "2");
    if !o.test_settings.audio_filter.as_str().is_empty() && microphone_active(&o.audio_settings) {
        push_arg(v, "-af");
        push_arg(v, o.test_settings.audio_filter.as_str());
    }
    assert(v.deep_view() =~= old(v).deep_view() + trial_encoding_args(*o));
}

/// The encoder's argument list for a trial recording.
pub fn trial_arguments(platform: Platform, o: &StartTestRecordingOptions) -> (v: Vec<String>)
    ensures
        v.deep_view() == trial_args(platform, *o),
{
    let mut v: Vec<String> = Vec::new();
    push_arg(&mut v, "-loglevel");
    push_arg(&mut v, "verbose");
    push_arg(&mut v, "-rtbufsize");
    push_arg(&mut v, o.test_settings.rtbufsize.as_str());
    assert(v.deep_view() =~= seq![
        "-loglevel"@,
        "verbose"@,
        "-rtbufsize"@,
        o.test_settings.rtbufsize@,
    ]);
    let ghost head = v.deep_view();
    if platform == Platform::MacOs {
        push_trial_input(&mut v, o);
        push_trial_encoding(&mut v, o);
    }
    let ghost middle = v.deep_view();
    assert(middle =~= head + (if platform == Platform::MacOs {
        trial_input_args(*o) + trial_encoding_args(*o)
    } else {
        Seq::empty()
    }));
    push_arg(&mut v, "-y");
    push_arg(&mut v, o.output_path.as_str());
    assert(v.deep_view() =~= middle + seq!["-y"@, o.output_path@]);
    v
}

/// Answers a request to start a trial recording with the encoder's
/// argument list. While a recording is in progress the request is refused.
pub fn start_test_recording(
    session: &RecordingSession,
    platform: Platform,
    o: &StartTestRecordingOptions,
) -> (r: Result<Vec<String>, RecordingError>)
    ensures
        session@.is_some() ==> r.is_err() && r.unwrap_err().kind
            == RecordingErrorKind::AlreadyRecording && r.unwrap_err().message@
            == "Recording already in progress"@,
        session@.is_none() ==> r.is_ok() && r.unwrap().deep_view() == trial_args(platform, *o),
{
    if session.is_recording() {
        Err(already_recording())
    } else {
        Ok(trial_arguments(platform, o))
    }
}

/// The argument list of the native capture helper: the output, the main
/// display, whether audio is captured, and the length of the recording in
/// seconds.
pub open spec fn helper_args(output_path: Seq<char>, duration: i64, audio: bool) -> Seq<Seq<char>> {
    seq![
        output_path,
        "0"@,
        if audio {
            "true"@
        } else {
            "false"@
        },
        seconds_short(duration as int),
    ]
}

/// The argument list of the native capture helper, for a recording of
/// `duration` milliseconds.
pub fn helper_arguments(output_path: &str, duration: i64, audio: bool) -> (v: Vec<String>)
    ensures
        v.deep_view() == helper_args(output_path@, duration, audio),
{
    let mut v: Vec<String> = Vec::new();
    push_arg(&mut v, output_path);
    push_arg(&mut v, "0");
    if audio {
        push_arg(&mut v, "true");
    } else {
        push_arg(&mut v, "false");
    }
    push_owned(&mut v, seconds_string(duration as i128));
    assert(v.deep_view() =~= helper_args(output_path@, duration, audio));
    v
}

/// Answers a request to record with the native capture helper with the
/// helper's argument list. While a recording is in progress the request is
/// refused; otherwise it is where the helper is not installed.
pub fn start_screencapturekit_recording(
    session: &RecordingSession,
    helper_exists: bool,
    output_path: &str,
    duration: i64,
    audio: bool,
) -> (r: Result<Vec<String>, RecordingError>)
    ensures
        session@.is_some() ==> r.is_err() && r.unwrap_err().kind
            == RecordingErrorKind::AlreadyRecording,
        session@.is_none() && !helper_exists ==> r.is_err() && r.unwrap_err().kind
            == RecordingErrorKind::HelperMissing && r.unwrap_err().message@
            == "ScreenRecorder binary not found. Please rebuild the application."@,
        session@.is_none() && helper_exists ==> r.is_ok() && r.unwrap().deep_view() == helper_args(
            output_path@,
            duration,
            audio,
        ),
{
    if session.is_recording() {
        Err(already_recording())
    } else if !helper_exists {
        Err(helper_missing())
    } else {
        Ok(helper_arguments(output_path, duration, audio))
    }
}

} // verus!

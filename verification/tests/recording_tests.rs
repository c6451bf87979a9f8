use clipforge::diagnostics::sync_warning;
use clipforge::invocation::recording_arguments;
use clipforge::routing::{
    audio_bitrate, capture_mode, microphone_active, microphone_device, system_audio_active,
    system_audio_device, AudioSettings, CaptureMode, Platform,
};
use clipforge::session::{
    classify_failure, is_normal_exit, launch_failed, stop_outcome, wait_failed, ExitReport, Launch,
    Liveness, RecordingErrorKind, RecordingSession, StartRecordingOptions,
};
use clipforge::trial::{
    helper_arguments, signed_decimal_string, start_screencapturekit_recording,
    start_test_recording, trial_arguments, StartTestRecordingOptions, TestSettings,
};

fn words(s: &str) -> Vec<String> {
    s.split(' ').map(|w| w.to_string()).collect()
}

fn settings(mic: bool, mic_device: &str, system: bool, system_device: &str, quality: &str) -> AudioSettings {
    AudioSettings {
        microphone_enabled: mic,
        microphone_device: mic_device.to_string(),
        system_audio_enabled: system,
        system_audio_device: system_device.to_string(),
        audio_quality: quality.to_string(),
    }
}

const SCALE: &str = "-vf scale=1280:720:force_original_aspect_ratio=decrease:force_divisible_by=2";
const MAC_ENCODER: &str = "-c:v h264_videotoolbox -b:v 5000k -allow_sw 1 -require_sw 0";
const SOFT_ENCODER: &str = "-c:v libx264 -preset ultrafast -crf 23";
const CONTRACT: &str = "-pix_fmt yuv420p -r 15 -vsync cfr -g 15 -bf 0 -movflags +faststart -video_track_timescale 90000";
const OVERLAY: &str = "[0:v]fps=15,setpts=PTS-STARTPTS,scale=1280:720:force_original_aspect_ratio=decrease:force_divisible_by=2[screen];[1:v]fps=15,setpts=PTS-STARTPTS,scale=213:120:force_original_aspect_ratio=decrease:force_divisible_by=2[webcam];[screen][webcam]overlay=W-w-20:H-h-20:shortest=1[vout]";
const MIX_2_3: &str = ";[2:a]asetpts=PTS-STARTPTS[a1];[3:a]asetpts=PTS-STARTPTS[a2];[a1][a2]amix=inputs=2:duration=first:dropout_transition=2[aout]";
const MIX_1_2: &str = "[1:a]asetpts=PTS-STARTPTS[a1];[2:a]asetpts=PTS-STARTPTS[a2];[a1][a2]amix=inputs=2:duration=first:dropout_transition=2[aout]";

#[test]
fn mode_names() {
    assert_eq!(capture_mode("screen"), Some(CaptureMode::Screen));
    assert_eq!(capture_mode("webcam"), Some(CaptureMode::Webcam));
    assert_eq!(capture_mode("combo"), Some(CaptureMode::Combo));
    assert_eq!(capture_mode("Screen"), None);
    assert_eq!(capture_mode(""), None);
}

#[test]
fn routing_defaults_without_settings() {
    let none: Option<AudioSettings> = None;
    assert!(microphone_active(&none));
    assert_eq!(microphone_device(&none), "0");
    assert!(!system_audio_active(&none));
    assert_eq!(system_audio_device(&none), "1");
    assert_eq!(audio_bitrate(&none), "192k");
}

#[test]
fn routing_from_settings() {
    let s = Some(settings(false, "default", true, "2", "voice"));
    assert!(!microphone_active(&s));
    assert_eq!(microphone_device(&s), "0");
    assert!(system_audio_active(&s));
    assert_eq!(system_audio_device(&s), "2");
    assert_eq!(audio_bitrate(&s), "96k");
    let s = Some(settings(true, "3", true, "none", "high"));
    assert_eq!(microphone_device(&s), "3");
    assert!(!system_audio_active(&s));
    assert_eq!(audio_bitrate(&s), "256k");
    let s = Some(settings(true, "3", true, "", "standard"));
    assert!(!system_audio_active(&s));
    assert_eq!(audio_bitrate(&s), "192k");
    let s = Some(settings(true, "3", false, "2", "studio"));
    assert!(!system_audio_active(&s));
    assert_eq!(audio_bitrate(&s), "192k");
}

#[test]
fn screen_with_default_microphone_on_mac() {
    let got = recording_arguments(Platform::MacOs, CaptureMode::Screen, &None, "out.mp4").unwrap();
    let expected = words(&format!(
        "-loglevel verbose -rtbufsize 200M -f avfoundation -capture_cursor 1 -framerate 15 -use_wallclock_as_timestamps 1 -i 1:0 {} {} {} -c:a aac -b:a 192k -profile:a aac_low -ar 48000 -ac 2 -af asetpts=PTS-STARTPTS -y out.mp4",
        SCALE, MAC_ENCODER, CONTRACT
    ));
    assert_eq!(got, expected);
}

#[test]
fn screen_with_two_audio_sources_on_mac() {
    let s = Some(settings(true, "default", true, "2", "high"));
    let got = recording_arguments(Platform::MacOs, CaptureMode::Screen, &s, "out.mp4").unwrap();
    let expected = words(&format!(
        "-loglevel verbose -rtbufsize 200M -f avfoundation -capture_cursor 1 -framerate 15 -use_wallclock_as_timestamps 1 -i 1:none -probesize 100M -rtbufsize 200M -f avfoundation -thread_queue_size 8192 -i :0 -probesize 100M -rtbufsize 200M -f avfoundation -thread_queue_size 8192 -i :2 {} {} {} -filter_complex {} -map 0:v -map [aout] -c:a aac -b:a 256k -profile:a aac_low -ar 48000 -ac 2 -y out.mp4",
        SCALE, MAC_ENCODER, CONTRACT, MIX_1_2
    ));
    assert_eq!(got, expected);
}

#[test]
fn screen_with_system_audio_only_and_without_audio_on_mac() {
    let s = Some(settings(false, "default", true, "2", "voice"));
    let got = recording_arguments(Platform::MacOs, CaptureMode::Screen, &s, "o.mp4").unwrap();
    let expected = words(&format!(
        "-loglevel verbose -rtbufsize 200M -f avfoundation -capture_cursor 1 -framerate 15 -use_wallclock_as_timestamps 1 -i 1:2 {} {} {} -c:a aac -b:a 96k -profile:a aac_low -ar 48000 -ac 2 -af asetpts=PTS-STARTPTS -y o.mp4",
        SCALE, MAC_ENCODER, CONTRACT
    ));
    assert_eq!(got, expected);
    let s = Some(settings(false, "default", false, "2", "voice"));
    let got = recording_arguments(Platform::MacOs, CaptureMode::Screen, &s, "o.mp4").unwrap();
    let expected = words(&format!(
        "-loglevel verbose -rtbufsize 200M -f avfoundation -capture_cursor 1 -framerate 15 -use_wallclock_as_timestamps 1 -i 1:none {} {} {} -y o.mp4",
        SCALE, MAC_ENCODER, CONTRACT
    ));
    assert_eq!(got, expected);
}

#[test]
fn webcam_on_mac() {
    let s = Some(settings(true, "4", false, "", "standard"));
    let got = recording_arguments(Platform::MacOs, CaptureMode::Webcam, &s, "cam.mp4").unwrap();
    let expected = words(&format!(
        "-loglevel verbose -rtbufsize 200M -f avfoundation -framerate 30 -use_wallclock_as_timestamps 1 -i 0:4 -map 0:v -map 0:a {} {} {} -c:a aac -b:a 192k -profile:a aac_low -ar 48000 -ac 2 -af asetpts=PTS-STARTPTS -y cam.mp4",
        SCALE, MAC_ENCODER, CONTRACT
    ));
    assert_eq!(got, expected);
    let s = Some(settings(false, "4", false, "", "standard"));
    let got = recording_arguments(Platform::MacOs, CaptureMode::Webcam, &s, "cam.mp4").unwrap();
    let expected = words(&format!(
        "-loglevel verbose -rtbufsize 200M -f avfoundation -framerate 30 -use_wallclock_as_timestamps 1 -i 0:none {} {} {} -y cam.mp4",
        SCALE, MAC_ENCODER, CONTRACT
    ));
    assert_eq!(got, expected);
}

const COMBO_VIDEO: &str = "-thread_queue_size 2048 -f avfoundation -capture_cursor 1 -framerate 30 -use_wallclock_as_timestamps 1 -i 1:none -thread_queue_size 2048 -f avfoundation -framerate 30 -use_wallclock_as_timestamps 1 -i 0:none";

#[test]
fn combo_with_two_audio_sources() {
    let s = Some(settings(true, "1", true, "5", "standard"));
    let got = recording_arguments(Platform::MacOs, CaptureMode::Combo, &s, "c.mp4").unwrap();
    let expected = words(&format!(
        "-loglevel verbose -rtbufsize 200M {} -probesize 100M -rtbufsize 200M -thread_queue_size 8192 -f avfoundation -i :1 -probesize 100M -rtbufsize 200M -thread_queue_size 8192 -f avfoundation -i :5 {} {} -filter_complex {}{} -map [vout] -map [aout] -c:a aac -b:a 192k -profile:a aac_low -ar 48000 -ac 2 -y c.mp4",
        COMBO_VIDEO, MAC_ENCODER, CONTRACT, OVERLAY, MIX_2_3
    ));
    assert_eq!(got, expected);
}

#[test]
fn combo_with_one_audio_source_and_with_none() {
    let got = recording_arguments(Platform::MacOs, CaptureMode::Combo, &None, "c.mp4").unwrap();
    let expected = words(&format!(
        "-loglevel verbose -rtbufsize 200M {} -probesize 100M -rtbufsize 200M -thread_queue_size 8192 -f avfoundation -i :0 {} {} -filter_complex {};[2:a]asetpts=PTS-STARTPTS[aout] -map [vout] -map [aout] -c:a aac -b:a 192k -profile:a aac_low -ar 48000 -ac 2 -y c.mp4",
        COMBO_VIDEO, MAC_ENCODER, CONTRACT, OVERLAY
    ));
    assert_eq!(got, expected);
    let s = Some(settings(false, "1", false, "5", "standard"));
    let got = recording_arguments(Platform::MacOs, CaptureMode::Combo, &s, "c.mp4").unwrap();
    let expected = words(&format!(
        "-loglevel verbose -rtbufsize 200M {} {} {} -filter_complex {} -map [vout] -y c.mp4",
        COMBO_VIDEO, MAC_ENCODER, CONTRACT, OVERLAY
    ));
    assert_eq!(got, expected);
}

#[test]
fn unsupported_modes_have_no_invocation() {
    assert!(recording_arguments(Platform::Windows, CaptureMode::Combo, &None, "o.mp4").is_none());
    assert!(recording_arguments(Platform::Linux, CaptureMode::Combo, &None, "o.mp4").is_none());
    assert!(recording_arguments(Platform::MacOs, CaptureMode::Combo, &None, "o.mp4").is_some());
}

#[test]
fn other_platforms() {
    let s = Some(settings(false, "", false, "", ""));
    let got = recording_arguments(Platform::Windows, CaptureMode::Screen, &s, "w.mp4").unwrap();
    assert_eq!(
        got,
        words(&format!(
            "-loglevel verbose -rtbufsize 200M -f gdigrab -i desktop -r 30 {} {} {} -y w.mp4",
            SCALE, SOFT_ENCODER, CONTRACT
        ))
    );
    let got = recording_arguments(Platform::Windows, CaptureMode::Webcam, &s, "w.mp4").unwrap();
    assert_eq!(
        got,
        words(&format!(
            "-loglevel verbose -rtbufsize 200M -f dshow -i video= -r 30 {} {} {} -y w.mp4",
            SCALE, SOFT_ENCODER, CONTRACT
        ))
    );
    let got = recording_arguments(Platform::Linux, CaptureMode::Screen, &None, "l.mp4").unwrap();
    assert_eq!(
        got,
        words(&format!(
            "-loglevel verbose -rtbufsize 200M -f x11grab -i :0.0 -r 30 {} {} {} -c:a aac -b:a 192k -profile:a aac_low -ar 48000 -ac 2 -y l.mp4",
            SCALE, SOFT_ENCODER, CONTRACT
        ))
    );
    let got = recording_arguments(Platform::Linux, CaptureMode::Webcam, &s, "l.mp4").unwrap();
    assert_eq!(
        got,
        words(&format!(
            "-loglevel verbose -rtbufsize 200M -f v4l2 -i /dev/video0 -r 30 {} {} {} -y l.mp4",
            SCALE, SOFT_ENCODER, CONTRACT
        ))
    );
}

fn options(mode: &str) -> StartRecordingOptions {
    StartRecordingOptions {
        mode: mode.to_string(),
        output_path: "out.mp4".to_string(),
        audio_settings: None,
    }
}

#[test]
fn start_is_planned_when_idle() {
    let session = RecordingSession::new();
    assert!(!session.is_recording());
    assert_eq!(session.process(), None);
    let args = session.plan_start(Platform::MacOs, &options("screen")).unwrap();
    assert_eq!(
        Some(args),
        recording_arguments(Platform::MacOs, CaptureMode::Screen, &None, "out.mp4")
    );
}

#[test]
fn start_with_invalid_mode_is_refused() {
    let session = RecordingSession::new();
    let e = session.plan_start(Platform::MacOs, &options("window")).unwrap_err();
    assert_eq!(e.kind, RecordingErrorKind::InvalidMode);
    assert_eq!(e.message, "Invalid recording mode");
    let e = session.plan_start(Platform::Linux, &options("combo")).unwrap_err();
    assert_eq!(e.kind, RecordingErrorKind::InvalidMode);
    let e = session.plan_start(Platform::Windows, &options("combo")).unwrap_err();
    assert_eq!(e.kind, RecordingErrorKind::InvalidMode);
    assert!(session.plan_start(Platform::MacOs, &options("combo")).is_ok());
}

#[test]
fn second_start_is_a_conflict() {
    let mut session = RecordingSession::new();
    let started = session.commit_start(Launch::Standard, "out.mp4", 41, &Liveness::Running);
    assert_eq!(started.unwrap(), "Recording started");
    assert!(session.is_recording());
    assert_eq!(session.process(), Some(41));
    let e = session.plan_start(Platform::MacOs, &options("screen")).unwrap_err();
    assert_eq!(e.kind, RecordingErrorKind::AlreadyRecording);
    assert_eq!(e.message, "Recording already in progress");
    let e = session
        .commit_start(Launch::Standard, "other.mp4", 42, &Liveness::Running)
        .unwrap_err();
    assert_eq!(e.kind, RecordingErrorKind::AlreadyRecording);
    assert_eq!(session.process(), Some(41));
    let e = session.plan_start(Platform::MacOs, &options("nonsense")).unwrap_err();
    assert_eq!(e.kind, RecordingErrorKind::AlreadyRecording);
}

#[test]
fn start_that_exits_at_once_fails() {
    let mut session = RecordingSession::new();
    let e = session
        .commit_start(Launch::Standard, "out.mp4", 7, &Liveness::Exited("exit status: 1".to_string()))
        .unwrap_err();
    assert_eq!(e.kind, RecordingErrorKind::ExitedImmediately);
    assert_eq!(e.message, "FFmpeg exited immediately with status: exit status: 1");
    assert!(!session.is_recording());
    let e = session
        .commit_start(Launch::Trial, "out.mp4", 7, &Liveness::Exited("exit status: 1".to_string()))
        .unwrap_err();
    assert_eq!(e.message, "FFmpeg test recording exited immediately with status: exit status: 1");
    let ok = session.commit_start(Launch::Trial, "t.mp4", 8, &Liveness::Unknown).unwrap();
    assert_eq!(ok, "t.mp4");
    assert_eq!(session.process(), Some(8));
}

#[test]
fn stop_without_recording_fails() {
    let mut session = RecordingSession::new();
    let e = session.begin_stop().unwrap_err();
    assert_eq!(e.kind, RecordingErrorKind::NoActiveRecording);
    assert_eq!(e.message, "No active recording");
    assert_ne!(e.kind, RecordingErrorKind::AlreadyRecording);
    assert!(!session.is_recording());
}

#[test]
fn stop_hands_out_the_process() {
    let mut session = RecordingSession::new();
    session.commit_start(Launch::Standard, "out.mp4", 99, &Liveness::Running).unwrap();
    assert_eq!(session.begin_stop().unwrap(), 99);
    assert!(!session.is_recording());
    assert_eq!(session.begin_stop().unwrap_err().kind, RecordingErrorKind::NoActiveRecording);
    assert!(session.plan_start(Platform::MacOs, &options("screen")).is_ok());
}

fn report(success: bool, code: Option<i32>, signal: Option<i32>) -> ExitReport {
    ExitReport { success, code, signal, status: "exit status: 1".to_string() }
}

#[test]
fn normal_exits() {
    assert!(is_normal_exit(Platform::MacOs, &report(true, Some(0), None)));
    assert!(is_normal_exit(Platform::MacOs, &report(false, Some(255), None)));
    assert!(is_normal_exit(Platform::Linux, &report(false, None, Some(2))));
    assert!(!is_normal_exit(Platform::Linux, &report(false, Some(1), None)));
    assert!(!is_normal_exit(Platform::Linux, &report(false, None, Some(9))));
    assert!(is_normal_exit(Platform::Windows, &report(true, Some(0), None)));
    assert!(!is_normal_exit(Platform::Windows, &report(false, Some(255), None)));
}

#[test]
fn stop_outcomes() {
    let ok = stop_outcome(Platform::MacOs, &report(false, Some(255), None), None).unwrap();
    assert_eq!(ok, "Recording stopped");
    let e = stop_outcome(Platform::MacOs, &report(false, Some(1), None), None).unwrap_err();
    assert_eq!(e.kind, RecordingErrorKind::Failed);
    assert_eq!(e.message, "Recording failed with status: exit status: 1. Check the logs for details.");
    let e = stop_outcome(
        Platform::MacOs,
        &report(false, Some(1), None),
        Some("x\nOperation not permitted\n"),
    )
    .unwrap_err();
    assert_eq!(e.kind, RecordingErrorKind::PermissionDenied);
    assert_eq!(e.message, "Recording failed: Screen recording permission denied. Please grant permission in System Settings > Privacy & Security > Screen Recording");
}

#[test]
fn failures_are_classified() {
    let e = classify_failure("s", Some("Invalid device index"));
    assert_eq!(e.kind, RecordingErrorKind::InvalidDevice);
    assert_eq!(e.message, "Recording failed: Invalid audio device selected");
    let e = classify_failure("s", Some("frame=1\n[x] Error opening input\nError two\n"));
    assert_eq!(e.kind, RecordingErrorKind::EncoderError);
    assert_eq!(e.message, "Recording failed: [x] Error opening input");
    let e = classify_failure("s", Some("Error\nExiting normally"));
    assert_eq!(e.kind, RecordingErrorKind::Failed);
    assert_eq!(e.message, "Recording failed with status: s. Check the logs for details.");
    let e = classify_failure("s", Some("all fine"));
    assert_eq!(e.kind, RecordingErrorKind::Failed);
    let e = classify_failure("s", Some("not permitted and Invalid device"));
    assert_eq!(e.kind, RecordingErrorKind::PermissionDenied);
}

#[test]
fn launch_and_wait_messages() {
    let e = launch_failed(Launch::Standard, "not found");
    assert_eq!(e.kind, RecordingErrorKind::LaunchFailed);
    assert_eq!(e.message, "Failed to start FFmpeg recording: not found. Make sure FFmpeg is installed.");
    assert_eq!(
        launch_failed(Launch::Trial, "x").message,
        "Failed to start test recording: x. Make sure FFmpeg is installed."
    );
    assert_eq!(launch_failed(Launch::Helper, "x").message, "Failed to start ScreenRecorder: x");
    let e = wait_failed("gone");
    assert_eq!(e.kind, RecordingErrorKind::WaitFailed);
    assert_eq!(e.message, "Failed to stop recording cleanly: gone");
}

#[test]
fn diagnostic_lines_of_note() {
    assert!(sync_warning("frame drop detected"));
    assert!(sync_warning("timestamp discontinuity"));
    assert!(sync_warning("real-time buffer too full"));
    assert!(sync_warning("Thread message queue blocking"));
    assert!(sync_warning("ALSA overrun"));
    assert!(sync_warning("underrun"));
    assert!(sync_warning("invalid pts"));
    assert!(sync_warning("Stream #0:1: audio"));
    assert!(!sync_warning("frame=  100 fps= 15"));
    assert!(!sync_warning("Drop"));
}

fn trial(mode: &str, wallclock: bool, filter: &str, audio: Option<AudioSettings>) -> StartTestRecordingOptions {
    StartTestRecordingOptions {
        mode: mode.to_string(),
        output_path: "t.mp4".to_string(),
        audio_settings: audio,
        test_settings: TestSettings {
            use_wallclock_as_timestamps: wallclock,
            audio_filter: filter.to_string(),
            rtbufsize: "150M".to_string(),
            thread_queue_size: 512,
        },
    }
}

#[test]
fn trial_recording_arguments() {
    let got = trial_arguments(Platform::MacOs, &trial("screen", true, "aresample=async=1", None));
    assert_eq!(
        got,
        words("-loglevel verbose -rtbufsize 150M -f avfoundation -capture_cursor 1 -framerate 30 -use_wallclock_as_timestamps 1 -i 1:0 -thread_queue_size 512 -c:v libx264 -preset ultrafast -pix_fmt yuv420p -c:a aac -b:a 128k -ar 48000 -ac 2 -af aresample=async=1 -y t.mp4")
    );
    let muted = Some(settings(false, "2", false, "", "standard"));
    let got = trial_arguments(Platform::MacOs, &trial("screen", false, "aresample=async=1", muted));
    assert_eq!(
        got,
        words("-loglevel verbose -rtbufsize 150M -f avfoundation -capture_cursor 1 -framerate 30 -i 1:none -thread_queue_size 512 -c:v libx264 -preset ultrafast -pix_fmt yuv420p -c:a aac -b:a 128k -ar 48000 -ac 2 -y t.mp4")
    );
    let got = trial_arguments(Platform::MacOs, &trial("webcam", true, "", None));
    assert_eq!(
        got,
        words("-loglevel verbose -rtbufsize 150M -thread_queue_size 512 -c:v libx264 -preset ultrafast -pix_fmt yuv420p -c:a aac -b:a 128k -ar 48000 -ac 2 -y t.mp4")
    );
    let got = trial_arguments(Platform::Linux, &trial("screen", true, "x", None));
    assert_eq!(got, words("-loglevel verbose -rtbufsize 150M -y t.mp4"));
}

#[test]
fn trial_recording_respects_the_session() {
    let mut session = RecordingSession::new();
    let o = trial("screen", true, "", None);
    assert_eq!(
        start_test_recording(&session, Platform::MacOs, &o).unwrap(),
        trial_arguments(Platform::MacOs, &o)
    );
    session.commit_start(Launch::Trial, "t.mp4", 5, &Liveness::Running).unwrap();
    let e = start_test_recording(&session, Platform::MacOs, &o).unwrap_err();
    assert_eq!(e.kind, RecordingErrorKind::AlreadyRecording);
    assert_eq!(e.message, "Recording already in progress");
}

#[test]
fn signed_numbers() {
    assert_eq!(signed_decimal_string(0), "0");
    assert_eq!(signed_decimal_string(8192), "8192");
    assert_eq!(signed_decimal_string(-7), "-7");
    assert_eq!(signed_decimal_string(i32::MIN), "-2147483648");
    assert_eq!(signed_decimal_string(i32::MAX), "2147483647");
}

#[test]
fn native_helper_arguments() {
    assert_eq!(helper_arguments("o.mov", 10000, true), vec!["o.mov", "0", "true", "10"]);
    assert_eq!(helper_arguments("o.mov", 2500, false), vec!["o.mov", "0", "false", "2.5"]);
    let mut session = RecordingSession::new();
    let e = start_screencapturekit_recording(&session, false, "o.mov", 1000, true).unwrap_err();
    assert_eq!(e.kind, RecordingErrorKind::HelperMissing);
    assert_eq!(e.message, "ScreenRecorder binary not found. Please rebuild the application.");
    let args = start_screencapturekit_recording(&session, true, "o.mov", 1000, true).unwrap();
    assert_eq!(args, vec!["o.mov", "0", "true", "1"]);
    session.commit_start(Launch::Helper, "o.mov", 3, &Liveness::Unknown).unwrap();
    let e = start_screencapturekit_recording(&session, true, "o.mov", 1000, true).unwrap_err();
    assert_eq!(e.kind, RecordingErrorKind::AlreadyRecording);
}

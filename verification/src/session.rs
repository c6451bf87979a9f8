//! The recording session: one slot that holds at most one live capture
//! process, and the rules by which a recording starts and stops.

use vstd::prelude::*;
use vstd::string::StringExecFns;
use crate::diagnostics::{first_line_with, first_with};
use crate::invocation::{mode_supported, recording_args, recording_arguments};
use crate::lines::lines;
use crate::routing::{capture_mode, mode_of, AudioSettings, Platform};
use crate::text::{chars_of, contains, includes, text_of_all};

verus! {

/// What went wrong with a recording.
#[derive(Clone, Copy, Debug, PartialEq, Eq, Structural)]
pub enum RecordingErrorKind {
    /// A recording is already in progress; the request was not queued.
    AlreadyRecording,
    /// The capture mode is unknown, or the platform cannot capture in it.
    InvalidMode,
    /// The capture process could not be launched.
    LaunchFailed,
    /// The capture process had exited when its liveness was polled.
    ExitedImmediately,
    /// There is no recording to stop.
    NoActiveRecording,
    /// The system denied the permission to record the screen.
    PermissionDenied,
    /// The chosen audio device is not valid.
    InvalidDevice,
    /// The encoder reported an error in its diagnostics.
    EncoderError,
    /// The capture process failed with no diagnosis.
    Failed,
    /// Waiting for the capture process failed.
    WaitFailed,
    /// The native capture helper is not installed.
    HelperMissing,
}

/// A failed recording request: its kind and the message for the user.
#[derive(Debug)]
pub struct RecordingError {
    pub kind: RecordingErrorKind,
    pub message: String,
}

/// The three ways in which a capture process is launched.
#[derive(Clone, Copy, Debug, PartialEq, Eq, Structural)]
pub enum Launch {
    /// The encoder with the standard invocation.
    Standard,
    /// The encoder with experimental buffer settings.
    Trial,
    /// The platform's native capture helper.
    Helper,
}

/// What a request to start a recording asks for.
#[derive(Debug)]
pub struct StartRecordingOptions {
    /// "screen", "webcam" or "combo".
    pub mode: String,
    pub output_path: String,
    pub audio_settings: Option<AudioSettings>,
}

/// What a single poll of a launched process showed.
#[derive(Debug)]
pub enum Liveness {
    /// The process is running.
    Running,
    /// The process has exited, with this status.
    Exited(String),
    /// The poll itself failed.
    Unknown,
}

/// How a capture process ended.
#[derive(Debug)]
pub struct ExitReport {
    /// Whether the process reports success.
    pub success: bool,
    /// Its exit code, where it exited by itself.
    pub code: Option<i32>,
    /// The signal that ended it, where one did.
    pub signal: Option<i32>,
    /// The status in words.
    pub status: String,
}

/// How long a launched capture process is given before its liveness is
/// polled, in milliseconds.
pub const GRACE_PERIOD_MS: u64 = 500;

/// How long a stopped capture process is given to flush its output to disk,
/// in milliseconds.
pub const FLUSH_PERIOD_MS: u64 = 500;

/// The encoder's exit code after an interrupt.
pub const INTERRUPTED_EXIT_CODE: i32 = 255;

/// The number of the interrupt signal.
pub const INTERRUPT_SIGNAL: i32 = 2;

/// The message of a failed launch.
pub open spec fn launch_failed_text(launch: Launch, reason: Seq<char>) -> Seq<char> {
    match launch {
        Launch::Standard => "Failed to start FFmpeg recording: "@ + reason
            + ". Make sure FFmpeg is installed."@,
        Launch::Trial => "Failed to start test recording: "@ + reason
            + ". Make sure FFmpeg is installed."@,
        Launch::Helper => "Failed to start ScreenRecorder: "@ + reason,
    }
}

/// The message of a process that exited at once.
pub open spec fn exited_text(launch: Launch, status: Seq<char>) -> Seq<char> {
    match launch {
        Launch::Trial => "FFmpeg test recording exited immediately with status: "@ + status,
        _ => "FFmpeg exited immediately with status: "@ + status,
    }
}

/// The message of a successful start: the standard launch confirms in
/// words, the others name the output.
pub open spec fn started_text(launch: Launch, output_path: Seq<char>) -> Seq<char> {
    match launch {
        Launch::Standard => "Recording started"@,
        _ => output_path,
    }
}

/// Whether an exit counts as normal: the process reports success, or, where
/// it was stopped by an interrupt signal, it exits with the encoder's code
/// for that or was ended by the signal itself.
pub open spec fn normal_exit(platform: Platform, report: ExitReport) -> bool {
    report.success || (platform != Platform::Windows && (report.code == Some(INTERRUPTED_EXIT_CODE)
        || report.signal == Some(INTERRUPT_SIGNAL)))
}

/// The kind of failure that the diagnostics of an abnormal exit show.
pub open spec fn failure_kind(diagnostics: Option<Seq<char>>) -> RecordingErrorKind {
    match diagnostics {
        None => RecordingErrorKind::Failed,
        Some(d) => if contains(d, "not permitted"@) {
            RecordingErrorKind::PermissionDenied
        } else if contains(d, "Invalid device"@) {
            RecordingErrorKind::InvalidDevice
        } else if contains(d, "Error"@) && !contains(d, "Exiting normally"@) {
            RecordingErrorKind::EncoderError
        } else {
            RecordingErrorKind::Failed
        },
    }
}

/// The line of the diagnostics that a message for an encoder error quotes.
pub open spec fn quoted_error(d: Seq<char>) -> Seq<char> {
    match first_with(lines(d), "Error"@) {
        Some(l) => l,
        None => "Unknown error"@,
    }
}

/// The message of an abnormal exit.
pub open spec fn failure_text(status: Seq<char>, diagnostics: Option<Seq<char>>) -> Seq<char> {
    match failure_kind(diagnostics) {
        RecordingErrorKind::PermissionDenied => "Recording failed: Screen recording permission denied. Please grant permission in System Settings > Privacy & Security > Screen Recording"@,
        RecordingErrorKind::InvalidDevice => "Recording failed: Invalid audio device selected"@,
        RecordingErrorKind::EncoderError => "Recording failed: "@ + quoted_error(
            diagnostics.unwrap(),
        ),
        _ => "Recording failed with status: "@ + status + ". Check the logs for details."@,
    }
}

fn fail(kind: RecordingErrorKind, message: String) -> (e: RecordingError)
    ensures
        e.kind == kind,
        e.message@ == message@,
{
    RecordingError { kind, message }
}

/// The error of a second start request.
pub fn already_recording() -> (e: RecordingError)
    ensures
        e.kind == RecordingErrorKind::AlreadyRecording,
        e.message@ == "Recording already in progress"@,
{
    fail(RecordingErrorKind::AlreadyRecording, "Recording already in progress".to_string())
}

/// The error of a capture process that could not be launched.
pub fn launch_failed(launch: Launch, reason: &str) -> (e: RecordingError)
    ensures
        e.kind == RecordingErrorKind::LaunchFailed,
        e.message@ == launch_failed_text(launch, reason@),
{
    let mut m = match launch {
        Launch::Standard => "Failed to start FFmpeg recording: ".to_string(),
        Launch::Trial => "Failed to start test recording: ".to_string(),
        Launch::Helper => "Failed to start ScreenRecorder: ".to_string(),
    };
    m.append(reason);
    match launch {
        Launch::Helper => {},
        _ => {
            m.append(". Make sure FFmpeg is installed.");
        },
    }
    fail(RecordingErrorKind::LaunchFailed, m)
}

/// The error of a missing native capture helper.
pub fn helper_missing() -> (e: RecordingError)
    ensures
        e.kind == RecordingErrorKind::HelperMissing,
        e.message@ == "ScreenRecorder binary not found. Please rebuild the application."@,
{
    fail(
        RecordingErrorKind::HelperMissing,
        "ScreenRecorder binary not found. Please rebuild the application.".to_string(),
    )
}

/// The error of a wait for the capture process that failed.
pub fn wait_failed(reason: &str) -> (e: RecordingError)
    ensures
        e.kind == RecordingErrorKind::WaitFailed,
        e.message@ == "Failed to stop recording cleanly: "@ + reason@,
{
    let mut m = "Failed to stop recording cleanly: ".to_string();
    m.append(reason);
    fail(RecordingErrorKind::WaitFailed, m)
}

/// Whether the exit of a stopped capture process counts as normal.
pub fn is_normal_exit(platform: Platform, report: &ExitReport) -> (r: bool)
    ensures
        r == normal_exit(platform, *report),
{
    if report.success {
        return true;
    }
    if platform == Platform::Windows {
        return false;
    }
    let by_code = match report.code {
        Some(c) => c == INTERRUPTED_EXIT_CODE,
        None => false,
    };
    let by_signal = match report.signal {
        Some(s) => s == INTERRUPT_SIGNAL,
        None => false,
    };
    by_code || by_signal
}

/// The error of a capture process that exited abnormally, from its status
/// and from its diagnostics where they could be read.
pub fn classify_failure(status: &str, diagnostics: Option<&str>) -> (e: RecordingError)
    ensures
        e.kind == failure_kind(
            match diagnostics {
                Some(d) => Some(d@),
                None => None,
            },
        ),
        e.message@ == failure_text(
            status@,
            match diagnostics {
                Some(d) => Some(d@),
                None => None,
            },
        ),
{
    match diagnostics {
        Some(text) => {
            let d = chars_of(text);
            if includes(&d, "not permitted") {
                return fail(
                    RecordingErrorKind::PermissionDenied,
                    "Recording failed: Screen recording permission denied. Please grant permission in System Settings > Privacy & Security > Screen Recording".to_string(),
                );
            }
            if includes(&d, "Invalid device") {
                return fail(
                    RecordingErrorKind::InvalidDevice,
                    "Recording failed: Invalid audio device selected".to_string(),
                );
            }
            if includes(&d, "Error") && !includes(&d, "Exiting normally") {
                let mut m = "Recording failed: ".to_string();
                match first_line_with(&d, "Error") {
                    Some(l) => {
                        let line = text_of_all(&l);
                        m.append(line.as_str());
                    },
                    None => {
                        m.append("Unknown error");
                    },
                }
                return fail(RecordingErrorKind::EncoderError, m);
            }
        },
        None => {},
    }
    let mut m = "Recording failed with status: ".to_string();
    m.append(status);
    m.append(". Check the logs for details.");
    fail(RecordingErrorKind::Failed, m)
}

/// The result of stopping a capture process that was waited for: the
/// confirmation after a normal exit, the classified failure otherwise.
pub fn stop_outcome(platform: Platform, report: &ExitReport, diagnostics: Option<&str>) -> (r:
    Result<String, RecordingError>)
    ensures
        normal_exit(platform, *report) ==> r.is_ok() && r.unwrap()@ == "Recording stopped"@,
        !normal_exit(platform, *report) ==> r.is_err() && r.unwrap_err().kind == failure_kind(
            match diagnostics {
                Some(d) => Some(d@),
                None => None,
            },
        ) && r.unwrap_err().message@ == failure_text(
            report.status@,
            match diagnostics {
                Some(d) => Some(d@),
                None => None,
            },
        ),
{
    if is_normal_exit(platform, report) {
        Ok("Recording stopped".to_string())
    } else {
        Err(classify_failure(report.status.as_str(), diagnostics))
    }
}

/// The slot of the one capture process that may run at a time.
pub struct RecordingSession {
    process: Option<u32>,
}

impl View for RecordingSession {
    type V = Option<u32>;

    /// The identifier of the process that is recording, if one is.
    closed spec fn view(&self) -> Option<u32> {
        self.process
    }
}

impl RecordingSession {
    /// A session in which nothing records.
    pub fn new() -> (s: Self)
        ensures
            s@.is_none(),
    {
        RecordingSession { process: None }
    }

    /// Whether a recording is in progress.
    pub fn is_recording(&self) -> (r: bool)
        ensures
            r == self@.is_some(),
    {
        self.process.is_some()
    }

    /// The identifier of the process that is recording, if one is.
    pub fn process(&self) -> (r: Option<u32>)
        ensures
            r == self@,
    {
        self.process
    }

    /// Answers a request to start a recording with the encoder's argument
    /// list. While a recording is in progress every request is refused;
    /// otherwise one with an unknown or unsupported mode is.
    pub fn plan_start(&self, platform: Platform, options: &StartRecordingOptions) -> (r: Result<
        Vec<String>,
        RecordingError,
    >)
        ensures
            self@.is_some() ==> r.is_err() && r.unwrap_err().kind
                == RecordingErrorKind::AlreadyRecording && r.unwrap_err().message@
                == "Recording already in progress"@,
            self@.is_none() && !start_accepted(platform, options.mode@) ==> r.is_err()
                && r.unwrap_err().kind == RecordingErrorKind::InvalidMode && r.unwrap_err().message@
                == "Invalid recording mode"@,
            self@.is_none() && start_accepted(platform, options.mode@) ==> r.is_ok()
                && r.unwrap().deep_view() == recording_args(
                platform,
                mode_of(options.mode@).unwrap(),
                options.audio_settings,
                options.output_path@,
            ),
    {
        if self.process.is_some() {
            return Err(already_recording());
        }
        let planned = match capture_mode(options.mode.as_str()) {
            Some(mode) => recording_arguments(
                platform,
                mode,
                &options.audio_settings,
                options.output_path.as_str(),
            ),
            None => None,
        };
        match planned {
            Some(arguments) => Ok(arguments),
            None => Err(
                fail(RecordingErrorKind::InvalidMode, "Invalid recording mode".to_string()),
            ),
        }
    }

    /// Records that a capture process was launched and polled once after the
    /// grace period. A process that has exited is a failed start; one that
    /// runs, or whose poll failed, now holds the slot. While a recording is
    /// in progress the slot keeps its process and the request is refused.
    pub fn commit_start(
        &mut self,
        launch: Launch,
        output_path: &str,
        process: u32,
        liveness: &Liveness,
    ) -> (r: Result<String, RecordingError>)
        ensures
            old(self)@.is_some() ==> final(self)@ == old(self)@ && r.is_err()
                && r.unwrap_err().kind == RecordingErrorKind::AlreadyRecording,
            old(self)@.is_none() ==> match *liveness {
                Liveness::Exited(status) => final(self)@.is_none() && r.is_err()
                    && r.unwrap_err().kind == RecordingErrorKind::ExitedImmediately
                    && r.unwrap_err().message@ == exited_text(launch, status@),
                _ => final(self)@ == Some(process) && r.is_ok() && r.unwrap()@ == started_text(
                    launch,
                    output_path@,
                ),
            },
    {
        if self.process.is_some() {
            return Err(already_recording());
        }
        match liveness {
            Liveness::Exited(status) => {
                let mut m = match launch {
                    Launch::Trial => "FFmpeg test recording exited immediately with status: ".to_string(),
                    _ => "FFmpeg exited immediately with status: ".to_string(),
                };
                m.append(status.as_str());
                Err(fail(RecordingErrorKind::ExitedImmediately, m))
            },
            _ => {
                self.process = Some(process);
                match launch {
                    Launch::Standard => Ok("Recording started".to_string()),
                    _ => Ok(output_path.to_string()),
                }
            },
        }
    }

    /// Takes the capture process out of the slot so that it can be
    /// interrupted and waited for. With nothing recording there is nothing
    /// to stop.
    pub fn begin_stop(&mut self) -> (r: Result<u32, RecordingError>)
        ensures
            final(self)@.is_none(),
            match old(self)@ {
                Some(p) => r.is_ok() && r.unwrap() == p,
                None => r.is_err() && r.unwrap_err().kind == RecordingErrorKind::NoActiveRecording
                    && r.unwrap_err().message@ == "No active recording"@,
            },
    {
        match self.process {
            Some(p) => {
                self.process = None;
                Ok(p)
            },
            None => Err(
                fail(RecordingErrorKind::NoActiveRecording, "No active recording".to_string()),
            ),
        }
    }
}

/// Whether a start request in the mode named `mode` is accepted on a
/// platform.
pub open spec fn start_accepted(platform: Platform, mode: Seq<char>) -> bool {
    match mode_of(mode) {
        Some(m) => mode_supported(platform, m),
        None => false,
    }
}

} // verus!

//! The metadata prober: the probing tool's invocation and the reading of
//! its structured output.

use vstd::prelude::*;
use vstd::string::StringExecFns;
use crate::json::{
    items, json_items, json_member, json_parse, json_text, json_unsigned, member, parse_document,
    text, unsigned,
};
use crate::millis::{parse_seconds, read_seconds};
use crate::lines::{trim, trimmed};
use crate::text::{chars_of, push_arg, same_text};
use crate::tools::ToolOutput;

verus! {

/// What a probe learns of a media file.
#[derive(Clone, Copy, Debug)]
pub struct MediaProbe {
    /// The length in milliseconds; zero where it is unknown.
    pub duration: i64,
    pub width: u32,
    pub height: u32,
    /// Whether the file has an audio stream.
    pub has_audio: bool,
}

/// Why a probe failed.
#[derive(Clone, Copy, Debug, PartialEq, Eq, Structural)]
pub enum ProbeErrorKind {
    /// The probing tool could not be invoked.
    ToolUnavailable,
    /// The probing tool ran and reported failure.
    ToolFailed,
    /// The tool's output is no JSON document.
    MalformedOutput,
    /// The file has no video stream.
    NoVideoStream,
}

/// A failed probe: its kind and the message for the user.
#[derive(Debug)]
pub struct ProbeError {
    pub kind: ProbeErrorKind,
    pub message: String,
}

/// Width of a video stream that states none.
pub const DEFAULT_WIDTH: u32 = 1920;

/// Height of a video stream that states none.
pub const DEFAULT_HEIGHT: u32 = 1080;

/// The arguments of a full probe of `path`: format and streams, as JSON.
pub open spec fn probe_args(path: Seq<char>) -> Seq<Seq<char>> {
    seq!["-v"@, "quiet"@, "-print_format"@, "json"@, "-show_format"@, "-show_streams"@, path]
}

/// The arguments of a probe of `path` for its audio streams alone.
pub open spec fn audio_probe_args(path: Seq<char>) -> Seq<Seq<char>> {
    seq![
        "-v"@,
        "quiet"@,
        "-print_format"@,
        "json"@,
        "-show_streams"@,
        "-select_streams"@,
        "a"@,
        path,
    ]
}

/// The arguments of a probe of `path` that prints the length alone.
pub open spec fn length_probe_args(path: Seq<char>) -> Seq<Seq<char>> {
    seq![
        "-v"@,
        "error"@,
        "-show_entries"@,
        "format=duration"@,
        "-of"@,
        "default=noprint_wrappers=1:nokey=1"@,
        path,
    ]
}

/// The arguments of a full probe of `path`.
pub fn probe_arguments(path: &str) -> (v: Vec<String>)
    ensures
        v.deep_view() == probe_args(path@),
{
    let mut v: Vec<String> = Vec::new();
    push_arg(&mut v, "-v");
    push_arg(&mut v, "quiet");
    push_arg(&mut v, "-print_format");
    push_arg(&mut v, "json");
    push_arg(&mut v, "-show_format");
    push_arg(&mut v, "-show_streams");
    push_arg(&mut v, path);
    assert(v.deep_view() =~= probe_args(path@));
    v
}

/// The arguments of a probe of `path` for its audio streams alone.
pub fn audio_probe_arguments(path: &str) -> (v: Vec<String>)
    ensures
        v.deep_view() == audio_probe_args(path@),
{
    let mut v: Vec<String> = Vec::new();
    push_arg(&mut v, "-v");
    push_arg(&mut v, "quiet");
    push_arg(&mut v, "-print_format");
    push_arg(&mut v, "json");
    push_arg(&mut v, "-show_streams");
    push_arg(&mut v, "-select_streams");
    push_arg(&mut v, "a");
    push_arg(&mut v, path);
    assert(v.deep_view() =~= audio_probe_args(path@));
    v
}

/// The arguments of a probe of `path` that prints the length alone.
pub fn length_probe_arguments(path: &str) -> (v: Vec<String>)
    ensures
        v.deep_view() == length_probe_args(path@),
{
    let mut v: Vec<String> = Vec::new();
    push_arg(&mut v, "-v");
    push_arg(&mut v, "error");
    push_arg(&mut v, "-show_entries");
    push_arg(&mut v, "format=duration");
    push_arg(&mut v, "-of");
    push_arg(&mut v, "default=noprint_wrappers=1:nokey=1");
    push_arg(&mut v, path);
    assert(v.deep_view() =~= length_probe_args(path@));
    v
}

/// The text under `format.duration` of a probe document.
pub open spec fn duration_text(doc: serde_json::Value) -> Option<Seq<char>> {
    match json_member(doc, "format"@) {
        Some(f) => match json_member(f, "duration"@) {
            Some(d) => json_text(d),
            None => None,
        },
        None => None,
    }
}

/// The length that a duration text gives, zero where it is absent or no
/// time.
pub open spec fn duration_from(t: Option<Seq<char>>) -> i64 {
    match t {
        Some(s) => match parse_seconds(s) {
            Some(ms) => ms,
            None => 0,
        },
        None => 0,
    }
}

/// The streams of a probe document.
pub open spec fn streams_of(doc: serde_json::Value) -> Option<Seq<serde_json::Value>> {
    match json_member(doc, "streams"@) {
        Some(s) => json_items(s),
        None => None,
    }
}

/// Whether a stream is of the given type.
pub open spec fn is_kind(stream: serde_json::Value, kind: Seq<char>) -> bool {
    match json_member(stream, "codec_type"@) {
        Some(k) => json_text(k) == Some(kind),
        None => false,
    }
}

/// The first stream of the given type.
pub open spec fn first_stream(streams: Seq<serde_json::Value>, kind: Seq<char>) -> Option<
    serde_json::Value,
>
    decreases streams.len(),
{
    if streams.len() == 0 {
        None
    } else if is_kind(streams[0], kind) {
        Some(streams[0])
    } else {
        first_stream(streams.drop_first(), kind)
    }
}

/// The number under `key` of a stream, where it states one.
pub open spec fn stated(stream: serde_json::Value, key: Seq<char>) -> Option<u64> {
    match json_member(stream, key) {
        Some(v) => json_unsigned(v),
        None => None,
    }
}

/// A picture dimension as the probe reports it: the stated number, cut to
/// 32 bits, or the fallback.
pub open spec fn dimension(stated: Option<u64>, fallback: u32) -> u32 {
    match stated {
        Some(n) => (n % 0x1_0000_0000) as u32,
        None => fallback,
    }
}

/// What the streams of a file say of it, given its duration text: the
/// probe, or the kind of failure.
pub open spec fn probe_from(
    duration: Option<Seq<char>>,
    video: Option<(Option<u64>, Option<u64>)>,
    has_audio: bool,
) -> Result<MediaProbe, ProbeErrorKind> {
    match video {
        Some(size) => Ok(
            MediaProbe {
                duration: duration_from(duration),
                width: dimension(size.0, DEFAULT_WIDTH),
                height: dimension(size.1, DEFAULT_HEIGHT),
                has_audio,
            },
        ),
        None => Err(ProbeErrorKind::NoVideoStream),
    }
}

/// The stated size of the first video stream.
pub open spec fn video_size(streams: Seq<serde_json::Value>) -> Option<(Option<u64>, Option<u64>)> {
    match first_stream(streams, "video"@) {
        Some(s) => Some((stated(s, "width"@), stated(s, "height"@))),
        None => None,
    }
}

/// What a probe document says of its file.
pub open spec fn probe_of(doc: serde_json::Value) -> Result<MediaProbe, ProbeErrorKind> {
    match streams_of(doc) {
        Some(streams) => probe_from(
            duration_text(doc),
            video_size(streams),
            first_stream(streams, "audio"@).is_some(),
        ),
        None => Err(ProbeErrorKind::NoVideoStream),
    }
}

/// The message of a probe error that is the same for every file.
pub open spec fn probe_message(streams_listed: bool) -> Seq<char> {
    if streams_listed {
        "No video stream found"@
    } else {
        "No streams found in video"@
    }
}

fn probe_error(kind: ProbeErrorKind, message: String) -> (e: ProbeError)
    ensures
        e.kind == kind,
        e.message@ == message@,
{
    ProbeError { kind, message }
}

fn cut(n: u64) -> (r: u32)
    ensures
        r == (n % 0x1_0000_0000) as u32,
{
    (n % 0x1_0000_0000) as u32
}

/// Reads a duration text, which counts as zero where it is absent or no
/// time.
pub fn read_duration(t: Option<&str>) -> (ms: i64)
    ensures
        ms == duration_from(
            match t {
                Some(s) => Some(s@),
                None => None,
            },
        ),
{
    match t {
        Some(s) => {
            let chars = chars_of(s);
            assert(chars@.subrange(0, chars@.len() as int) =~= s@);
            match read_seconds(&chars, 0, chars.len()) {
                Some(ms) => ms,
                None => 0,
            }
        },
        None => 0,
    }
}

/// Assembles a probe from what the tool's output states: the duration
/// text, the stated size of the first video stream where there is such a
/// stream, and whether there is an audio stream. Without a video stream
/// the probe fails.
pub fn assemble_probe(
    duration: Option<&str>,
    video: Option<(Option<u64>, Option<u64>)>,
    has_audio: bool,
) -> (r: Result<MediaProbe, ProbeError>)
    ensures
        match probe_from(
            match duration {
                Some(s) => Some(s@),
                None => None,
            },
            video,
            has_audio,
        ) {
            Ok(p) => r == Ok::<MediaProbe, ProbeError>(p),
            Err(k) => r.is_err() && r.unwrap_err().kind == k && r.unwrap_err().message@
                == probe_message(true),
        },
{
    match video {
        Some(size) => {
            let width = match size.0 {
                Some(n) => cut(n),
                None => DEFAULT_WIDTH,
            };
            let height = match size.1 {
                Some(n) => cut(n),
                None => DEFAULT_HEIGHT,
            };
            Ok(MediaProbe { duration: read_duration(duration), width, height, has_audio })
        },
        None => Err(
            probe_error(ProbeErrorKind::NoVideoStream, "No video stream found".to_string()),
        ),
    }
}

/// The first stream of the given type.
pub fn find_stream<'a>(streams: &'a Vec<serde_json::Value>, kind: &str) -> (r: Option<
    &'a serde_json::Value,
>)
    ensures
        match r {
            Some(s) => first_stream(streams@, kind@) == Some(*s),
            None => first_stream(streams@, kind@).is_none(),
        },
{
    let mut i: usize = 0;
    assert(streams@.subrange(0, streams@.len() as int) =~= streams@);
    while i < streams.len()
        invariant
            i <= streams.len(),
            first_stream(streams@, kind@) == first_stream(
                streams@.subrange(i as int, streams@.len() as int),
                kind@,
            ),
        decreases streams.len() - i,
    {
        let ghost rest = streams@.subrange(i as int, streams@.len() as int);
        assert(rest[0] == streams@[i as int]);
        let stream = &streams[i];
        let matches = match member(stream, "codec_type") {
            Some(k) => match text(k) {
                Some(t) => same_text(t, kind),
                None => false,
            },
            None => false,
        };
        if matches {
            return Some(stream);
        }
        assert(rest.drop_first() =~= streams@.subrange(i + 1, streams@.len() as int));
        i += 1;
    }
    None
}

fn stated_number(stream: &serde_json::Value, key: &str) -> (r: Option<u64>)
    ensures
        r == stated(*stream, key@),
{
    match member(stream, key) {
        Some(v) => unsigned(v),
        None => None,
    }
}

/// Reads a probe document.
pub fn probe_of_document(doc: &serde_json::Value) -> (r: Result<MediaProbe, ProbeError>)
    ensures
        match probe_of(*doc) {
            Ok(p) => r == Ok::<MediaProbe, ProbeError>(p),
            Err(k) => r.is_err() && r.unwrap_err().kind == k && r.unwrap_err().message@
                == probe_message(streams_of(*doc).is_some()),
        },
{
    let duration: Option<&str> = match member(doc, "format") {
        Some(f) => match member(f, "duration") {
            Some(d) => text(d),
            None => None,
        },
        None => None,
    };
    let listed: Option<&Vec<serde_json::Value>> = match member(doc, "streams") {
        Some(s) => items(s),
        None => None,
    };
    match listed {
        Some(streams) => {
            let video = match find_stream(streams, "video") {
                Some(s) => Some((stated_number(s, "width"), stated_number(s, "height"))),
                None => None,
            };
            let has_audio = find_stream(streams, "audio").is_some();
            assemble_probe(duration, video, has_audio)
        },
        None => Err(
            probe_error(ProbeErrorKind::NoVideoStream, "No streams found in video".to_string()),
        ),
    }
}

/// What the output of a full probe says of the file, where the tool ran
/// and reported success.
pub open spec fn probe_of_output(stdout: Seq<char>) -> Result<MediaProbe, ProbeErrorKind> {
    match json_parse(stdout) {
        Ok(doc) => probe_of(doc),
        Err(_) => Err(ProbeErrorKind::MalformedOutput),
    }
}

/// The message of a failed reading of a probe's output.
pub open spec fn probe_failure_text(stdout: Seq<char>) -> Seq<char> {
    match json_parse(stdout) {
        Ok(doc) => probe_message(streams_of(doc).is_some()),
        Err(m) => "Failed to parse ffprobe output: "@ + m,
    }
}

/// Reads the output of a full probe.
pub fn read_probe_output(stdout: &str) -> (r: Result<MediaProbe, ProbeError>)
    ensures
        match probe_of_output(stdout@) {
            Ok(p) => r == Ok::<MediaProbe, ProbeError>(p),
            Err(k) => r.is_err() && r.unwrap_err().kind == k && r.unwrap_err().message@
                == probe_failure_text(stdout@),
        },
{
    match parse_document(stdout) {
        Ok(doc) => probe_of_document(&doc),
        Err(m) => {
            let mut message = "Failed to parse ffprobe output: ".to_string();
            message.append(m.as_str());
            Err(probe_error(ProbeErrorKind::MalformedOutput, message))
        },
    }
}

/// The number of streams that the output of an audio probe lists: none
/// where it lists no streams at all. Output that is no JSON document has
/// no count, only the parser's complaint.
pub open spec fn audio_stream_count(stdout: Seq<char>) -> Result<nat, Seq<char>> {
    match json_parse(stdout) {
        Ok(doc) => Ok(
            match streams_of(doc) {
                Some(s) => s.len(),
                None => 0,
            },
        ),
        Err(m) => Err(m),
    }
}

/// Whether the output of an audio probe shows an audio stream. Output that
/// cannot be read shows none.
pub open spec fn shows_audio(stdout: Seq<char>) -> bool {
    match audio_stream_count(stdout) {
        Ok(n) => n > 0,
        Err(_) => false,
    }
}

/// The number of audio streams that the output of an audio probe lists.
pub fn count_audio_streams(stdout: &str) -> (r: Result<usize, ProbeError>)
    ensures
        match audio_stream_count(stdout@) {
            Ok(n) => r.is_ok() && r.unwrap() == n,
            Err(m) => r.is_err() && r.unwrap_err().kind == ProbeErrorKind::MalformedOutput
                && r.unwrap_err().message@ == "Failed to parse ffprobe output: "@ + m,
        },
{
    match parse_document(stdout) {
        Ok(doc) => {
            let listed: Option<&Vec<serde_json::Value>> = match member(&doc, "streams") {
                Some(s) => items(s),
                None => None,
            };
            match listed {
                Some(streams) => Ok(streams.len()),
                None => Ok(0),
            }
        },
        Err(m) => {
            let mut message = "Failed to parse ffprobe output: ".to_string();
            message.append(m.as_str());
            Err(probe_error(ProbeErrorKind::MalformedOutput, message))
        },
    }
}

/// Whether the output of an audio probe shows an audio stream.
pub fn has_audio_stream(stdout: &str) -> (r: bool)
    ensures
        r == shows_audio(stdout@),
{
    match count_audio_streams(stdout) {
        Ok(n) => n > 0,
        Err(_) => false,
    }
}

/// The length that the output of a length probe states: the trimmed output
/// read as seconds, or zero where it is no time.
pub open spec fn stated_length(stdout: Seq<char>) -> i64 {
    duration_from(Some(trim(stdout)))
}

/// Reads the output of a length probe.
pub fn read_length(stdout: &str) -> (ms: i64)
    ensures
        ms == stated_length(stdout@),
{
    let chars = chars_of(stdout);
    assert(chars@.subrange(0, chars@.len() as int) =~= stdout@);
    let t = trimmed(&chars, 0, chars.len());
    assert(t@.subrange(0, t@.len() as int) =~= t@);
    match read_seconds(&t, 0, t.len()) {
        Some(ms) => ms,
        None => 0,
    }
}

/// What a run of the prober says of the file: a prober that could not be
/// run is unavailable, one that reports failure has failed, and the output
/// of any other is read.
pub open spec fn probe_outcome(run: Result<ToolOutput, String>) -> Result<
    MediaProbe,
    ProbeErrorKind,
> {
    match run {
        Err(_) => Err(ProbeErrorKind::ToolUnavailable),
        Ok(out) => if out.success {
            probe_of_output(out.stdout@)
        } else {
            Err(ProbeErrorKind::ToolFailed)
        },
    }
}

/// The message of a probe that failed.
pub open spec fn probe_outcome_text(run: Result<ToolOutput, String>) -> Seq<char> {
    match run {
        Err(reason) => "Failed to run ffprobe. Make sure FFmpeg is installed. Error: "@ + reason@,
        Ok(out) => if out.success {
            probe_failure_text(out.stdout@)
        } else {
            "ffprobe failed to read video metadata: "@ + out.stderr@
        },
    }
}

/// Reads the result of a full probe from a run of the prober.
pub fn probe_video_metadata(run: &Result<ToolOutput, String>) -> (r: Result<MediaProbe, ProbeError>)
    ensures
        match probe_outcome(*run) {
            Ok(p) => r == Ok::<MediaProbe, ProbeError>(p),
            Err(k) => r.is_err() && r.unwrap_err().kind == k && r.unwrap_err().message@
                == probe_outcome_text(*run),
        },
{
    match run {
        Err(reason) => {
            let mut message =
                "Failed to run ffprobe. Make sure FFmpeg is installed. Error: ".to_string();
            message.append(reason.as_str());
            Err(probe_error(ProbeErrorKind::ToolUnavailable, message))
        },
        Ok(out) => {
            if out.success {
                read_probe_output(out.stdout.as_str())
            } else {
                let mut message = "ffprobe failed to read video metadata: ".to_string();
                message.append(out.stderr.as_str());
                Err(probe_error(ProbeErrorKind::ToolFailed, message))
            }
        },
    }
}

} // verus!

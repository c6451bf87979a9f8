//! Exporting clips: the direct encoding of a single clip, the lossless
//! concatenation of several, their temporary files, progress records and
//! the classification of the encoder's failures.

use vstd::prelude::*;
use vstd::string::StringExecFns;
use crate::clip::{seek_args, ClipSegment};
use crate::diagnostics::{error_lines, first_kept};
use crate::lines::{join, join_with, lines};
use crate::millis::seconds_string;
use crate::text::{chars_of, contains, decimal, includes, push_arg, push_decimal, push_owned};
use crate::tools::{join_path, joined};

verus! {

/// What the export of a single clip asks for.
#[derive(Debug)]
pub struct ExportOptions {
    pub input_path: String,
    pub output_path: String,
    pub trim_start: Option<i64>,
    pub trim_end: Option<i64>,
}

/// What the export of a timeline asks for: its clips in order and the
/// destination.
#[derive(Debug)]
pub struct MultiClipExportOptions {
    pub clips: Vec<ClipSegment>,
    pub output_path: String,
}

/// A progress notification of a multi-clip export.
#[derive(Debug)]
pub struct MergeProgress {
    pub current: usize,
    pub total: usize,
    pub status: String,
}

/// The view of a progress notification.
pub struct ProgressView {
    pub current: nat,
    pub total: nat,
    pub status: Seq<char>,
}

impl View for MergeProgress {
    type V = ProgressView;

    open spec fn view(&self) -> ProgressView {
        ProgressView {
            current: self.current as nat,
            total: self.total as nat,
            status: self.status@,
        }
    }
}

/// Why an export failed.
#[derive(Clone, Copy, Debug, PartialEq, Eq, Structural)]
pub enum ExportErrorKind {
    /// The job holds no clip.
    NoClips,
    /// The source of a single-clip export does not exist.
    InputMissing,
    /// A tool could not be run.
    ToolUnavailable,
    /// The encoder could not reconcile audio and video timing.
    SyncIssue,
    /// The encoder did not find a clip's source.
    SourceNotFound,
    /// A clip's source is corrupt or of an unsupported format.
    CorruptInput,
    /// The encoder was denied access.
    PermissionDenied,
    /// The encoder failed for another reason.
    EncodingFailure,
    /// The manifest could not be written.
    ManifestFailure,
    /// The concatenation failed.
    ConcatFailure,
}

/// A failed export: its kind and the message for the user.
#[derive(Debug)]
pub struct ExportError {
    pub kind: ExportErrorKind,
    pub message: String,
}

/// Makes an export error.
pub fn export_error(kind: ExportErrorKind, message: String) -> (e: ExportError)
    ensures
        e.kind == kind,
        e.message@ == message@,
{
    ExportError { kind, message }
}

// ---------------------------------------------------------------------------
// Argument lists
// ---------------------------------------------------------------------------

/// The trim of a single-clip export: applied where both bounds are given.
pub open spec fn export_seek_args(start: Option<i64>, end: Option<i64>) -> Seq<Seq<char>> {
    if start is Some && end is Some {
        seek_args(start.unwrap(), end.unwrap())
    } else {
        Seq::empty()
    }
}

/// The audio encoding of a single-clip export whose source has audio.
pub open spec fn export_audio_args(has_audio: bool) -> Seq<Seq<char>> {
    if has_audio {
        seq!["-c:a"@, "aac"@, "-b:a"@, "128k"@]
    } else {
        Seq::empty()
    }
}

/// The encoder's argument list for the export of a single source: the
/// input, a plain trim, the encoding, the destination. It holds no filter
/// graph and maps no named output: the source's own streams are encoded.
pub open spec fn direct_args(
    input: Seq<char>,
    output: Seq<char>,
    start: Option<i64>,
    end: Option<i64>,
    has_audio: bool,
) -> Seq<Seq<char>> {
    seq!["-i"@, input] + export_seek_args(start, end) + seq![
        "-c:v"@,
        "libx264"@,
        "-preset"@,
        "fast"@,
        "-crf"@,
        "23"@,
    ] + export_audio_args(has_audio) + seq!["-y"@, output]
}

/// The encoder's argument list for the export of a single clip.
pub open spec fn export_args(o: ExportOptions, has_audio: bool) -> Seq<Seq<char>> {
    direct_args(o.input_path@, o.output_path@, o.trim_start, o.trim_end, has_audio)
}

/// The encoder's argument list for the export of a single source.
pub fn direct_arguments(
    input: &str,
    output: &str,
    start: Option<i64>,
    end: Option<i64>,
    has_audio: bool,
) -> (v: Vec<String>)
    ensures
        v.deep_view() == direct_args(input@, output@, start, end, has_audio),
{
    let mut v: Vec<String> = Vec::new();
    push_arg(&mut v, "-i");
    push_arg(&mut v, input);
    match start {
        Some(s) => match end {
            Some(e) => {
                push_arg(&mut v, "-ss");
                push_owned(&mut v, seconds_string(s as i128));
                push_arg(&mut v, "-t");
                push_owned(&mut v, seconds_string(e as i128 - s as i128));
            },
            None => {},
        },
        None => {},
    }
    assert(v.deep_view() =~= seq!["-i"@, input@] + export_seek_args(start, end));
    let ghost head = v.deep_view();
    push_arg(&mut v, "-c:v");
    push_arg(&mut v, "libx264");
    push_arg(&mut v, "-preset");
    push_arg(&mut v, "fast");
    push_arg(&mut v, "-crf");
    push_arg(&mut v, "23");
    if has_audio {
        push_arg(&mut v, "-c:a");
        push_arg(&mut v, "aac");
        push_arg(&mut v, "-b:a");
        push_arg(&mut v, "128k");
    }
    push_arg(&mut v, "-y");
    push_arg(&mut v, output);
    assert(v.deep_view() =~= head + seq![
        "-c:v"@,
        "libx264"@,
        "-preset"@,
        "fast"@,
        "-crf"@,
        "23"@,
    ] + export_audio_args(has_audio) + seq!["-y"@, output@]);
    v
}

/// The encoder's argument list for the export of a single clip.
pub fn export_arguments(o: &ExportOptions, has_audio: bool) -> (v: Vec<String>)
    ensures
        v.deep_view() == export_args(*o, has_audio),
{
    direct_arguments(
        o.input_path.as_str(),
        o.output_path.as_str(),
        o.trim_start,
        o.trim_end,
        has_audio,
    )
}

/// The encoder's argument list for a concatenation by stream copy of the
/// files that a manifest lists.
pub open spec fn concat_args(manifest: Seq<char>, output: Seq<char>) -> Seq<Seq<char>> {
    seq!["-f"@, "concat"@, "-safe"@, "0"@, "-i"@, manifest, "-c"@, "copy"@, "-y"@, output]
}

/// The encoder's argument list for a concatenation.
pub fn concat_arguments(manifest: &str, output: &str) -> (v: Vec<String>)
    ensures
        v.deep_view() == concat_args(manifest@, output@),
{
    let mut v: Vec<String> = Vec::new();
    push_arg(&mut v, "-f");
    push_arg(&mut v, "concat");
    push_arg(&mut v, "-safe");
    push_arg(&mut v, "0");
    push_arg(&mut v, "-i");
    push_arg(&mut v, manifest);
    push_arg(&mut v, "-c");
    push_arg(&mut v, "copy");
    push_arg(&mut v, "-y");
    push_arg(&mut v, output);
    assert(v.deep_view() =~= concat_args(manifest@, output@));
    v
}

// ---------------------------------------------------------------------------
// Temporary files
// ---------------------------------------------------------------------------

/// The name of the temporary file of clip `i`, counted from zero.
pub open spec fn temp_name(i: nat) -> Seq<char> {
    "clipforge_temp_"@ + decimal(i) + ".mp4"@
}

/// The path of the temporary file of clip `i` below `dir`.
pub open spec fn temp_path(dir: Seq<char>, i: nat) -> Seq<char> {
    joined(dir, temp_name(i))
}

/// The paths of the temporary files of the first `n` clips, in order.
pub open spec fn temp_paths(dir: Seq<char>, n: nat) -> Seq<Seq<char>> {
    Seq::new(n, |i: int| temp_path(dir, i as nat))
}

/// The path of the manifest below `dir`.
pub open spec fn manifest_path(dir: Seq<char>) -> Seq<char> {
    joined(dir, "clipforge_concat.txt"@)
}

/// The manifest that lists `paths` in order, one line for each.
pub open spec fn manifest_text(paths: Seq<Seq<char>>) -> Seq<char>
    decreases paths.len(),
{
    if paths.len() == 0 {
        Seq::empty()
    } else {
        manifest_text(paths.drop_last()) + "file '"@ + paths.last() + "'\n"@
    }
}

/// The path of the temporary file of clip `i` below `dir`.
pub fn temp_clip_path(dir: &str, i: usize) -> (p: String)
    ensures
        p@ == temp_path(dir@, i as nat),
{
    let mut name = "clipforge_temp_".to_string();
    push_decimal(&mut name, i as u128);
    name.append(".mp4");
    join_path(dir, name.as_str())
}

/// The paths of the temporary files of the first `n` clips below `dir`.
pub fn temp_clip_paths(dir: &str, n: usize) -> (v: Vec<String>)
    ensures
        v.deep_view() == temp_paths(dir@, n as nat),
{
    let mut v: Vec<String> = Vec::new();
    let mut i: usize = 0;
    assert(v.deep_view() =~= temp_paths(dir@, 0));
    while i < n
        invariant
            i <= n,
            v.deep_view() == temp_paths(dir@, i as nat),
        decreases n - i,
    {
        push_owned(&mut v, temp_clip_path(dir, i));
        i += 1;
        assert(v.deep_view() =~= temp_paths(dir@, i as nat));
    }
    v
}

/// The path of the manifest below `dir`.
pub fn manifest_file_path(dir: &str) -> (p: String)
    ensures
        p@ == manifest_path(dir@),
{
    join_path(dir, "clipforge_concat.txt")
}

/// The manifest that lists `paths` in order.
pub fn concat_manifest(paths: &Vec<String>) -> (s: String)
    ensures
        s@ == manifest_text(paths.deep_view()),
{
    let mut s = String::new();
    let mut i: usize = 0;
    let ghost all = paths.deep_view();
    assert(all.take(0).len() == 0);
    while i < paths.len()
        invariant
            i <= paths.len(),
            all == paths.deep_view(),
            s@ == manifest_text(all.take(i as int)),
        decreases paths.len() - i,
    {
        proof {
            assert(all.take(i + 1).drop_last() =~= all.take(i as int));
            assert(all.take(i + 1).last() == paths[i as int]@);
        }
        s.append("file '");
        s.append(paths[i].as_str());
        s.append("'\n");
        i += 1;
    }
    assert(all.take(paths.len() as int) =~= all);
    s
}

// ---------------------------------------------------------------------------
// Progress
// ---------------------------------------------------------------------------

/// The notification that a merge of `total` clips begins.
pub open spec fn starting_view(total: nat) -> ProgressView {
    ProgressView { current: 0, total, status: "Starting merge..."@ }
}

/// The notification that clip `number`, counted from one, is in work.
pub open spec fn processing_view(number: nat, total: nat) -> ProgressView {
    ProgressView {
        current: number,
        total,
        status: "Processing clip "@ + decimal(number) + " of "@ + decimal(total) + "..."@,
    }
}

/// The notification that the concatenation begins.
pub open spec fn merging_view(total: nat) -> ProgressView {
    ProgressView { current: total, total, status: "Merging clips together..."@ }
}

/// The notification that a merge of `total` clips begins.
pub fn starting_progress(total: usize) -> (p: MergeProgress)
    ensures
        p@ == starting_view(total as nat),
{
    MergeProgress { current: 0, total, status: "Starting merge...".to_string() }
}

/// The notification that clip `number`, counted from one, is in work.
pub fn processing_progress(number: usize, total: usize) -> (p: MergeProgress)
    ensures
        p@ == processing_view(number as nat, total as nat),
{
    let mut status = "Processing clip ".to_string();
    push_decimal(&mut status, number as u128);
    status.append(" of ");
    push_decimal(&mut status, total as u128);
    status.append("...");
    MergeProgress { current: number, total, status }
}

/// The notification that the concatenation begins.
pub fn merging_progress(total: usize) -> (p: MergeProgress)
    ensures
        p@ == merging_view(total as nat),
{
    MergeProgress { current: total, total, status: "Merging clips together...".to_string() }
}

// ---------------------------------------------------------------------------
// Failures of the encoder on a clip
// ---------------------------------------------------------------------------

/// The kind of failure that the encoder's diagnostics on a clip show.
pub open spec fn clip_failure_kind(d: Seq<char>) -> ExportErrorKind {
    if contains(d, "Could not open encoder before EOF"@) || contains(d, "Invalid argument"@) {
        ExportErrorKind::SyncIssue
    } else if contains(d, "No such file or directory"@) {
        ExportErrorKind::SourceNotFound
    } else if contains(d, "Invalid data found"@) {
        ExportErrorKind::CorruptInput
    } else if contains(d, "Permission denied"@) {
        ExportErrorKind::PermissionDenied
    } else {
        ExportErrorKind::EncodingFailure
    }
}

/// The message for a failure of the encoder on clip `number`, counted from
/// one. A failure of no known kind quotes the first three lines of the
/// diagnostics that tell of an error.
pub open spec fn clip_failure_text(number: nat, d: Seq<char>) -> Seq<char> {
    match clip_failure_kind(d) {
        ExportErrorKind::SyncIssue => "Failed to process clip "@ + decimal(number)
            + " due to audio/video sync issues. This can happen with very short clips or corrupted files. Try adjusting the clip boundaries slightly."@,
        ExportErrorKind::SourceNotFound => "Clip "@ + decimal(number)
            + " file not found. The source video may have been moved or deleted."@,
        ExportErrorKind::CorruptInput => "Clip "@ + decimal(number)
            + " appears to be corrupted or in an unsupported format."@,
        ExportErrorKind::PermissionDenied => "Permission denied while processing clip "@ + decimal(
            number,
        ) + ". Check file permissions."@,
        _ => if first_kept(lines(d), 3).len() > 0 {
            "Failed to process clip "@ + decimal(number) + ": "@ + join(
                first_kept(lines(d), 3),
                "; "@,
            )
        } else {
            "Failed to process clip "@ + decimal(number) + ". Check the logs for details."@
        },
    }
}

/// The error for a failure of the encoder on clip `number`, counted from
/// one, with the given diagnostics.
pub fn classify_clip_failure(number: usize, diagnostics: &str) -> (e: ExportError)
    ensures
        e.kind == clip_failure_kind(diagnostics@),
        e.message@ == clip_failure_text(number as nat, diagnostics@),
{
    let d = chars_of(diagnostics);
    if includes(&d, "Could not open encoder before EOF") || includes(&d, "Invalid argument") {
        let mut m = "Failed to process clip ".to_string();
        push_decimal(&mut m, number as u128);
        m.append(
            " due to audio/video sync issues. This can happen with very short clips or corrupted files. Try adjusting the clip boundaries slightly.",
        );
        return export_error(ExportErrorKind::SyncIssue, m);
    }
    if includes(&d, "No such file or directory") {
        let mut m = "Clip ".to_string();
        push_decimal(&mut m, number as u128);
        m.append(" file not found. The source video may have been moved or deleted.");
        return export_error(ExportErrorKind::SourceNotFound, m);
    }
    if includes(&d, "Invalid data found") {
        let mut m = "Clip ".to_string();
        push_decimal(&mut m, number as u128);
        m.append(" appears to be corrupted or in an unsupported format.");
        return export_error(ExportErrorKind::CorruptInput, m);
    }
    if includes(&d, "Permission denied") {
        let mut m = "Permission denied while processing clip ".to_string();
        push_decimal(&mut m, number as u128);
        m.append(". Check file permissions.");
        return export_error(ExportErrorKind::PermissionDenied, m);
    }
    let quoted = error_lines(&d, 3);
    let mut m = "Failed to process clip ".to_string();
    push_decimal(&mut m, number as u128);
    if quoted.len() > 0 {
        m.append(": ");
        let joined_lines = join_with(&quoted, "; ");
        m.append(joined_lines.as_str());
    } else {
        m.append(". Check the logs for details.");
    }
    export_error(ExportErrorKind::EncodingFailure, m)
}

} // verus!

//! An export job as a state machine. The job decides; its caller carries
//! out what the job requests (a check, a run of a tool, a file to write)
//! and hands back what came of it.

use vstd::prelude::*;
use vstd::string::StringExecFns;
use crate::clip::{clip_args, clip_arguments, is_trimmed, needs_measuring, ClipSegment};
use crate::export::{
    classify_clip_failure, clip_failure_kind, clip_failure_text, concat_args, concat_arguments,
    concat_manifest, direct_args, direct_arguments, export_error, manifest_file_path,
    manifest_path, manifest_text, merging_progress, merging_view, processing_progress,
    processing_view, starting_progress, starting_view, temp_clip_path, temp_clip_paths, temp_path,
    temp_paths, ExportError, ExportErrorKind, MergeProgress, MultiClipExportOptions, ProgressView,
};
use crate::probe::{
    audio_probe_args, audio_probe_arguments, has_audio_stream, length_probe_args,
    length_probe_arguments, read_length, shows_audio, stated_length,
};
use crate::text::{decimal, push_decimal, push_owned};
use crate::tools::ToolOutput;

verus! {

/// Where an export job stands.
#[derive(Clone, Copy, Debug, PartialEq, Eq, Structural)]
pub enum Stage {
    /// Waiting to learn whether the single clip's source exists.
    CheckingInput,
    /// Waiting for the audio probe of the clip in work.
    ProbingAudio,
    /// Waiting for the length probe of the clip in work.
    Measuring,
    /// Waiting for the encoder on the clip in work.
    Encoding,
    /// Waiting for the manifest to be written.
    WritingManifest,
    /// Waiting for the concatenation.
    Merging,
    /// Done, with a verdict.
    Finished,
}

/// What came of a request.
#[derive(Debug)]
pub enum Outcome {
    /// Whether the file exists.
    Exists(bool),
    /// What the tool reported, or why it could not be run.
    Ran(Result<ToolOutput, String>),
    /// The manifest is written.
    Written,
    /// The manifest could not be written; `created` tells whether the file
    /// was at least created.
    WriteFailed { created: bool, reason: String },
}

/// What a job asks its caller to do next.
#[derive(Debug)]
pub enum Request {
    /// Tell whether the file exists.
    CheckInput { path: String },
    /// Run the prober with these arguments.
    Probe { arguments: Vec<String> },
    /// Run the encoder with these arguments.
    Encode { arguments: Vec<String> },
    /// Write the manifest.
    WriteManifest { path: String, content: String },
    /// Return the verdict; nothing is left to do.
    Finish { result: Result<String, ExportError> },
}

/// The view of a request.
pub enum RequestView {
    CheckInput { path: Seq<char> },
    Probe { arguments: Seq<Seq<char>> },
    Encode { arguments: Seq<Seq<char>> },
    WriteManifest { path: Seq<char>, content: Seq<char> },
    Finish { result: Result<Seq<char>, (ExportErrorKind, Seq<char>)> },
}

impl View for Request {
    type V = RequestView;

    open spec fn view(&self) -> RequestView {
        match *self {
            Request::CheckInput { path } => RequestView::CheckInput { path: path@ },
            Request::Probe { arguments } => RequestView::Probe {
                arguments: arguments.deep_view(),
            },
            Request::Encode { arguments } => RequestView::Encode {
                arguments: arguments.deep_view(),
            },
            Request::WriteManifest { path, content } => RequestView::WriteManifest {
                path: path@,
                content: content@,
            },
            Request::Finish { result } => RequestView::Finish {
                result: match result {
                    Ok(p) => Ok(p@),
                    Err(e) => Err((e.kind, e.message@)),
                },
            },
        }
    }
}

/// What a job hands its caller after each outcome.
#[derive(Debug)]
pub struct Step {
    /// Notifications to emit, in order.
    pub progress: Vec<MergeProgress>,
    /// Files to delete, whether or not they exist.
    pub remove: Vec<String>,
    /// What to do next.
    pub request: Request,
}

/// The views of a list of notifications.
pub open spec fn progress_views(v: Seq<MergeProgress>) -> Seq<ProgressView> {
    Seq::new(v.len(), |i: int| v[i]@)
}

/// The state of an export job.
pub struct JobView {
    pub clips: Seq<ClipSegment>,
    pub output_path: Seq<char>,
    pub temp_dir: Seq<char>,
    pub stage: Stage,
    /// The clip in work, counted from zero.
    pub index: nat,
    /// Whether the source of the clip in work has audio, once probed.
    pub has_audio: bool,
    /// The length of the source of the clip in work, once measured.
    pub measured: i64,
    /// The verdict, once finished.
    pub verdict: Option<Result<Seq<char>, (ExportErrorKind, Seq<char>)>>,
}

/// Whether the job holds a single clip, which is encoded directly to the
/// destination.
pub open spec fn is_single(j: JobView) -> bool {
    j.clips.len() == 1
}

/// What a job's state always obeys: a job that is not finished works on one
/// of its clips and has no verdict; only a single-clip job checks its
/// input, and only a multi-clip job measures, writes a manifest and merges.
pub open spec fn well_formed(j: JobView) -> bool {
    &&& (j.stage == Stage::Finished) == j.verdict.is_some()
    &&& j.stage != Stage::Finished ==> j.index < j.clips.len()
    &&& j.stage == Stage::CheckingInput ==> is_single(j)
    &&& (j.stage == Stage::Measuring || j.stage == Stage::WritingManifest || j.stage
        == Stage::Merging) ==> !is_single(j)
    &&& is_single(j) ==> j.index == 0
}

/// The job in the state `stage`, otherwise as `j`.
pub open spec fn at_stage(j: JobView, stage: Stage) -> JobView {
    JobView { stage, ..j }
}

/// The job finished with `verdict`, otherwise as `j`.
pub open spec fn finished(
    j: JobView,
    verdict: Result<Seq<char>, (ExportErrorKind, Seq<char>)>,
) -> JobView {
    JobView { stage: Stage::Finished, verdict: Some(verdict), ..j }
}

/// The state of a fresh job. A job without clips is finished at once; a
/// single clip has its input checked first; several clips are probed and
/// encoded one by one, from the first.
pub open spec fn initial(clips: Seq<ClipSegment>, output_path: Seq<char>, temp_dir: Seq<char>) -> JobView {
    let j = JobView {
        clips,
        output_path,
        temp_dir,
        stage: Stage::ProbingAudio,
        index: 0,
        has_audio: false,
        measured: 0,
        verdict: None,
    };
    if clips.len() == 0 {
        finished(j, Err((ExportErrorKind::NoClips, "No clips to export"@)))
    } else if clips.len() == 1 {
        at_stage(j, Stage::CheckingInput)
    } else {
        j
    }
}

/// The notifications of a fresh job: a multi-clip job announces the merge
/// and its first clip; other jobs announce nothing.
pub open spec fn initial_progress(clips: Seq<ClipSegment>) -> Seq<ProgressView> {
    if clips.len() >= 2 {
        seq![starting_view(clips.len()), processing_view(1, clips.len())]
    } else {
        Seq::empty()
    }
}

/// Whether an outcome answers what the job is waiting for.
pub open spec fn answers(j: JobView, o: Outcome) -> bool {
    match j.stage {
        Stage::CheckingInput => o is Exists,
        Stage::ProbingAudio | Stage::Measuring | Stage::Encoding | Stage::Merging => o is Ran,
        Stage::WritingManifest => o is Written || o is WriteFailed,
        Stage::Finished => false,
    }
}

/// The message for a prober that could not be run.
pub open spec fn probe_unavailable_text(j: JobView, reason: Seq<char>) -> Seq<char> {
    if is_single(j) {
        "Failed to probe input: "@ + reason
    } else {
        "Failed to probe clip "@ + decimal(j.index) + ": "@ + reason
    }
}

/// The message for an encoder that could not be run on a clip.
pub open spec fn encoder_unavailable_text(j: JobView, reason: Seq<char>) -> Seq<char> {
    if is_single(j) {
        "Failed to execute FFmpeg. Make sure FFmpeg is installed. Error: "@ + reason
    } else {
        "Failed to execute FFmpeg for clip "@ + decimal(j.index) + ": "@ + reason
    }
}

/// The failure that an outcome means for the job, if it means one.
pub open spec fn failure_of(j: JobView, o: Outcome) -> Option<(ExportErrorKind, Seq<char>)> {
    match (j.stage, o) {
        (Stage::CheckingInput, Outcome::Exists(false)) => Some(
            (ExportErrorKind::InputMissing, "Input file does not exist"@),
        ),
        (Stage::ProbingAudio, Outcome::Ran(Err(reason))) => Some(
            (ExportErrorKind::ToolUnavailable, probe_unavailable_text(j, reason@)),
        ),
        (Stage::Measuring, Outcome::Ran(Err(reason))) => Some(
            (ExportErrorKind::ToolUnavailable, probe_unavailable_text(j, reason@)),
        ),
        (Stage::Encoding, Outcome::Ran(Err(reason))) => Some(
            (ExportErrorKind::ToolUnavailable, encoder_unavailable_text(j, reason@)),
        ),
        (Stage::Encoding, Outcome::Ran(Ok(out))) => if out.success {
            None
        } else if is_single(j) {
            Some((ExportErrorKind::EncodingFailure, "FFmpeg export failed: "@ + out.stderr@))
        } else {
            Some((clip_failure_kind(out.stderr@), clip_failure_text(j.index + 1, out.stderr@)))
        },
        (Stage::WritingManifest, Outcome::WriteFailed { created, reason }) => Some(
            (
                ExportErrorKind::ManifestFailure,
                if created {
                    "Failed to write to concat file: "@ + reason@
                } else {
                    "Failed to create concat file: "@ + reason@
                },
            ),
        ),
        (Stage::Merging, Outcome::Ran(Err(reason))) => Some(
            (ExportErrorKind::ToolUnavailable, "Failed to execute FFmpeg concat: "@ + reason@),
        ),
        (Stage::Merging, Outcome::Ran(Ok(out))) => if out.success {
            None
        } else {
            Some((ExportErrorKind::ConcatFailure, "FFmpeg concat failed: "@ + out.stderr@))
        },
        _ => None,
    }
}

/// The state after an outcome that means no failure.
pub open spec fn proceed(j: JobView, o: Outcome) -> JobView {
    match (j.stage, o) {
        (Stage::CheckingInput, _) => at_stage(j, Stage::ProbingAudio),
        (Stage::ProbingAudio, Outcome::Ran(Ok(out))) => JobView {
            has_audio: shows_audio(out.stdout@),
            stage: if !is_single(j) && !is_trimmed(j.clips[j.index as int]) {
                Stage::Measuring
            } else {
                Stage::Encoding
            },
            ..j
        },
        (Stage::Measuring, Outcome::Ran(Ok(out))) => JobView {
            measured: stated_length(out.stdout@),
            stage: Stage::Encoding,
            ..j
        },
        (Stage::Encoding, _) => if is_single(j) {
            finished(j, Ok(j.output_path))
        } else if j.index + 1 < j.clips.len() {
            JobView {
                index: j.index + 1,
                has_audio: false,
                measured: 0,
                stage: Stage::ProbingAudio,
                ..j
            }
        } else {
            at_stage(j, Stage::WritingManifest)
        },
        (Stage::WritingManifest, _) => at_stage(j, Stage::Merging),
        (Stage::Merging, _) => finished(j, Ok(j.output_path)),
        _ => j,
    }
}

/// The state after an outcome. An outcome that does not answer what the job
/// is waiting for changes nothing; one that means a failure finishes the
/// job with it.
pub open spec fn next(j: JobView, o: Outcome) -> JobView {
    if !answers(j, o) {
        j
    } else {
        match failure_of(j, o) {
            Some(f) => finished(j, Err(f)),
            None => proceed(j, o),
        }
    }
}

/// The temporary files that the job may have left on disk: those of the
/// clips encoded so far, that of the clip being encoded, and the manifest
/// once it is due. A single-clip job leaves none.
pub open spec fn artifacts(j: JobView) -> Seq<Seq<char>> {
    if is_single(j) {
        Seq::empty()
    } else {
        match j.stage {
            Stage::ProbingAudio | Stage::Measuring => temp_paths(j.temp_dir, j.index),
            Stage::Encoding => temp_paths(j.temp_dir, j.index + 1),
            Stage::WritingManifest | Stage::Merging => temp_paths(j.temp_dir, j.clips.len()).push(
                manifest_path(j.temp_dir),
            ),
            _ => Seq::empty(),
        }
    }
}

/// The files to delete after an outcome: all the job's temporary files
/// when the outcome means a failure, and when the concatenation has run,
/// whatever came of it.
pub open spec fn removals(j: JobView, o: Outcome) -> Seq<Seq<char>> {
    if answers(j, o) && (failure_of(j, o).is_some() || j.stage == Stage::Merging) {
        artifacts(j)
    } else {
        Seq::empty()
    }
}

/// The notifications to emit after an outcome: a multi-clip job announces
/// each further clip as its work begins, and the concatenation once the
/// manifest is written.
pub open spec fn progress_of(j: JobView, o: Outcome) -> Seq<ProgressView> {
    if answers(j, o) && failure_of(j, o).is_none() && !is_single(j) {
        match j.stage {
            Stage::Encoding => if j.index + 1 < j.clips.len() {
                seq![processing_view(j.index + 2, j.clips.len())]
            } else {
                Seq::empty()
            },
            Stage::WritingManifest => seq![merging_view(j.clips.len())],
            _ => Seq::empty(),
        }
    } else {
        Seq::empty()
    }
}

/// What the job in a state asks its caller to do.
pub open spec fn pending(j: JobView) -> RequestView {
    match j.stage {
        Stage::CheckingInput => RequestView::CheckInput { path: j.clips[0].input_path@ },
        Stage::ProbingAudio => RequestView::Probe {
            arguments: audio_probe_args(j.clips[j.index as int].input_path@),
        },
        Stage::Measuring => RequestView::Probe {
            arguments: length_probe_args(j.clips[j.index as int].input_path@),
        },
        Stage::Encoding => if is_single(j) {
            RequestView::Encode {
                arguments: direct_args(
                    j.clips[0].input_path@,
                    j.output_path,
                    j.clips[0].trim_start,
                    j.clips[0].trim_end,
                    j.has_audio,
                ),
            }
        } else {
            RequestView::Encode {
                arguments: clip_args(
                    j.clips[j.index as int],
                    j.has_audio,
                    j.measured,
                    temp_path(j.temp_dir, j.index),
                ),
            }
        },
        Stage::WritingManifest => RequestView::WriteManifest {
            path: manifest_path(j.temp_dir),
            content: manifest_text(temp_paths(j.temp_dir, j.clips.len())),
        },
        Stage::Merging => RequestView::Encode {
            arguments: concat_args(manifest_path(j.temp_dir), j.output_path),
        },
        Stage::Finished => RequestView::Finish {
            result: match j.verdict {
                Some(v) => v,
                None => Ok(j.output_path),
            },
        },
    }
}

/// Whenever an outcome finishes a job, whether in failure or in success,
/// every temporary file that the job may have left is among the files to
/// delete: no terminal state is reached with an artifact left behind.
pub proof fn lemma_finish_cleans_up(j: JobView, o: Outcome)
    requires
        well_formed(j),
        j.stage != Stage::Finished,
        next(j, o).stage == Stage::Finished,
    ensures
        removals(j, o) == artifacts(j),
{
}

/// The failure of the encoder on a clip of several finishes the job with an
/// error that names the clip, counted from one, and orders the deletion of
/// the temporary files of every clip up to it.
pub proof fn lemma_clip_failure_names_clip(j: JobView, out: ToolOutput)
    requires
        well_formed(j),
        !is_single(j),
        j.stage == Stage::Encoding,
        !out.success,
    ensures
        next(j, Outcome::Ran(Ok(out))).verdict == Some(
            Err::<Seq<char>, (ExportErrorKind, Seq<char>)>(
                (clip_failure_kind(out.stderr@), clip_failure_text(j.index + 1, out.stderr@)),
            ),
        ),
        removals(j, Outcome::Ran(Ok(out))) == temp_paths(j.temp_dir, j.index + 1),
{
}

/// A single-clip job never asks for a filter graph, temporary files or a
/// manifest: all it has encoded is its source, directly to the
/// destination.
pub proof fn lemma_single_clip_is_direct(j: JobView, o: Outcome)
    requires
        well_formed(j),
        is_single(j),
    ensures
        well_formed(next(j, o)),
        is_single(next(j, o)),
        artifacts(j).len() == 0,
        removals(j, o).len() == 0,
        progress_of(j, o).len() == 0,
        j.stage == Stage::Encoding ==> pending(j) == (RequestView::Encode {
            arguments: direct_args(
                j.clips[0].input_path@,
                j.output_path,
                j.clips[0].trim_start,
                j.clips[0].trim_end,
                j.has_audio,
            ),
        }),
        !(pending(j) is WriteManifest),
{
}

/// The number of answers that a job can still take in before it is
/// finished, at most.
pub open spec fn steps_left(j: JobView) -> nat {
    let after: nat = if j.index < j.clips.len() {
        (3 * (j.clips.len() - 1 - j.index)) as nat
    } else {
        0
    };
    match j.stage {
        Stage::Finished => 0,
        Stage::Merging => 1,
        Stage::WritingManifest => 2,
        Stage::Encoding => 3 + after,
        Stage::Measuring => 4 + after,
        Stage::ProbingAudio => 5 + after,
        Stage::CheckingInput => 6 + after,
    }
}

/// Every outcome that answers a job's request brings the job nearer to its
/// end: an export runs to completion or to failure in a number of steps
/// that its clips bound.
pub proof fn lemma_answers_bring_the_end_nearer(j: JobView, o: Outcome)
    requires
        well_formed(j),
        answers(j, o),
    ensures
        steps_left(next(j, o)) < steps_left(j),
        steps_left(j) <= 3 * j.clips.len() + 5,
{
}

/// Every outcome leaves a well-formed job well formed.
pub proof fn lemma_next_is_well_formed(j: JobView, o: Outcome)
    requires
        well_formed(j),
    ensures
        well_formed(next(j, o)),
{
}

/// An export job: its clips, its destination and where it stands.
pub struct ExportJob {
    clips: Vec<ClipSegment>,
    output_path: String,
    temp_dir: String,
    stage: Stage,
    index: usize,
    has_audio: bool,
    measured: i64,
    failure: Option<ExportError>,
}

impl View for ExportJob {
    type V = JobView;

    closed spec fn view(&self) -> JobView {
        JobView {
            clips: self.clips@,
            output_path: self.output_path@,
            temp_dir: self.temp_dir@,
            stage: self.stage,
            index: self.index as nat,
            has_audio: self.has_audio,
            measured: self.measured,
            verdict: if self.stage == Stage::Finished {
                Some(
                    match self.failure {
                        Some(e) => Err((e.kind, e.message@)),
                        None => Ok(self.output_path@),
                    },
                )
            } else {
                None
            },
        }
    }
}

fn no_progress() -> (v: Vec<MergeProgress>)
    ensures
        progress_views(v@) == Seq::<ProgressView>::empty(),
{
    let v: Vec<MergeProgress> = Vec::new();
    assert(progress_views(v@) =~= Seq::<ProgressView>::empty());
    v
}

fn push_progress(v: &mut Vec<MergeProgress>, p: MergeProgress)
    ensures
        progress_views(final(v)@) == progress_views(old(v)@).push(p@),
{
    v.push(p);
    assert(progress_views(v@) =~= progress_views(old(v)@).push(p@));
}

fn no_files() -> (v: Vec<String>)
    ensures
        v.deep_view() == Seq::<Seq<char>>::empty(),
{
    let v: Vec<String> = Vec::new();
    assert(v.deep_view() =~= Seq::<Seq<char>>::empty());
    v
}

impl ExportJob {
    #[verifier::type_invariant]
    spec fn holds_together(self) -> bool {
        well_formed(self@)
    }

    /// A job for the given clips and destination, whose temporary files go
    /// below `temp_dir`, with the first step to take.
    pub fn new(options: MultiClipExportOptions, temp_dir: &str) -> (r: (ExportJob, Step))
        ensures
            r.0@ == initial(options.clips@, options.output_path@, temp_dir@),
            well_formed(r.0@),
            progress_views(r.1.progress@) == initial_progress(options.clips@),
            r.1.remove.deep_view() == Seq::<Seq<char>>::empty(),
            r.1.request@ == pending(r.0@),
    {
        let n = options.clips.len();
        let mut progress = no_progress();
        let job = if n == 0 {
            ExportJob {
                clips: options.clips,
                output_path: options.output_path,
                temp_dir: temp_dir.to_string(),
                stage: Stage::Finished,
                index: 0,
                has_audio: false,
                measured: 0,
                failure: Some(
                    export_error(ExportErrorKind::NoClips, "No clips to export".to_string()),
                ),
            }
        } else {
            ExportJob {
                clips: options.clips,
                output_path: options.output_path,
                temp_dir: temp_dir.to_string(),
                stage: if n == 1 {
                    Stage::CheckingInput
                } else {
                    Stage::ProbingAudio
                },
                index: 0,
                has_audio: false,
                measured: 0,
                failure: None,
            }
        };
        if n >= 2 {
            push_progress(&mut progress, starting_progress(n));
            push_progress(&mut progress, processing_progress(1, n));
            assert(progress_views(progress@) =~= initial_progress(job.clips@));
        }
        let request = job.pending_request();
        (job, Step { progress, remove: no_files(), request })
    }

    /// Where the job stands.
    pub fn stage(&self) -> (s: Stage)
        ensures
            s == self@.stage,
    {
        self.stage
    }

    /// Whether the job is done.
    pub fn is_finished(&self) -> (r: bool)
        ensures
            r == (self@.stage == Stage::Finished),
    {
        self.stage == Stage::Finished
    }

    /// What the job asks its caller to do.
    pub fn pending_request(&self) -> (r: Request)
        ensures
            r@ == pending(self@),
            well_formed(self@),
    {
        proof {
            use_type_invariant(self);
        }
        match self.stage {
            Stage::CheckingInput => Request::CheckInput {
                path: self.clips[0].input_path.clone(),
            },
            Stage::ProbingAudio => Request::Probe {
                arguments: audio_probe_arguments(self.clips[self.index].input_path.as_str()),
            },
            Stage::Measuring => Request::Probe {
                arguments: length_probe_arguments(self.clips[self.index].input_path.as_str()),
            },
            Stage::Encoding => {
                if self.clips.len() == 1 {
                    let clip = &self.clips[0];
                    Request::Encode {
                        arguments: direct_arguments(
                            clip.input_path.as_str(),
                            self.output_path.as_str(),
                            clip.trim_start,
                            clip.trim_end,
                            self.has_audio,
                        ),
                    }
                } else {
                    let target = temp_clip_path(self.temp_dir.as_str(), self.index);
                    Request::Encode {
                        arguments: clip_arguments(
                            &self.clips[self.index],
                            self.has_audio,
                            self.measured,
                            target.as_str(),
                        ),
                    }
                }
            },
            Stage::WritingManifest => {
                let paths = temp_clip_paths(self.temp_dir.as_str(), self.clips.len());
                Request::WriteManifest {
                    path: manifest_file_path(self.temp_dir.as_str()),
                    content: concat_manifest(&paths),
                }
            },
            Stage::Merging => {
                let manifest = manifest_file_path(self.temp_dir.as_str());
                Request::Encode {
                    arguments: concat_arguments(manifest.as_str(), self.output_path.as_str()),
                }
            },
            Stage::Finished => Request::Finish {
                result: match &self.failure {
                    Some(e) => Err(export_error(e.kind, e.message.clone())),
                    None => Ok(self.output_path.clone()),
                },
            },
        }
    }

    /// The temporary files that the job may have left on disk.
    pub fn temporary_files(&self) -> (v: Vec<String>)
        ensures
            v.deep_view() == artifacts(self@),
    {
        proof {
            use_type_invariant(self);
        }
        if self.clips.len() == 1 {
            return no_files();
        }
        match self.stage {
            Stage::ProbingAudio | Stage::Measuring => temp_clip_paths(
                self.temp_dir.as_str(),
                self.index,
            ),
            Stage::Encoding => temp_clip_paths(self.temp_dir.as_str(), self.index + 1),
            Stage::WritingManifest | Stage::Merging => {
                let mut v = temp_clip_paths(self.temp_dir.as_str(), self.clips.len());
                push_owned(&mut v, manifest_file_path(self.temp_dir.as_str()));
                v
            },
            _ => no_files(),
        }
    }

    fn fail(&mut self, kind: ExportErrorKind, message: String)
        requires
            old(self)@.stage != Stage::Finished,
        ensures
            final(self)@ == finished(old(self)@, Err((kind, message@))),
    {
        proof {
            use_type_invariant(&*self);
        }
        self.failure = Some(export_error(kind, message));
        self.stage = Stage::Finished;
    }

    fn succeed(&mut self)
        requires
            old(self)@.stage != Stage::Finished,
        ensures
            final(self)@ == finished(old(self)@, Ok(old(self)@.output_path)),
    {
        proof {
            use_type_invariant(&*self);
        }
        self.failure = None;
        self.stage = Stage::Finished;
    }

    fn probe_unavailable(&self, reason: &str) -> (m: String)
        ensures
            m@ == probe_unavailable_text(self@, reason@),
    {
        if self.clips.len() == 1 {
            let mut m = "Failed to probe input: ".to_string();
            m.append(reason);
            m
        } else {
            let mut m = "Failed to probe clip ".to_string();
            push_decimal(&mut m, self.index as u128);
            m.append(": ");
            m.append(reason);
            m
        }
    }

    fn encoder_unavailable(&self, reason: &str) -> (m: String)
        ensures
            m@ == encoder_unavailable_text(self@, reason@),
    {
        if self.clips.len() == 1 {
            let mut m =
                "Failed to execute FFmpeg. Make sure FFmpeg is installed. Error: ".to_string();
            m.append(reason);
            m
        } else {
            let mut m = "Failed to execute FFmpeg for clip ".to_string();
            push_decimal(&mut m, self.index as u128);
            m.append(": ");
            m.append(reason);
            m
        }
    }

    /// Takes in what came of a tool's run and moves on. Returns whether the
    /// run meant a failure, and the notifications to emit.
    fn tool_ran(&mut self, run: &Result<ToolOutput, String>) -> (r: (bool, Vec<MergeProgress>))
        requires
            old(self)@.stage == Stage::ProbingAudio || old(self)@.stage == Stage::Measuring
                || old(self)@.stage == Stage::Encoding || old(self)@.stage == Stage::Merging,
        ensures
            final(self)@ == next(old(self)@, Outcome::Ran(*run)),
            r.0 == failure_of(old(self)@, Outcome::Ran(*run)).is_some(),
            progress_views(r.1@) == progress_of(old(self)@, Outcome::Ran(*run)),
    {
        proof {
            use_type_invariant(&*self);
        }
        let mut progress = no_progress();
        let n = self.clips.len();
        match self.stage {
            Stage::ProbingAudio => match run {
                Err(reason) => {
                    let m = self.probe_unavailable(reason.as_str());
                    self.fail(ExportErrorKind::ToolUnavailable, m);
                    (true, progress)
                },
                Ok(out) => {
                    self.has_audio = has_audio_stream(out.stdout.as_str());
                    if n != 1 && needs_measuring(&self.clips[self.index]) {
                        self.stage = Stage::Measuring;
                    } else {
                        self.stage = Stage::Encoding;
                    }
                    (false, progress)
                },
            },
            Stage::Measuring => match run {
                Err(reason) => {
                    let m = self.probe_unavailable(reason.as_str());
                    self.fail(ExportErrorKind::ToolUnavailable, m);
                    (true, progress)
                },
                Ok(out) => {
                    self.measured = read_length(out.stdout.as_str());
                    self.stage = Stage::Encoding;
                    (false, progress)
                },
            },
            Stage::Encoding => match run {
                Err(reason) => {
                    let m = self.encoder_unavailable(reason.as_str());
                    self.fail(ExportErrorKind::ToolUnavailable, m);
                    (true, progress)
                },
                Ok(out) => {
                    if !out.success {
                        if n == 1 {
                            let mut m = "FFmpeg export failed: ".to_string();
                            m.append(out.stderr.as_str());
                            self.fail(ExportErrorKind::EncodingFailure, m);
                        } else {
                            let e = classify_clip_failure(self.index + 1, out.stderr.as_str());
                            self.fail(e.kind, e.message);
                        }
                        (true, progress)
                    } else if n == 1 {
                        self.succeed();
                        (false, progress)
                    } else if self.index + 1 < n {
                        self.stage = Stage::ProbingAudio;
                        self.index = self.index + 1;
                        self.has_audio = false;
                        self.measured = 0;
                        push_progress(&mut progress, processing_progress(self.index + 1, n));
                        assert(progress_views(progress@) =~= progress_of(
                            old(self)@,
                            Outcome::Ran(*run),
                        ));
                        (false, progress)
                    } else {
                        self.stage = Stage::WritingManifest;
                        (false, progress)
                    }
                },
            },
            _ => match run {
                Err(reason) => {
                    let mut m = "Failed to execute FFmpeg concat: ".to_string();
                    m.append(reason.as_str());
                    self.fail(ExportErrorKind::ToolUnavailable, m);
                    (true, progress)
                },
                Ok(out) => {
                    if out.success {
                        self.succeed();
                        (false, progress)
                    } else {
                        let mut m = "FFmpeg concat failed: ".to_string();
                        m.append(out.stderr.as_str());
                        self.fail(ExportErrorKind::ConcatFailure, m);
                        (true, progress)
                    }
                },
            },
        }
    }

    /// Takes in what came of the last request and says what to do next: the
    /// notifications to emit, the files to delete and the next request. An
    /// outcome that does not answer the last request changes nothing, and
    /// the request is made again.
    pub fn advance(&mut self, outcome: &Outcome) -> (step: Step)
        ensures
            well_formed(old(self)@),
            final(self)@ == next(old(self)@, *outcome),
            well_formed(final(self)@),
            progress_views(step.progress@) == progress_of(old(self)@, *outcome),
            step.remove.deep_view() == removals(old(self)@, *outcome),
            step.request@ == pending(final(self)@),
    {
        proof {
            use_type_invariant(&*self);
        }
        let held = self.temporary_files();
        let merging = self.stage == Stage::Merging;
        let mut failed = false;
        let mut progress = no_progress();
        match self.stage {
            Stage::Finished => {},
            Stage::CheckingInput => match outcome {
                Outcome::Exists(exists) => {
                    if *exists {
                        self.stage = Stage::ProbingAudio;
                    } else {
                        self.fail(
                            ExportErrorKind::InputMissing,
                            "Input file does not exist".to_string(),
                        );
                        failed = true;
                    }
                },
                _ => {},
            },
            Stage::WritingManifest => match outcome {
                Outcome::Written => {
                    self.stage = Stage::Merging;
                    push_progress(&mut progress, merging_progress(self.clips.len()));
                    assert(progress_views(progress@) =~= progress_of(old(self)@, *outcome));
                },
                Outcome::WriteFailed { created, reason } => {
                    let mut m = if *created {
                        "Failed to write to concat file: ".to_string()
                    } else {
                        "Failed to create concat file: ".to_string()
                    };
                    m.append(reason.as_str());
                    self.fail(ExportErrorKind::ManifestFailure, m);
                    failed = true;
                },
                _ => {},
            },
            _ => match outcome {
                Outcome::Ran(run) => {
                    let r = self.tool_ran(run);
                    failed = r.0;
                    progress = r.1;
                },
                _ => {},
            },
        }
        proof {
            lemma_next_is_well_formed(old(self)@, *outcome);
        }
        let remove = if failed || (merging && matches!(outcome, Outcome::Ran(_))) {
            held
        } else {
            no_files()
        };
        let request = self.pending_request();
        Step { progress, remove, request }
    }
}

} // verus!

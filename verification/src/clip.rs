//! One clip of an export: its trim windows, the decision whether it needs a
//! filter graph, the graph's two branches, and the encoder's argument list.
//! All times are whole milliseconds.

use vstd::prelude::*;
use vstd::string::StringExecFns;
use crate::millis::{
    push_seconds_fixed, push_seconds_short, seconds_fixed, seconds_short, seconds_string,
};
use crate::text::{decimal, push_arg, push_decimal, push_owned};

verus! {

/// One clip of a timeline: its source and the editing decisions on it.
#[derive(Debug)]
pub struct ClipSegment {
    pub input_path: String,
    /// Start of the video window.
    pub trim_start: Option<i64>,
    /// End of the video window.
    pub trim_end: Option<i64>,
    /// Start of the audio window; that of the video window where absent.
    pub audio_trim_start: Option<i64>,
    /// End of the audio window; that of the video window where absent.
    pub audio_trim_end: Option<i64>,
    pub is_video_muted: Option<bool>,
    pub is_audio_muted: Option<bool>,
    /// Whether the audio moves with the video. It does where absent.
    pub is_audio_linked: Option<bool>,
    /// By how much unlinked audio is shifted against the video.
    pub audio_offset: Option<i64>,
}

/// The video branch of a clip's filter graph.
#[derive(Clone, Copy, Debug, PartialEq, Eq)]
pub enum VideoBranch {
    /// A solid-colour picture of the given length in place of the video.
    Filler { length: i128 },
    /// The video between two points of the source.
    Trim { start: i64, end: i64 },
    /// The video as it is.
    Passthrough,
}

/// The audio branch of a clip's filter graph.
#[derive(Clone, Copy, Debug, PartialEq, Eq)]
pub enum AudioBranch {
    /// Silence of the given length in place of the audio.
    Silence { length: i128 },
    /// Unlinked audio: cut to its window where it has one of its own, then
    /// delayed by a positive offset or shortened at its start by a negative
    /// one.
    Shifted { window: Option<(i64, i64)>, offset: i64 },
    /// The audio between two points of the source.
    Trim { start: i64, end: i64 },
    /// The audio as it is.
    Passthrough,
}

/// The first value where there is one, else the second.
pub open spec fn or_else(a: Option<i64>, b: Option<i64>) -> Option<i64> {
    if a is Some {
        a
    } else {
        b
    }
}

/// Start of the resolved audio window.
pub open spec fn audio_start(c: ClipSegment) -> Option<i64> {
    or_else(c.audio_trim_start, c.trim_start)
}

/// End of the resolved audio window.
pub open spec fn audio_end(c: ClipSegment) -> Option<i64> {
    or_else(c.audio_trim_end, c.trim_end)
}

/// Whether the resolved audio window differs from the video window.
pub open spec fn independent_audio(c: ClipSegment) -> bool {
    audio_start(c) != c.trim_start || audio_end(c) != c.trim_end
}

/// Whether the video window has both its bounds.
pub open spec fn is_trimmed(c: ClipSegment) -> bool {
    c.trim_start is Some && c.trim_end is Some
}

/// Whether the resolved audio window has both its bounds.
pub open spec fn audio_is_trimmed(c: ClipSegment) -> bool {
    audio_start(c) is Some && audio_end(c) is Some
}

/// Whether the video is muted.
pub open spec fn video_muted(c: ClipSegment) -> bool {
    c.is_video_muted == Some(true)
}

/// Whether the audio is muted.
pub open spec fn audio_muted(c: ClipSegment) -> bool {
    c.is_audio_muted == Some(true)
}

/// The offset of the audio against the video; none where the audio is
/// linked.
pub open spec fn shift_of(c: ClipSegment) -> i64 {
    if c.is_audio_linked == Some(false) {
        match c.audio_offset {
            Some(o) => o,
            None => 0,
        }
    } else {
        0
    }
}

/// The length of a clip: that of its video window, or, untrimmed, the
/// measured length of its source.
pub open spec fn clip_length(c: ClipSegment, measured: i64) -> int {
    if is_trimmed(c) {
        c.trim_end.unwrap() - c.trim_start.unwrap()
    } else {
        measured as int
    }
}

/// Whether a clip needs a filter graph: its video or audio is muted, its
/// source has no audio, its audio window is its own, or its audio is
/// shifted. Otherwise the source's streams are mapped directly.
pub open spec fn needs_graph(c: ClipSegment, has_audio: bool) -> bool {
    video_muted(c) || audio_muted(c) || !has_audio || independent_audio(c) || shift_of(c) != 0
}

/// The video branch of a clip of the given length.
pub open spec fn video_branch(c: ClipSegment, length: int) -> VideoBranch {
    if video_muted(c) {
        VideoBranch::Filler { length: length as i128 }
    } else if independent_audio(c) && is_trimmed(c) {
        VideoBranch::Trim { start: c.trim_start.unwrap(), end: c.trim_end.unwrap() }
    } else {
        VideoBranch::Passthrough
    }
}

/// The audio window of a clip where it is the clip's own and has both its
/// bounds.
pub open spec fn own_audio_window(c: ClipSegment) -> Option<(i64, i64)> {
    if independent_audio(c) && audio_is_trimmed(c) {
        Some((audio_start(c).unwrap(), audio_end(c).unwrap()))
    } else {
        None
    }
}

/// The audio branch of a clip of the given length.
pub open spec fn audio_branch(c: ClipSegment, has_audio: bool, length: int) -> AudioBranch {
    if !has_audio || audio_muted(c) {
        AudioBranch::Silence { length: length as i128 }
    } else if shift_of(c) != 0 {
        AudioBranch::Shifted { window: own_audio_window(c), offset: shift_of(c) }
    } else {
        match own_audio_window(c) {
            Some(w) => AudioBranch::Trim { start: w.0, end: w.1 },
            None => AudioBranch::Passthrough,
        }
    }
}

/// The length of the sound that an audio branch generates, where it
/// generates one.
pub open spec fn generated_audio_length(b: AudioBranch) -> Option<int> {
    match b {
        AudioBranch::Silence { length } => Some(length as int),
        _ => None,
    }
}

/// The length of the picture that a video branch generates, where it
/// generates one.
pub open spec fn generated_video_length(b: VideoBranch) -> Option<int> {
    match b {
        VideoBranch::Filler { length } => Some(length as int),
        _ => None,
    }
}

/// A clip whose source has no audio gets silence of exactly the clip's
/// length as its audio, whatever else is decided on it.
pub proof fn lemma_missing_audio_is_filled(c: ClipSegment, measured: i64)
    ensures
        needs_graph(c, false),
        generated_audio_length(audio_branch(c, false, clip_length(c, measured))) == Some(
            clip_length(c, measured),
        ),
{
}

/// What a clip's graph generates in place of a missing or muted track is
/// as long as the clip: generated picture and generated sound never differ
/// in length.
pub proof fn lemma_generated_tracks_agree(c: ClipSegment, has_audio: bool, measured: i64)
    ensures
        ({
            let length = clip_length(c, measured);
            let v = generated_video_length(video_branch(c, length));
            let a = generated_audio_length(audio_branch(c, has_audio, length));
            &&& (v is Some ==> v == Some(length))
            &&& (a is Some ==> a == Some(length))
            &&& (video_muted(c) ==> v is Some)
            &&& (!has_audio || audio_muted(c) ==> a is Some)
        }),
{
}

/// A clip without mute, shift and audio window of its own, whose source has
/// audio, needs no filter graph.
pub proof fn lemma_plain_clip_needs_no_graph(c: ClipSegment)
    requires
        !video_muted(c),
        !audio_muted(c),
        shift_of(c) == 0,
        !independent_audio(c),
    ensures
        !needs_graph(c, true),
{
}

/// The text of a video branch.
pub open spec fn video_text(b: VideoBranch) -> Seq<char> {
    match b {
        VideoBranch::Filler { length } => "color=c=black:s=1920x1080:d="@ + seconds_fixed(
            length as int,
        ) + ",fps=30[v]"@,
        VideoBranch::Trim { start, end } => "[0:v]trim=start="@ + seconds_short(start as int)
            + ":end="@ + seconds_short(end as int) + ",setpts=PTS-STARTPTS[v]"@,
        VideoBranch::Passthrough => "[0:v]null[v]"@,
    }
}

/// The filter that cuts audio to a window and resets its timestamps.
pub open spec fn audio_trim_text(start: i64, end: i64) -> Seq<char> {
    "atrim=start="@ + seconds_short(start as int) + ":end="@ + seconds_short(end as int)
        + ",asetpts=PTS-STARTPTS"@
}

/// The filter that shifts audio: a delay of both channels by a positive
/// offset, a cut at the start by a negative one.
pub open spec fn audio_shift_text(offset: i64) -> Seq<char> {
    if offset > 0 {
        "adelay="@ + decimal(offset as nat) + "|"@ + decimal(offset as nat)
    } else {
        "atrim=start="@ + seconds_short(-(offset as int))
    }
}

/// The text of an audio branch.
pub open spec fn audio_text(b: AudioBranch) -> Seq<char> {
    match b {
        AudioBranch::Silence {
            length,
        } => "anullsrc=channel_layout=stereo:sample_rate=44100:duration="@ + seconds_fixed(
            length as int,
        ) + "[a]"@,
        AudioBranch::Shifted { window, offset } => match window {
            Some(w) => "[0:a]"@ + audio_trim_text(w.0, w.1) + ","@ + audio_shift_text(offset)
                + "[a]"@,
            None => "[0:a]"@ + audio_shift_text(offset) + "[a]"@,
        },
        AudioBranch::Trim { start, end } => "[0:a]"@ + audio_trim_text(start, end) + "[a]"@,
        AudioBranch::Passthrough => "[0:a]anull[a]"@,
    }
}

/// The text of a clip's filter graph: the video branch, then the audio
/// branch.
pub open spec fn graph_text(v: VideoBranch, a: AudioBranch) -> Seq<char> {
    video_text(v) + ";"@ + audio_text(a)
}

fn first_of(a: Option<i64>, b: Option<i64>) -> (r: Option<i64>)
    ensures
        r == or_else(a, b),
{
    match a {
        Some(_) => a,
        None => b,
    }
}

fn same_bound(a: Option<i64>, b: Option<i64>) -> (r: bool)
    ensures
        r == (a == b),
{
    match a {
        Some(x) => match b {
            Some(y) => x == y,
            None => false,
        },
        None => b.is_none(),
    }
}

fn flag(f: Option<bool>) -> (r: bool)
    ensures
        r == (f == Some(true)),
{
    match f {
        Some(b) => b,
        None => false,
    }
}

/// Whether the resolved audio window of a clip differs from its video
/// window.
pub fn has_independent_audio(c: &ClipSegment) -> (r: bool)
    ensures
        r == independent_audio(*c),
{
    let a_start = first_of(c.audio_trim_start, c.trim_start);
    let a_end = first_of(c.audio_trim_end, c.trim_end);
    !same_bound(a_start, c.trim_start) || !same_bound(a_end, c.trim_end)
}

/// The offset of a clip's audio against its video.
pub fn audio_shift(c: &ClipSegment) -> (r: i64)
    ensures
        r == shift_of(*c),
{
    let unlinked = match c.is_audio_linked {
        Some(l) => !l,
        None => false,
    };
    if unlinked {
        match c.audio_offset {
            Some(o) => o,
            None => 0,
        }
    } else {
        0
    }
}

/// Whether the length of a clip's source has to be measured: it has where
/// the video window lacks a bound.
pub fn needs_measuring(c: &ClipSegment) -> (r: bool)
    ensures
        r == !is_trimmed(*c),
{
    c.trim_start.is_none() || c.trim_end.is_none()
}

/// The length of a clip.
pub fn length_of(c: &ClipSegment, measured: i64) -> (r: i128)
    ensures
        r == clip_length(*c, measured),
{
    match c.trim_start {
        Some(s) => match c.trim_end {
            Some(e) => e as i128 - s as i128,
            None => measured as i128,
        },
        None => measured as i128,
    }
}

/// Whether a clip needs a filter graph.
pub fn requires_graph(c: &ClipSegment, has_audio: bool) -> (r: bool)
    ensures
        r == needs_graph(*c, has_audio),
{
    flag(c.is_video_muted) || flag(c.is_audio_muted) || !has_audio || has_independent_audio(c)
        || audio_shift(c) != 0
}

/// The video branch of a clip of the given length.
pub fn plan_video(c: &ClipSegment, length: i128) -> (b: VideoBranch)
    ensures
        b == video_branch(*c, length as int),
{
    if flag(c.is_video_muted) {
        return VideoBranch::Filler { length };
    }
    if has_independent_audio(c) {
        match c.trim_start {
            Some(start) => match c.trim_end {
                Some(end) => {
                    return VideoBranch::Trim { start, end };
                },
                None => {},
            },
            None => {},
        }
    }
    VideoBranch::Passthrough
}

fn own_window(c: &ClipSegment) -> (w: Option<(i64, i64)>)
    ensures
        w == own_audio_window(*c),
{
    if has_independent_audio(c) {
        let a_start = first_of(c.audio_trim_start, c.trim_start);
        let a_end = first_of(c.audio_trim_end, c.trim_end);
        match a_start {
            Some(s) => match a_end {
                Some(e) => {
                    return Some((s, e));
                },
                None => {},
            },
            None => {},
        }
    }
    None
}

/// The audio branch of a clip of the given length.
pub fn plan_audio(c: &ClipSegment, has_audio: bool, length: i128) -> (b: AudioBranch)
    ensures
        b == audio_branch(*c, has_audio, length as int),
{
    if !has_audio || flag(c.is_audio_muted) {
        return AudioBranch::Silence { length };
    }
    let offset = audio_shift(c);
    let window = own_window(c);
    if offset != 0 {
        return AudioBranch::Shifted { window, offset };
    }
    match window {
        Some(w) => AudioBranch::Trim { start: w.0, end: w.1 },
        None => AudioBranch::Passthrough,
    }
}

/// The text of a video branch.
pub fn render_video(b: &VideoBranch) -> (s: String)
    ensures
        s@ == video_text(*b),
{
    match b {
        VideoBranch::Filler { length } => {
            let mut s = "color=c=black:s=1920x1080:d=".to_string();
            push_seconds_fixed(&mut s, *length);
            s.append(",fps=30[v]");
            s
        },
        VideoBranch::Trim { start, end } => {
            let mut s = "[0:v]trim=start=".to_string();
            push_seconds_short(&mut s, *start as i128);
            s.append(":end=");
            push_seconds_short(&mut s, *end as i128);
            s.append(",setpts=PTS-STARTPTS[v]");
            s
        },
        VideoBranch::Passthrough => "[0:v]null[v]".to_string(),
    }
}

fn push_audio_trim(s: &mut String, start: i64, end: i64)
    ensures
        final(s)@ == old(s)@ + audio_trim_text(start, end),
{
    s.append("atrim=start=");
    push_seconds_short(s, start as i128);
    s.append(":end=");
    push_seconds_short(s, end as i128);
    s.append(",asetpts=PTS-STARTPTS");
    assert(s@ =~= old(s)@ + audio_trim_text(start, end));
}

fn push_audio_shift(s: &mut String, offset: i64)
    ensures
        final(s)@ == old(s)@ + audio_shift_text(offset),
{
    if offset > 0 {
        s.append("adelay=");
        push_decimal(s, offset as u128);
        s.append("|");
        push_decimal(s, offset as u128);
    } else {
        s.append("atrim=start=");
        push_seconds_short(s, -(offset as i128));
    }
    assert(s@ =~= old(s)@ + audio_shift_text(offset));
}

/// The text of an audio branch.
pub fn render_audio(b: &AudioBranch) -> (s: String)
    ensures
        s@ == audio_text(*b),
{
    match b {
        AudioBranch::Silence { length } => {
            let mut s = "anullsrc=channel_layout=stereo:sample_rate=44100:duration=".to_string();
            push_seconds_fixed(&mut s, *length);
            s.append("[a]");
            s
        },
        AudioBranch::Shifted { window, offset } => {
            let mut s = "[0:a]".to_string();
            match window {
                Some(w) => {
                    push_audio_trim(&mut s, w.0, w.1);
                    s.append(",");
                },
                None => {},
            }
            push_audio_shift(&mut s, *offset);
            s.append("[a]");
            s
        },
        AudioBranch::Trim { start, end } => {
            let mut s = "[0:a]".to_string();
            push_audio_trim(&mut s, *start, *end);
            s.append("[a]");
            s
        },
        AudioBranch::Passthrough => "[0:a]anull[a]".to_string(),
    }
}

/// The text of a clip's filter graph.
pub fn render_graph(v: &VideoBranch, a: &AudioBranch) -> (s: String)
    ensures
        s@ == graph_text(*v, *a),
{
    let mut s = render_video(v);
    s.append(";");
    let audio = render_audio(a);
    s.append(audio.as_str());
    s
}

/// The seek and length options that trim a whole input.
pub open spec fn seek_args(start: i64, end: i64) -> Seq<Seq<char>> {
    seq!["-ss"@, seconds_short(start as int), "-t"@, seconds_short(end - start)]
}

/// The input-level trim of a clip: applied where the video window has both
/// bounds and the audio follows it.
pub open spec fn clip_seek_args(c: ClipSegment) -> Seq<Seq<char>> {
    if !independent_audio(c) && is_trimmed(c) {
        seek_args(c.trim_start.unwrap(), c.trim_end.unwrap())
    } else {
        Seq::empty()
    }
}

/// The stream selection of a clip: the named outputs of its filter graph,
/// or the source's own streams.
pub open spec fn clip_map_args(c: ClipSegment, has_audio: bool, length: int) -> Seq<Seq<char>> {
    if needs_graph(c, has_audio) {
        seq![
            "-filter_complex"@,
            graph_text(video_branch(c, length), audio_branch(c, has_audio, length)),
            "-map"@,
            "[v]"@,
            "-map"@,
            "[a]"@,
        ]
    } else {
        seq!["-map"@, "0:v"@, "-map"@, "0:a"@]
    }
}

/// The encoding of a temporary clip: a fast preset, since the file only
/// feeds the concatenation.
pub open spec fn temp_encoding_args(target: Seq<char>) -> Seq<Seq<char>> {
    seq![
        "-c:v"@,
        "libx264"@,
        "-preset"@,
        "ultrafast"@,
        "-crf"@,
        "23"@,
        "-c:a"@,
        "aac"@,
        "-b:a"@,
        "128k"@,
        "-y"@,
        target,
    ]
}

/// The encoder's argument list for one clip of several.
pub open spec fn clip_args(c: ClipSegment, has_audio: bool, measured: i64, target: Seq<char>) -> Seq<
    Seq<char>,
> {
    seq!["-i"@, c.input_path@] + clip_seek_args(c) + clip_map_args(
        c,
        has_audio,
        clip_length(c, measured),
    ) + temp_encoding_args(target)
}

fn push_seek(v: &mut Vec<String>, start: i64, end: i64)
    ensures
        final(v).deep_view() == old(v).deep_view() + seek_args(start, end),
{
    push_arg(v, "-ss");
    push_owned(v, seconds_string(start as i128));
    push_arg(v, "-t");
    push_owned(v, seconds_string(end as i128 - start as i128));
    assert(v.deep_view() =~= old(v).deep_view() + seek_args(start, end));
}

fn push_clip_seek(v: &mut Vec<String>, c: &ClipSegment)
    ensures
        final(v).deep_view() == old(v).deep_view() + clip_seek_args(*c),
{
    if !has_independent_audio(c) {
        match c.trim_start {
            Some(start) => match c.trim_end {
                Some(end) => {
                    push_seek(v, start, end);
                },
                None => {},
            },
            None => {},
        }
    }
    assert(v.deep_view() =~= old(v).deep_view() + clip_seek_args(*c));
}

fn push_clip_map(v: &mut Vec<String>, c: &ClipSegment, has_audio: bool, length: i128)
    ensures
        final(v).deep_view() == old(v).deep_view() + clip_map_args(*c, has_audio, length as int),
{
    if requires_graph(c, has_audio) {
        let video = plan_video(c, length);
        let audio = plan_audio(c, has_audio, length);
        push_arg(v, "-filter_complex");
        push_owned(v, render_graph(&video, &audio));
        push_arg(v, "-map");
        push_arg(v, "[v]");
        push_arg(v, "-map");
        push_arg(v, "[a]");
    } else {
        push_arg(v, "-map");
        push_arg(v, "0:v");
        push_arg(v, "-map");
        push_arg(v, "0:a");
    }
    assert(v.deep_view() =~= old(v).deep_view() + clip_map_args(*c, has_audio, length as int));
}

fn push_temp_encoding(v: &mut Vec<String>, target: &str)
    ensures
        final(v).deep_view() == old(v).deep_view() + temp_encoding_args(target@),
{
    push_arg(v, "-c:v");
    push_arg(v, "libx264");
    push_arg(v, "-preset");
    push_arg(v, "ultrafast");
    push_arg(v, "-crf");
    push_arg(v, "23");
    push_arg(v, "-c:a");
    push_arg(v, "aac");
    push_arg(v, "-b:a");
    push_arg(v, "128k");
    push_arg(v, "-y");
    push_arg(v, target);
    assert(v.deep_view() =~= old(v).deep_view() + temp_encoding_args(target@));
}

/// The encoder's argument list for one clip of several, written to the
/// temporary file `target`. `measured` is the length of the source, which
/// counts where the clip is untrimmed.
pub fn clip_arguments(c: &ClipSegment, has_audio: bool, measured: i64, target: &str) -> (v: Vec<
    String,
>)
    ensures
        v.deep_view() == clip_args(*c, has_audio, measured, target@),
{
    let mut v: Vec<String> = Vec::new();
    push_arg(&mut v, "-i");
    push_arg(&mut v, c.input_path.as_str());
    assert(v.deep_view() =~= seq!["-i"@, c.input_path@]);
    push_clip_seek(&mut v, c);
    push_clip_map(&mut v, c, has_audio, length_of(c, measured));
    push_temp_encoding(&mut v, target);
    v
}

} // verus!

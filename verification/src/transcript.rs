//! Transcription: the audio that is sent for it, and the marking of
//! segments that hold filler words.

use vstd::prelude::*;
use crate::lines::{lowercase, trim, trimmed};
use crate::probe::{audio_stream_count, count_audio_streams};
use crate::text::{chars_of, contains, includes, push_arg, text_of_all};

verus! {

/// The encoder's argument list for the audio track of `video_path` as an
/// MP3 file that starts at zero and keeps the video's length.
pub open spec fn audio_track_args(video_path: Seq<char>, target: Seq<char>) -> Seq<Seq<char>> {
    seq![
        "-i"@,
        video_path,
        "-vn"@,
        "-acodec"@,
        "libmp3lame"@,
        "-ab"@,
        "192k"@,
        "-ar"@,
        "44100"@,
        "-af"@,
        "aresample=async=1:first_pts=0"@,
        "-y"@,
        target,
    ]
}

/// The encoder's argument list for the audio track of a video.
pub fn extract_audio(video_path: &str, target: &str) -> (v: Vec<String>)
    ensures
        v.deep_view() == audio_track_args(video_path@, target@),
{
    let mut v: Vec<String> = Vec::new();
    push_arg(&mut v, "-i");
    push_arg(&mut v, video_path);
    push_arg(&mut v, "-vn");
    push_arg(&mut v, "-acodec");
    push_arg(&mut v, "libmp3lame");
    push_arg(&mut v, "-ab");
    push_arg(&mut v, "192k");
    push_arg(&mut v, "-ar");
    push_arg(&mut v, "44100");
    push_arg(&mut v, "-af");
    push_arg(&mut v, "aresample=async=1:first_pts=0");
    push_arg(&mut v, "-y");
    push_arg(&mut v, target);
    assert(v.deep_view() =~= audio_track_args(video_path@, target@));
    v
}

/// Admits a video to transcription only where the output of its audio
/// probe lists an audio stream.
pub fn require_audio(stdout: &str) -> (r: Result<usize, String>)
    ensures
        match audio_stream_count(stdout@) {
            Ok(n) => if n > 0 {
                r.is_ok() && r.unwrap() == n
            } else {
                r.is_err() && r.unwrap_err()@
                    == "This video has no audio track. Please select a video with audio to transcribe."@
            },
            Err(m) => r.is_err() && r.unwrap_err()@ == "Failed to parse ffprobe output: "@ + m,
        },
{
    match count_audio_streams(stdout) {
        Ok(n) => {
            if n > 0 {
                Ok(n)
            } else {
                Err(
                    "This video has no audio track. Please select a video with audio to transcribe.".to_string(),
                )
            }
        },
        Err(e) => Err(e.message),
    }
}

/// Whether a text in lower case holds one of the filler words.
pub open spec fn holds_filler(lower: Seq<char>) -> bool {
    contains(lower, "um"@) || contains(lower, "uh"@) || contains(lower, "like"@) || contains(
        lower,
        "so"@,
    ) || contains(lower, "basically"@) || contains(lower, "actually"@) || contains(
        lower,
        "literally"@,
    ) || contains(lower, "you know"@) || contains(lower, "i mean"@)
}

/// Whether a segment of speech holds a filler word, in any case.
pub open spec fn is_filler(segment: Seq<char>) -> bool {
    holds_filler(lowercase(segment))
}

fn lowercase_holds_filler(lower: &str) -> (r: bool)
    ensures
        r == holds_filler(lower@),
{
    let l = chars_of(lower);
    includes(&l, "um") || includes(&l, "uh") || includes(&l, "like") || includes(&l, "so")
        || includes(&l, "basically") || includes(&l, "actually") || includes(&l, "literally")
        || includes(&l, "you know") || includes(&l, "i mean")
}

/// Whether a segment of speech holds a filler word.
pub fn has_filler(segment: &str) -> (r: bool)
    ensures
        r == is_filler(segment@),
{
    let lower = segment.to_lowercase();
    lowercase_holds_filler(lower.as_str())
}

/// The text of a segment as it is shown: without white space at its ends.
pub fn segment_text(segment: &str) -> (s: String)
    ensures
        s@ == trim(segment@),
{
    let chars = chars_of(segment);
    assert(chars@.subrange(0, chars@.len() as int) =~= segment@);
    let t = trimmed(&chars, 0, chars.len());
    text_of_all(&t)
}

} // verus!

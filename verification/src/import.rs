//! Importing a file: its metadata, and the thumbnail that is derived from
//! it.

use std::collections::hash_map::DefaultHasher;
use std::hash::Hasher;
use vstd::prelude::*;
use vstd::std_specs::hash::DefaultHasherAdditionalSpecFns;
use vstd::string::{StringExecFns, StringSliceAdditionalSpecFns};
use crate::millis::{magnitude, seconds_short, sign_text};
use crate::probe::MediaProbe;
use crate::text::{decimal, digit_char, digit_of, push_arg, push_decimal, push_owned};
use crate::tools::{join_path, joined};

verus! {

/// What is known of an imported file.
#[derive(Debug)]
pub struct VideoMetadata {
    pub path: String,
    pub filename: String,
    /// The length in milliseconds.
    pub duration: Option<i64>,
    pub width: Option<u32>,
    pub height: Option<u32>,
    /// The thumbnail, where one could be made.
    pub thumbnail_path: Option<String>,
}

/// Admits a file to the import only where it exists.
pub fn require_existing(exists: bool) -> (r: Result<(), String>)
    ensures
        exists ==> r.is_ok(),
        !exists ==> r.is_err() && r.unwrap_err()@ == "File does not exist"@,
{
    if exists {
        Ok(())
    } else {
        Err("File does not exist".to_string())
    }
}

/// `std::path::Path::file_name`, as text: the last component of a path,
/// where it has one that is valid Unicode. Nothing is claimed of which part
/// of the path that is.
#[verifier::external_body]
fn file_name_of(path: &str) -> (r: Option<String>) {
    std::path::Path::new(path).file_name().and_then(|n| n.to_str()).map(|s| s.to_string())
}

/// The name under which a file is shown: its file name, or "unknown"
/// where it has none.
pub open spec fn shown_name(name: Option<Seq<char>>) -> Seq<char> {
    match name {
        Some(n) => n,
        None => "unknown"@,
    }
}

/// The metadata of an imported file, from its path, its file name, its
/// probe and its thumbnail. A thumbnail that could not be made is absent;
/// the import stands without it.
pub fn assemble_metadata(
    path: &str,
    name: Option<String>,
    probe: &MediaProbe,
    thumbnail: Result<String, String>,
) -> (m: VideoMetadata)
    ensures
        m.path@ == path@,
        m.filename@ == shown_name(
            match name {
                Some(n) => Some(n@),
                None => None,
            },
        ),
        m.duration == Some(probe.duration),
        m.width == Some(probe.width),
        m.height == Some(probe.height),
        match thumbnail {
            Ok(t) => m.thumbnail_path.is_some() && m.thumbnail_path.unwrap()@ == t@,
            Err(_) => m.thumbnail_path.is_none(),
        },
{
    let filename = match name {
        Some(n) => n,
        None => "unknown".to_string(),
    };
    let thumbnail_path = match thumbnail {
        Ok(t) => Some(t),
        Err(_) => None,
    };
    VideoMetadata {
        path: path.to_string(),
        filename,
        duration: Some(probe.duration),
        width: Some(probe.width),
        height: Some(probe.height),
        thumbnail_path,
    }
}

/// The metadata of an imported file whose probe succeeded. The file's name
/// is the last component of its path.
pub fn import_video(path: &str, probe: &MediaProbe, thumbnail: Result<String, String>) -> (m:
    VideoMetadata)
    ensures
        m.path@ == path@,
        m.duration == Some(probe.duration),
        m.width == Some(probe.width),
        m.height == Some(probe.height),
        match thumbnail {
            Ok(t) => m.thumbnail_path.is_some() && m.thumbnail_path.unwrap()@ == t@,
            Err(_) => m.thumbnail_path.is_none(),
        },
{
    assemble_metadata(path, file_name_of(path), probe, thumbnail)
}

// ---------------------------------------------------------------------------
// Thumbnails
// ---------------------------------------------------------------------------

/// The point of a file at which its thumbnail is taken, in tenths of a
/// millisecond: a tenth of the length, but at most two seconds.
pub open spec fn thumbnail_point(duration: i64) -> int {
    if duration < 20000 {
        duration as int
    } else {
        20000
    }
}

/// The four decimal places of a number of tenths of a millisecond below
/// one second.
pub open spec fn fraction_of_tenths(f: nat) -> Seq<char> {
    seq![
        digit_char(f / 1000 % 10),
        digit_char(f / 100 % 10),
        digit_char(f / 10 % 10),
        digit_char(f % 10),
    ]
}

/// A time of `t` tenths of a millisecond in seconds, in its shortest
/// notation.
pub open spec fn tenths_text(t: int) -> Seq<char> {
    if magnitude(t) % 10 == 0 {
        seconds_short(t / 10)
    } else {
        sign_text(t) + decimal(magnitude(t) / 10000) + seq!['.'] + fraction_of_tenths(
            magnitude(t) % 10000,
        )
    }
}

/// The point at which the thumbnail of a file of the given length is
/// taken, in seconds.
pub fn thumbnail_timestamp(duration: i64) -> (s: String)
    ensures
        s@ == tenths_text(thumbnail_point(duration)),
{
    let t: i64 = if duration < 20000 {
        duration
    } else {
        20000
    };
    let m: u64 = if t < 0 {
        if t == i64::MIN {
            0x8000_0000_0000_0000
        } else {
            (-t) as u64
        }
    } else {
        t as u64
    };
    if m % 10 == 0 {
        return crate::millis::seconds_string((t / 10) as i128);
    }
    let mut s = String::new();
    if t < 0 {
        s.push('-');
    }
    push_decimal(&mut s, (m / 10000) as u128);
    s.push('.');
    let f: u64 = m % 10000;
    s.push(digit_of((f / 1000 % 10) as u8));
    s.push(digit_of((f / 100 % 10) as u8));
    s.push(digit_of((f / 10 % 10) as u8));
    s.push(digit_of((f % 10) as u8));
    assert(s@ =~= tenths_text(thumbnail_point(duration)));
    s
}

/// The hash of a path by which its thumbnail is found again: that of the
/// standard library's default hasher over the path's bytes and the byte
/// that ends a string.
pub open spec fn path_hash(path: Seq<char>) -> u64 {
    DefaultHasher::spec_finish(seq![vstd::utf8::encode_utf8(path), seq![0xffu8]])
}

/// The hash of a path.
pub fn hash_path(path: &str) -> (h: u64)
    ensures
        h == path_hash(path@),
{
    let mut hasher = DefaultHasher::new();
    hasher.write(path.as_bytes());
    let end: Vec<u8> = vec![0xffu8];
    hasher.write(end.as_slice());
    assert(end@ =~= seq![0xffu8]);
    assert(hasher@ =~~= seq![vstd::utf8::encode_utf8(path@), seq![0xffu8]]);
    hasher.finish()
}

/// The directory of the thumbnails below the directory for temporary
/// files.
pub open spec fn thumbnails_dir(temp_dir: Seq<char>) -> Seq<char> {
    joined(temp_dir, "clipforge_thumbnails"@)
}

/// The path of the thumbnail of the file with the given hash.
pub open spec fn thumbnail_file(temp_dir: Seq<char>, hash: u64) -> Seq<char> {
    joined(thumbnails_dir(temp_dir), "thumb_"@ + decimal(hash as nat) + ".jpg"@)
}

/// The directory of the thumbnails.
pub fn thumbnails_directory(temp_dir: &str) -> (s: String)
    ensures
        s@ == thumbnails_dir(temp_dir@),
{
    join_path(temp_dir, "clipforge_thumbnails")
}

/// The path of the thumbnail of `video_path`.
pub fn thumbnail_path(temp_dir: &str, video_path: &str) -> (s: String)
    ensures
        s@ == thumbnail_file(temp_dir@, path_hash(video_path@)),
{
    let mut name = "thumb_".to_string();
    push_decimal(&mut name, hash_path(video_path) as u128);
    name.append(".jpg");
    let dir = thumbnails_directory(temp_dir);
    join_path(dir.as_str(), name.as_str())
}

/// The encoder's argument list for a thumbnail: one frame at the given
/// point, scaled to a width of 320 with the aspect ratio kept.
pub open spec fn thumbnail_args(point: Seq<char>, video_path: Seq<char>, target: Seq<char>) -> Seq<
    Seq<char>,
> {
    seq![
        "-ss"@,
        point,
        "-i"@,
        video_path,
        "-vframes"@,
        "1"@,
        "-vf"@,
        "scale=320:-1"@,
        "-q:v"@,
        "2"@,
        "-y"@,
        target,
    ]
}

/// The encoder's argument list for the thumbnail of `video_path`, a file
/// of the given length, written to `target`.
pub fn generate_thumbnail(video_path: &str, duration: i64, target: &str) -> (v: Vec<String>)
    ensures
        v.deep_view() == thumbnail_args(
            tenths_text(thumbnail_point(duration)),
            video_path@,
            target@,
        ),
{
    let mut v: Vec<String> = Vec::new();
    push_arg(&mut v, "-ss");
    push_owned(&mut v, thumbnail_timestamp(duration));
    push_arg(&mut v, "-i");
    push_arg(&mut v, video_path);
    push_arg(&mut v, "-vframes");
    push_arg(&mut v, "1");
    push_arg(&mut v, "-vf");
    push_arg(&mut v, "scale=320:-1");
    push_arg(&mut v, "-q:v");
    push_arg(&mut v, "2");
    push_arg(&mut v, "-y");
    push_arg(&mut v, target);
    assert(v.deep_view() =~= thumbnail_args(
        tenths_text(thumbnail_point(duration)),
        video_path@,
        target@,
    ));
    v
}

} // verus!

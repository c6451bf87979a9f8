//! Audio device enumeration: reading the encoder's device listing and
//! classifying each device.

use vstd::prelude::*;
use crate::lines::{lines, lowercase, split_lines, trim, trimmed};
use crate::routing::Platform;
use crate::text::{
    chars_of, contains, find_last, includes, last_index, parse_number, parse_unsigned, push_arg,
    text_of, text_of_all,
};

verus! {

/// One audio device.
#[derive(Debug)]
pub struct AudioDevice {
    /// The identifier by which the capture layer knows the device.
    pub id: String,
    /// The name shown to the user.
    pub name: String,
    /// "input" or "virtual".
    pub device_type: String,
}

/// The view of a device: identifier, name and category as texts.
pub struct AudioDeviceView {
    pub id: Seq<char>,
    pub name: Seq<char>,
    pub device_type: Seq<char>,
}

impl View for AudioDevice {
    type V = AudioDeviceView;

    open spec fn view(&self) -> AudioDeviceView {
        AudioDeviceView { id: self.id@, name: self.name@, device_type: self.device_type@ }
    }
}

/// The views of a list of devices.
pub open spec fn devices_view(devices: Seq<AudioDevice>) -> Seq<AudioDeviceView> {
    Seq::new(devices.len(), |i: int| devices[i]@)
}

/// Whether a device name is that of a loopback driver: in lower case it
/// holds "blackhole", "soundflower" or "loopback".
pub open spec fn is_virtual(name: Seq<char>) -> bool {
    contains(lowercase(name), "blackhole"@) || contains(lowercase(name), "soundflower"@)
        || contains(lowercase(name), "loopback"@)
}

/// The category of a device by its name.
pub open spec fn category(name: Seq<char>) -> Seq<char> {
    if is_virtual(name) {
        "virtual"@
    } else {
        "input"@
    }
}

/// Whether a text in lower case names a loopback driver.
pub open spec fn names_loopback(lower: Seq<char>) -> bool {
    contains(lower, "blackhole"@) || contains(lower, "soundflower"@) || contains(
        lower,
        "loopback"@,
    )
}

/// Whether a text that is already in lower case names a loopback driver.
pub fn lowercase_names_loopback(lower: &str) -> (r: bool)
    ensures
        r == names_loopback(lower@),
{
    let l = chars_of(lower);
    includes(&l, "blackhole") || includes(&l, "soundflower") || includes(&l, "loopback")
}

/// The category of a device by its name: "virtual" for a loopback driver,
/// "input" otherwise.
pub fn classify_device(name: &str) -> (r: String)
    ensures
        r@ == category(name@),
{
    let lower = name.to_lowercase();
    if lowercase_names_loopback(lower.as_str()) {
        "virtual".to_string()
    } else {
        "input".to_string()
    }
}

/// The device that stands for the system's default where none is listed.
pub open spec fn default_device() -> AudioDeviceView {
    AudioDeviceView { id: "0"@, name: "Default Microphone"@, device_type: "input"@ }
}

/// The number of bytes that a character takes in UTF-8.
pub open spec fn utf8_width(c: char) -> nat {
    if (c as u32) < 0x80 {
        1
    } else if (c as u32) < 0x800 {
        2
    } else if (c as u32) < 0x10000 {
        3
    } else {
        4
    }
}

/// The number of bytes that the first `n` characters of `s` take in UTF-8.
pub open spec fn byte_offset(s: Seq<char>, n: int) -> nat
    decreases n,
{
    if n <= 0 || n > s.len() {
        0
    } else {
        byte_offset(s, n - 1) + utf8_width(s[n - 1])
    }
}

/// The device that a line of the listing names: the text after the last
/// closing bracket, trimmed, under the identifier between the last opening
/// and the last closing bracket. The line names a device only where the
/// opening bracket stands more than five bytes into the line, the
/// identifier is a number and the name is not empty.
pub open spec fn device_of_line(line: Seq<char>) -> Option<AudioDeviceView> {
    match (last_index(line, '['), last_index(line, ']')) {
        (Some(open), Some(close)) => {
            let id = line.subrange(open + 1, close);
            let name = trim(line.subrange(close + 1, line.len() as int));
            if close > open + 1 && byte_offset(line, open) > 5 && parse_unsigned(
                id,
                u32::MAX as nat,
            ).is_some() && name.len() > 0 {
                Some(AudioDeviceView { id, name, device_type: category(name) })
            } else {
                None
            }
        },
        _ => None,
    }
}

/// Whether a line of the audio section is passed over: it names the capture
/// layer or, in lower case, an error.
pub open spec fn is_noise(line: Seq<char>) -> bool {
    contains(line, "AVFoundation"@) || contains(lowercase(line), "error"@)
}

/// The devices that the lines of a listing name. `active` tells whether the
/// lines stand in the audio section, which the line that announces the
/// audio devices opens and the line that announces the video devices
/// closes.
pub open spec fn listed_devices(ls: Seq<Seq<char>>, active: bool) -> Seq<AudioDeviceView>
    decreases ls.len(),
{
    if ls.len() == 0 {
        Seq::empty()
    } else {
        let line = ls[0];
        let rest = ls.drop_first();
        if contains(line, "AVFoundation audio devices:"@) {
            listed_devices(rest, true)
        } else {
            let now = active && !contains(line, "AVFoundation video devices:"@);
            if now && !is_noise(line) {
                match device_of_line(line) {
                    Some(d) => seq![d] + listed_devices(rest, now),
                    None => listed_devices(rest, now),
                }
            } else {
                listed_devices(rest, now)
            }
        }
    }
}

/// The audio devices of a listing, or the default device alone where the
/// listing names none.
pub open spec fn devices_of(listing: Seq<char>) -> Seq<AudioDeviceView> {
    let found = listed_devices(lines(listing), false);
    if found.len() == 0 {
        seq![default_device()]
    } else {
        found
    }
}

/// The arguments with which the encoder lists the capture devices.
pub open spec fn list_args() -> Seq<Seq<char>> {
    seq!["-f"@, "avfoundation"@, "-list_devices"@, "true"@, "-i"@, ""@]
}

/// The arguments with which the encoder lists the capture devices.
pub fn list_devices_arguments() -> (v: Vec<String>)
    ensures
        v.deep_view() == list_args(),
{
    let mut v: Vec<String> = Vec::new();
    push_arg(&mut v, "-f");
    push_arg(&mut v, "avfoundation");
    push_arg(&mut v, "-list_devices");
    push_arg(&mut v, "true");
    push_arg(&mut v, "-i");
    push_arg(&mut v, "");
    assert(v.deep_view() =~= list_args());
    v
}

fn width_of(c: char) -> (w: usize)
    ensures
        w == utf8_width(c),
{
    let n: u32 = c as u32;
    if n < 0x80 {
        1
    } else if n < 0x800 {
        2
    } else if n < 0x10000 {
        3
    } else {
        4
    }
}

/// Whether the first `n` characters of `line` take more than five bytes.
fn lies_beyond_five(line: &Vec<char>, n: usize) -> (r: bool)
    requires
        n <= line@.len(),
    ensures
        r == (byte_offset(line@, n as int) > 5),
{
    let mut i: usize = 0;
    let mut bytes: usize = 0;
    while i < n
        invariant
            i <= n <= line@.len(),
            bytes == byte_offset(line@, i as int),
            bytes <= 5,
        decreases n - i,
    {
        let w = width_of(line[i]);
        assert(byte_offset(line@, i + 1) == byte_offset(line@, i as int) + utf8_width(
            line@[i as int],
        ));
        if bytes + w > 5 {
            proof {
                lemma_byte_offset_grows(line@, i + 1, n as int);
            }
            return true;
        }
        bytes = bytes + w;
        i += 1;
    }
    false
}

/// More characters never take fewer bytes.
pub proof fn lemma_byte_offset_grows(s: Seq<char>, a: int, b: int)
    requires
        0 <= a <= b <= s.len(),
    ensures
        byte_offset(s, a) <= byte_offset(s, b),
    decreases b - a,
{
    if a < b {
        lemma_byte_offset_grows(s, a, b - 1);
    }
}

/// The device that a line of the listing names, if it names one.
pub fn read_device_line(line: &Vec<char>) -> (r: Option<AudioDevice>)
    ensures
        match device_of_line(line@) {
            Some(d) => r.is_some() && r.unwrap()@ == d,
            None => r.is_none(),
        },
{
    let len = line.len();
    let open = match find_last(line, '[') {
        Some(i) => i,
        None => {
            return None;
        },
    };
    let close = match find_last(line, ']') {
        Some(i) => i,
        None => {
            return None;
        },
    };
    assert(open < len && close < len);
    if !(close > open + 1) {
        return None;
    }
    if !lies_beyond_five(line, open) {
        return None;
    }
    if parse_number(line, open + 1, close, 0xffff_ffff).is_none() {
        return None;
    }
    let name = trimmed(line, close + 1, len);
    if name.len() == 0 {
        return None;
    }
    let id = text_of(line, open + 1, close);
    let shown = text_of_all(&name);
    let device_type = classify_device(shown.as_str());
    Some(AudioDevice { id, name: shown, device_type })
}

fn push_device(out: &mut Vec<AudioDevice>, d: AudioDevice)
    ensures
        devices_view(final(out)@) == devices_view(old(out)@).push(d@),
{
    out.push(d);
    assert(devices_view(out@) =~= devices_view(old(out)@).push(d@));
}

/// The audio devices that the encoder's device listing names, in order, or
/// the default device alone where it names none.
pub fn parse_audio_devices(listing: &str) -> (out: Vec<AudioDevice>)
    ensures
        devices_view(out@) == devices_of(listing@),
        out@.len() >= 1,
{
    let chars = chars_of(listing);
    let rows = split_lines(&chars);
    let ghost all = rows.deep_view();
    let mut out: Vec<AudioDevice> = Vec::new();
    let mut active = false;
    let mut i: usize = 0;
    assert(all.subrange(0, all.len() as int) =~= all);
    assert(devices_view(out@) =~= Seq::empty());
    while i < rows.len()
        invariant
            i <= rows.len(),
            all == rows.deep_view(),
            listed_devices(all, false) == devices_view(out@) + listed_devices(
                all.subrange(i as int, all.len() as int),
                active,
            ),
        decreases rows.len() - i,
    {
        let ghost rest = all.subrange(i as int, all.len() as int);
        let ghost before = devices_view(out@);
        assert(rest[0] == rows[i as int]@);
        assert(rest.drop_first() =~= all.subrange(i + 1, all.len() as int));
        let row = &rows[i];
        if includes(row, "AVFoundation audio devices:") {
            active = true;
        } else {
            if includes(row, "AVFoundation video devices:") {
                active = false;
            }
            if active && !includes(row, "AVFoundation") {
                let line = text_of_all(row);
                let lower = line.as_str().to_lowercase();
                if !crate::text::text_includes(lower.as_str(), "error") {
                    match read_device_line(row) {
                        Some(d) => {
                            proof {
                                let tail = listed_devices(rest.drop_first(), active);
                                assert(before + (seq![d@] + tail) =~= before.push(d@) + tail);
                            }
                            push_device(&mut out, d);
                        },
                        None => {},
                    }
                }
            }
        }
        i += 1;
    }
    proof {
        assert(listed_devices(all.subrange(all.len() as int, all.len() as int), active)
            =~= Seq::empty());
        assert(devices_view(out@) + Seq::<AudioDeviceView>::empty() =~= devices_view(out@));
    }
    if out.len() == 0 {
        let d = AudioDevice {
            id: "0".to_string(),
            name: "Default Microphone".to_string(),
            device_type: "input".to_string(),
        };
        push_device(&mut out, d);
        assert(devices_view(out@) =~= seq![default_device()]);
    }
    out
}

/// The devices of a platform that has no listing: the default device alone.
pub fn default_devices() -> (out: Vec<AudioDevice>)
    ensures
        devices_view(out@) == seq![default_device()],
        out@.len() == 1,
{
    let mut out: Vec<AudioDevice> = Vec::new();
    let d = AudioDevice {
        id: "0".to_string(),
        name: "Default Microphone".to_string(),
        device_type: "input".to_string(),
    };
    assert(devices_view(out@) =~= Seq::empty());
    push_device(&mut out, d);
    assert(devices_view(out@) =~= seq![default_device()]);
    assert(devices_view(out@).len() == out@.len());
    out
}

/// The audio devices of a platform. Only macOS has a listing to read; the
/// other platforms have the default device alone.
pub open spec fn platform_devices(platform: Platform, listing: Seq<char>) -> Seq<AudioDeviceView> {
    if platform == Platform::MacOs {
        devices_of(listing)
    } else {
        seq![default_device()]
    }
}

/// The audio devices that can be recorded from on `platform`, where
/// `listing` is what the encoder printed when it was asked for the capture
/// devices. The list is never empty.
pub fn list_audio_devices(platform: Platform, listing: &str) -> (out: Vec<AudioDevice>)
    ensures
        devices_view(out@) == platform_devices(platform, listing@),
        out@.len() >= 1,
{
    if platform == Platform::MacOs {
        parse_audio_devices(listing)
    } else {
        default_devices()
    }
}

} // verus!

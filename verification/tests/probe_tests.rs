use clipforge::devices::{
    classify_device, default_devices, list_audio_devices, list_devices_arguments,
    parse_audio_devices, read_device_line,
};
use clipforge::clip::ClipSegment;
use clipforge::drive::{
    bearer, existing_folder, export_multi_clip_to_google_drive, export_to_google_drive,
    folder_metadata, staging_path, upload_link, upload_metadata, GoogleDriveConfig,
    GoogleDriveExportOptions, GoogleDriveMultiClipExportOptions,
};
use clipforge::import::{
    assemble_metadata, generate_thumbnail, hash_path, import_video, require_existing,
    thumbnail_path, thumbnail_timestamp, thumbnails_directory,
};
use clipforge::probe::{
    assemble_probe, audio_probe_arguments, count_audio_streams, find_stream, has_audio_stream,
    length_probe_arguments, probe_arguments, probe_of_document, probe_video_metadata,
    read_duration, read_length, read_probe_output, MediaProbe, ProbeErrorKind,
};
use clipforge::tools::{
    find_ffmpeg, find_ffprobe, find_screen_recorder, join_path, open_in_native_player,
    tool_candidates, ToolOutput,
};
use clipforge::routing::Platform;
use clipforge::transcript::{extract_audio, has_filler, require_audio, segment_text};
use clipforge::waveform::{
    decode_samples, energy, generate_waveform, pcm_arguments, sample_count, samples_file_name,
    stretch_energies,
};
use std::hash::{Hash, Hasher};

fn words(s: &str) -> Vec<String> {
    s.split(' ').map(|w| w.to_string()).collect()
}

const FULL: &str = r#"{
  "streams": [
    {"index": 0, "codec_type": "audio", "sample_rate": "48000"},
    {"index": 1, "codec_type": "video", "width": 1280, "height": 720},
    {"index": 2, "codec_type": "video", "width": 640, "height": 360}
  ],
  "format": {"filename": "a.mp4", "duration": "12.345600"}
}"#;

#[test]
fn probe_arguments_are_fixed() {
    assert_eq!(
        probe_arguments("a b.mp4"),
        vec!["-v", "quiet", "-print_format", "json", "-show_format", "-show_streams", "a b.mp4"]
    );
    assert_eq!(
        audio_probe_arguments("a.mp4"),
        words("-v quiet -print_format json -show_streams -select_streams a a.mp4")
    );
    assert_eq!(
        length_probe_arguments("a.mp4"),
        words("-v error -show_entries format=duration -of default=noprint_wrappers=1:nokey=1 a.mp4")
    );
}

#[test]
fn probe_reads_first_video_stream() {
    let p = read_probe_output(FULL).unwrap();
    assert_eq!(p.duration, 12346);
    assert_eq!(p.width, 1280);
    assert_eq!(p.height, 720);
    assert!(p.has_audio);
}

#[test]
fn probe_falls_back() {
    let p = read_probe_output(r#"{"streams": [{"codec_type": "video"}], "format": {}}"#).unwrap();
    assert_eq!((p.duration, p.width, p.height, p.has_audio), (0, 1920, 1080, false));
    let p = read_probe_output(
        r#"{"streams": [{"codec_type": "video", "width": "wide", "height": -4}], "format": {"duration": "N/A"}}"#,
    )
    .unwrap();
    assert_eq!((p.duration, p.width, p.height), (0, 1920, 1080));
    let p = read_probe_output(
        r#"{"streams": [{"codec_type": "video", "width": 4294967297, "height": 2.5}], "format": {"duration": 3}}"#,
    )
    .unwrap();
    assert_eq!((p.duration, p.width, p.height), (0, 1, 1080));
}

#[test]
fn probe_failures() {
    let e = read_probe_output(r#"{"streams": [{"codec_type": "audio"}]}"#).unwrap_err();
    assert_eq!(e.kind, ProbeErrorKind::NoVideoStream);
    assert_eq!(e.message, "No video stream found");
    let e = read_probe_output(r#"{"streams": [{"codec_type": 7}, 3, "video"]}"#).unwrap_err();
    assert_eq!(e.kind, ProbeErrorKind::NoVideoStream);
    let e = read_probe_output(r#"{"format": {"duration": "1.0"}}"#).unwrap_err();
    assert_eq!(e.kind, ProbeErrorKind::NoVideoStream);
    assert_eq!(e.message, "No streams found in video");
    let e = read_probe_output(r#"{"streams": {"codec_type": "video"}}"#).unwrap_err();
    assert_eq!(e.message, "No streams found in video");
    let e = read_probe_output("[1, 2]").unwrap_err();
    assert_eq!(e.message, "No streams found in video");
    let e = read_probe_output("").unwrap_err();
    assert_eq!(e.kind, ProbeErrorKind::MalformedOutput);
    let expected = format!(
        "Failed to parse ffprobe output: {}",
        serde_json::from_str::<serde_json::Value>("").unwrap_err()
    );
    assert_eq!(e.message, expected);
    let e = read_probe_output("{\"streams\": [").unwrap_err();
    assert_eq!(e.kind, ProbeErrorKind::MalformedOutput);
    assert!(e.message.starts_with("Failed to parse ffprobe output: "));
}

#[test]
fn probe_of_a_run() {
    let run = Ok(ToolOutput { success: true, stdout: FULL.to_string(), stderr: String::new() });
    assert_eq!(probe_video_metadata(&run).unwrap().width, 1280);
    let run = Ok(ToolOutput {
        success: false,
        stdout: FULL.to_string(),
        stderr: "moov atom not found".to_string(),
    });
    let e = probe_video_metadata(&run).unwrap_err();
    assert_eq!(e.kind, ProbeErrorKind::ToolFailed);
    assert_eq!(e.message, "ffprobe failed to read video metadata: moov atom not found");
    let e = probe_video_metadata(&Err("No such file".to_string())).unwrap_err();
    assert_eq!(e.kind, ProbeErrorKind::ToolUnavailable);
    assert_eq!(e.message, "Failed to run ffprobe. Make sure FFmpeg is installed. Error: No such file");
}

#[test]
fn probe_from_plain_values() {
    let p = assemble_probe(Some("2.5004"), Some((Some(800), None)), true).unwrap();
    assert_eq!((p.duration, p.width, p.height, p.has_audio), (2500, 800, 1080, true));
    let e = assemble_probe(Some("2.5"), None, true).unwrap_err();
    assert_eq!(e.kind, ProbeErrorKind::NoVideoStream);
    assert_eq!(read_duration(None), 0);
    assert_eq!(read_duration(Some("1.0005")), 1001);
    assert_eq!(read_duration(Some(" 1.0")), 0);
    assert_eq!(read_length("  7.25\n"), 7250);
    assert_eq!(read_length("\n"), 0);
    assert_eq!(read_length("N/A\n"), 0);
}

#[test]
fn probe_documents() {
    let doc: serde_json::Value = serde_json::from_str(FULL).unwrap();
    let p = probe_of_document(&doc).unwrap();
    assert_eq!((p.duration, p.width, p.height), (12346, 1280, 720));
    let streams = doc.get("streams").unwrap().as_array().unwrap();
    let video = find_stream(streams, "video").unwrap();
    assert_eq!(video.get("index").unwrap().as_u64(), Some(1));
    assert!(find_stream(streams, "subtitle").is_none());
}

#[test]
fn audio_probe_output() {
    assert!(has_audio_stream(r#"{"streams": [{"codec_type": "audio"}]}"#));
    assert!(!has_audio_stream(r#"{"streams": []}"#));
    assert!(!has_audio_stream(r#"{}"#));
    assert!(!has_audio_stream("garbage"));
    assert!(!has_audio_stream(""));
    assert_eq!(count_audio_streams(r#"{"streams": [1, 2, 3]}"#).unwrap(), 3);
    assert_eq!(count_audio_streams(r#"{"streams": 4}"#).unwrap(), 0);
    let e = count_audio_streams("garbage").unwrap_err();
    assert_eq!(e.kind, ProbeErrorKind::MalformedOutput);
    assert!(e.message.starts_with("Failed to parse ffprobe output: "));
}

#[test]
fn device_classification() {
    assert_eq!(classify_device("BlackHole 2ch"), "virtual");
    assert_eq!(classify_device("MacBook Pro Microphone"), "input");
    assert_eq!(classify_device("SOUNDFLOWER (64ch)"), "virtual");
    assert_eq!(classify_device("Loopback Audio"), "virtual");
    assert_eq!(classify_device("BLAC\u{212a}HOLE"), "virtual");
    assert_eq!(classify_device(""), "input");
}

#[test]
fn empty_listing_yields_default_device() {
    let d = parse_audio_devices("");
    assert_eq!(d.len(), 1);
    assert_eq!((d[0].id.as_str(), d[0].name.as_str(), d[0].device_type.as_str()), ("0", "Default Microphone", "input"));
    let d = default_devices();
    assert_eq!(d.len(), 1);
    assert_eq!(d[0].name, "Default Microphone");
    let d = parse_audio_devices("ffmpeg version 6\nno devices here\n");
    assert_eq!(d.len(), 1);
    assert_eq!(d[0].id, "0");
}

const LISTING: &str = "ffmpeg version 6.0\n\
[AVFoundation indev @ 0x7fa] AVFoundation video devices:\n\
[AVFoundation indev @ 0x7fa] [0] FaceTime HD Camera\n\
[AVFoundation indev @ 0x7fa] [1] Capture screen 0\n\
[AVFoundation indev @ 0x7fa] AVFoundation audio devices:\n\
[AVFoundation indev @ 0x7fa] [0] MacBook Pro Microphone\n\
[in#0 @ 0x600] [1] BlackHole 2ch\r\n\
[in#0 @ 0x600] [x] Not A Number\n\
[in#0 @ 0x600] [2]   \n\
[in#0 @ 0x600] [3] Broken Error Device\n\
[4] Too Early\n\
[in#0 @ 0x600] [5]  USB [Audio] Interface \n\
[in#0 @ 0x600] [] Empty\n\
: Input/output error\n";

#[test]
fn devices_are_listed() {
    let d = parse_audio_devices(LISTING);
    let got: Vec<(&str, &str, &str)> =
        d.iter().map(|x| (x.id.as_str(), x.name.as_str(), x.device_type.as_str())).collect();
    assert_eq!(got, vec![("1", "BlackHole 2ch", "virtual")]);
    let d = parse_audio_devices(
        "[x @ 0x1] AVFoundation audio devices:\n[in#0 @ 0x600] [0] Mic One\n[in#0 @ 0x600] [12] Loopback Two\n[x] AVFoundation video devices:\n[in#0 @ 0x600] [3] Camera\n",
    );
    let got: Vec<(&str, &str, &str)> =
        d.iter().map(|x| (x.id.as_str(), x.name.as_str(), x.device_type.as_str())).collect();
    assert_eq!(got, vec![("0", "Mic One", "input"), ("12", "Loopback Two", "virtual")]);
}

fn device_line(s: &str) -> Option<(String, String, String)> {
    let c: Vec<char> = s.chars().collect();
    read_device_line(&c).map(|d| (d.id, d.name, d.device_type))
}

#[test]
fn device_lines() {
    assert_eq!(
        device_line("[in#0 @ 0x600] [7] Mic"),
        Some(("7".to_string(), "Mic".to_string(), "input".to_string()))
    );
    assert_eq!(device_line("12345 [7] Mic").map(|d| d.0), Some("7".to_string()));
    assert_eq!(device_line("1234 [7] Mic"), None);
    assert_eq!(device_line("éé [7] Mic").map(|d| d.1), None);
    assert_eq!(device_line("ééé[7] Mic").map(|d| d.1), Some("Mic".to_string()));
    assert_eq!(device_line("[in#0 @ 0x600] [99999999999] Mic"), None);
    assert_eq!(device_line("[in#0 @ 0x600] [+7] Mic").map(|d| d.0), Some("+7".to_string()));
    assert_eq!(device_line("[in#0 @ 0x600] ]7[ Mic"), None);
    assert_eq!(device_line("no brackets"), None);
    assert_eq!(list_devices_arguments(), vec!["-f", "avfoundation", "-list_devices", "true", "-i", ""]);
}

#[test]
fn tools_are_found() {
    assert_eq!(
        tool_candidates("ffmpeg"),
        vec!["ffmpeg", "/opt/homebrew/bin/ffmpeg", "/usr/local/bin/ffmpeg"]
    );
    assert_eq!(find_ffmpeg(&vec![true, true, true]), "ffmpeg");
    assert_eq!(find_ffmpeg(&vec![false, true, true]), "/opt/homebrew/bin/ffmpeg");
    assert_eq!(find_ffmpeg(&vec![false, false, true]), "/usr/local/bin/ffmpeg");
    assert_eq!(find_ffmpeg(&vec![false, false, false]), "ffmpeg");
    assert_eq!(find_ffmpeg(&vec![]), "ffmpeg");
    assert_eq!(find_ffprobe(&vec![false, true]), "/opt/homebrew/bin/ffprobe");
    assert_eq!(find_ffprobe(&vec![false]), "ffprobe");
}

#[test]
fn paths_are_joined_like_the_standard_library() {
    for (base, name) in [
        ("/tmp", "a.txt"),
        ("/tmp/", "a.txt"),
        ("", "a.txt"),
        ("rel/dir", "x"),
        ("/tmp", "/abs"),
        ("/", "x"),
        ("/tmp", ""),
    ] {
        let expected = std::path::Path::new(base).join(name);
        assert_eq!(join_path(base, name), expected.to_str().unwrap());
    }
    assert_eq!(find_screen_recorder("/app/src-tauri"), "/app/src-tauri/swift-helper/ScreenRecorder");
}

#[test]
fn players() {
    assert_eq!(
        open_in_native_player(Platform::MacOs, "a.mp4"),
        ("open".to_string(), vec!["a.mp4".to_string()])
    );
    assert_eq!(
        open_in_native_player(Platform::Linux, "a.mp4"),
        ("xdg-open".to_string(), vec!["a.mp4".to_string()])
    );
    assert_eq!(
        open_in_native_player(Platform::Windows, "a.mp4"),
        ("cmd".to_string(), vec!["/C".to_string(), "start".to_string(), "".to_string(), "a.mp4".to_string()])
    );
}

#[test]
fn imports() {
    assert!(require_existing(true).is_ok());
    assert_eq!(require_existing(false).unwrap_err(), "File does not exist");
    let probe = MediaProbe { duration: 12345, width: 640, height: 480, has_audio: true };
    let m = import_video("/videos/My Clip.mp4", &probe, Ok("/tmp/t.jpg".to_string()));
    assert_eq!(m.path, "/videos/My Clip.mp4");
    assert_eq!(m.filename, "My Clip.mp4");
    assert_eq!(m.duration, Some(12345));
    assert_eq!((m.width, m.height), (Some(640), Some(480)));
    assert_eq!(m.thumbnail_path, Some("/tmp/t.jpg".to_string()));
    let m = import_video("/videos/..", &probe, Err("no ffmpeg".to_string()));
    assert_eq!(m.filename, "unknown");
    assert_eq!(m.thumbnail_path, None);
    let m = assemble_metadata("p", Some("n".to_string()), &probe, Err(String::new()));
    assert_eq!((m.path.as_str(), m.filename.as_str()), ("p", "n"));
}

#[test]
fn thumbnails() {
    assert_eq!(thumbnail_timestamp(0), "0");
    assert_eq!(thumbnail_timestamp(10000), "1");
    assert_eq!(thumbnail_timestamp(12345), "1.2345");
    assert_eq!(thumbnail_timestamp(12340), "1.234");
    assert_eq!(thumbnail_timestamp(5), "0.0005");
    assert_eq!(thumbnail_timestamp(19999), "1.9999");
    assert_eq!(thumbnail_timestamp(20000), "2");
    assert_eq!(thumbnail_timestamp(3600000), "2");
    assert_eq!(thumbnail_timestamp(-15), "-0.0015");
    for path in ["", "/videos/a.mp4", "/vidéos/ü.mp4"] {
        let mut h = std::collections::hash_map::DefaultHasher::new();
        path.hash(&mut h);
        assert_eq!(hash_path(path), h.finish());
        assert_eq!(
            thumbnail_path("/tmp", path),
            format!("/tmp/clipforge_thumbnails/thumb_{}.jpg", h.finish())
        );
    }
    assert_eq!(thumbnails_directory("/tmp/"), "/tmp/clipforge_thumbnails");
    assert_eq!(
        generate_thumbnail("a.mp4", 12345, "/tmp/t.jpg"),
        words("-ss 1.2345 -i a.mp4 -vframes 1 -vf scale=320:-1 -q:v 2 -y /tmp/t.jpg")
    );
}

#[test]
fn waveforms() {
    assert_eq!(sample_count(None), 200);
    assert_eq!(sample_count(Some(5)), 5);
    assert_eq!(samples_file_name(1700000000123), "waveform_1700000000123.raw");
    assert_eq!(
        pcm_arguments("a.mp4", "/tmp/w.raw"),
        words("-i a.mp4 -vn -acodec pcm_s16le -ar 8000 -ac 1 -f s16le -y /tmp/w.raw")
    );
    let bytes: Vec<u8> = vec![0x01, 0x00, 0xff, 0xff, 0x00, 0x80, 0xff, 0x7f, 0x34, 0x12, 0x99];
    let samples = decode_samples(&bytes);
    assert_eq!(samples, vec![1, -1, -32768, 32767, 0x1234]);
    for pair in bytes.chunks_exact(2) {
        assert_eq!(decode_samples(&pair.to_vec()), vec![i16::from_le_bytes([pair[0], pair[1]])]);
    }
    assert_eq!(energy(&samples, 0, 2), 2);
    assert_eq!(energy(&samples, 2, 4), 32768u128 * 32768 + 32767 * 32767);
    assert_eq!(energy(&samples, 3, 3), 0);
    let s: Vec<i16> = vec![1, 2, 3, 4, 5, 6, 7];
    assert_eq!(stretch_energies(&s, 3), (vec![1 + 4, 9 + 16, 25 + 36], 2));
    assert_eq!(stretch_energies(&s, 7), (vec![1, 4, 9, 16, 25, 36, 49], 1));
    assert_eq!(stretch_energies(&s, 10), (vec![0; 10], 0));
    assert_eq!(stretch_energies(&s, 0), (vec![], 0));
    assert_eq!(stretch_energies(&vec![], 4), (vec![0; 4], 0));
    let raw: Vec<u8> = vec![3, 0, 0xfc, 0xff, 5, 0, 0xfa, 0xff, 9];
    assert_eq!(generate_waveform(&raw, 2), (vec![9 + 16, 25 + 36], 2));
    assert_eq!(generate_waveform(&vec![], 3), (vec![0, 0, 0], 0));
}

#[test]
fn devices_by_platform() {
    let listing = "[x @ 0x1] AVFoundation audio devices:\n[in#0 @ 0x600] [0] Mic One\n";
    let names = |platform| -> Vec<String> {
        list_audio_devices(platform, listing).into_iter().map(|d| d.name).collect()
    };
    assert_eq!(names(Platform::MacOs), vec!["Mic One"]);
    assert_eq!(names(Platform::Linux), vec!["Default Microphone"]);
    assert_eq!(names(Platform::Windows), vec!["Default Microphone"]);
    assert_eq!(list_audio_devices(Platform::MacOs, "").len(), 1);
}

#[test]
fn drive_uploads() {
    let m = folder_metadata();
    assert_eq!(m.name, "ClipForge");
    assert_eq!(m.parents, None);
    assert_eq!(m.mime_type, Some("application/vnd.google-apps.folder".to_string()));
    let m = upload_metadata("clip.mp4", "folder1");
    assert_eq!(m.name, "clip.mp4");
    assert_eq!(m.parents, Some(vec!["folder1".to_string()]));
    assert_eq!(m.mime_type, Some("video/mp4".to_string()));
    assert_eq!(bearer(&GoogleDriveConfig { api_key: "tok".to_string() }), "Bearer tok");
    assert_eq!(staging_path("/tmp", "clip.mp4"), "/tmp/clipforge_gdrive_clip.mp4");
    assert_eq!(existing_folder(&vec![]), None);
    assert_eq!(existing_folder(&vec!["a".to_string(), "b".to_string()]), Some("a".to_string()));
    assert_eq!(
        upload_link(r#"{"id": "f1", "webViewLink": "https://drive/f1"}"#).unwrap(),
        "https://drive/f1"
    );
    assert_eq!(upload_link(r#"{"id": "f1"}"#).unwrap(), "No link available");
    assert_eq!(upload_link(r#"{"webViewLink": "x"}"#).unwrap_err(), "No file ID in response");
    assert_eq!(upload_link(r#"{"id": 5}"#).unwrap_err(), "No file ID in response");
    assert!(upload_link("oops").unwrap_err().starts_with("Failed to parse upload response: "));
}

#[test]
fn drive_exports_are_staged() {
    let o = GoogleDriveExportOptions {
        input_path: "in.mp4".to_string(),
        filename: "clip.mp4".to_string(),
        api_key: "tok".to_string(),
        trim_start: Some(1500),
        trim_end: None,
    };
    let local = export_to_google_drive(&o, "/tmp");
    assert_eq!(local.input_path, "in.mp4");
    assert_eq!(local.output_path, "/tmp/clipforge_gdrive_clip.mp4");
    assert_eq!((local.trim_start, local.trim_end), (Some(1500), None));
    let clip = |path: &str| ClipSegment {
        input_path: path.to_string(),
        trim_start: None,
        trim_end: None,
        audio_trim_start: None,
        audio_trim_end: None,
        is_video_muted: None,
        is_audio_muted: Some(true),
        is_audio_linked: None,
        audio_offset: None,
    };
    let o = GoogleDriveMultiClipExportOptions {
        clips: vec![clip("a.mp4"), clip("b.mp4")],
        filename: "all.mp4".to_string(),
        api_key: "tok".to_string(),
    };
    let (local, filename, api_key) = export_multi_clip_to_google_drive(o, "/tmp/");
    assert_eq!(local.output_path, "/tmp/clipforge_gdrive_all.mp4");
    assert_eq!(local.clips.len(), 2);
    assert_eq!(local.clips[0].input_path, "a.mp4");
    assert_eq!(local.clips[1].input_path, "b.mp4");
    assert_eq!(local.clips[1].is_audio_muted, Some(true));
    assert_eq!((filename.as_str(), api_key.as_str()), ("all.mp4", "tok"));
}

#[test]
fn transcripts() {
    assert_eq!(
        extract_audio("a.mp4", "/tmp/a.mp3"),
        words("-i a.mp4 -vn -acodec libmp3lame -ab 192k -ar 44100 -af aresample=async=1:first_pts=0 -y /tmp/a.mp3")
    );
    assert_eq!(require_audio(r#"{"streams": [{}, {}]}"#).unwrap(), 2);
    assert_eq!(
        require_audio(r#"{"streams": []}"#).unwrap_err(),
        "This video has no audio track. Please select a video with audio to transcribe."
    );
    assert!(require_audio("x").unwrap_err().starts_with("Failed to parse ffprobe output: "));
    assert!(has_filler(" Um, hello"));
    assert!(has_filler("You Know what"));
    assert!(has_filler("also"));
    assert!(!has_filler("Hello there"));
    assert_eq!(segment_text("  Hello there \n"), "Hello there");
}

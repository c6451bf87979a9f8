//! The encoder's invocation for a recording: the ordered argument list that
//! a capture mode, an audio routing and a platform call for.

use vstd::prelude::*;
use vstd::string::StringExecFns;
use crate::routing::{
    audio_bitrate, bitrate, mic_active, mic_device, microphone_active, microphone_device,
    system_active, system_audio_active, system_audio_device, system_device, AudioSettings,
    CaptureMode, Platform,
};
use crate::text::{concat2, extend_args, push_arg, push_owned};

verus! {

/// Options that stand before every input.
pub open spec fn global_args() -> Seq<Seq<char>> {
    seq!["-loglevel"@, "verbose"@, "-rtbufsize"@, "200M"@]
}

/// One audio-only input beside a screen capture.
pub open spec fn screen_audio_input(device: Seq<char>) -> Seq<Seq<char>> {
    seq![
        "-probesize"@,
        "100M"@,
        "-rtbufsize"@,
        "200M"@,
        "-f"@,
        "avfoundation"@,
        "-thread_queue_size"@,
        "8192"@,
        "-i"@,
        ":"@ + device,
    ]
}

/// One audio-only input beside the two video inputs of a combined capture.
pub open spec fn combo_audio_input(device: Seq<char>) -> Seq<Seq<char>> {
    seq![
        "-probesize"@,
        "100M"@,
        "-rtbufsize"@,
        "200M"@,
        "-thread_queue_size"@,
        "8192"@,
        "-f"@,
        "avfoundation"@,
        "-i"@,
        ":"@ + device,
    ]
}

/// The inputs of a screen capture on macOS: the screen, and with it or
/// beside it the audio sources that are active.
pub open spec fn mac_screen_inputs(audio: Option<AudioSettings>) -> Seq<Seq<char>> {
    let head = seq![
        "-f"@,
        "avfoundation"@,
        "-capture_cursor"@,
        "1"@,
        "-framerate"@,
        "15"@,
        "-use_wallclock_as_timestamps"@,
        "1"@,
    ];
    if mic_active(audio) && system_active(audio) {
        head + seq!["-i"@, "1:none"@] + screen_audio_input(mic_device(audio)) + screen_audio_input(
            system_device(audio),
        )
    } else if mic_active(audio) {
        head + seq!["-i"@, "1:"@ + mic_device(audio)]
    } else if system_active(audio) {
        head + seq!["-i"@, "1:"@ + system_device(audio)]
    } else {
        head + seq!["-i"@, "1:none"@]
    }
}

/// The input of a webcam capture on macOS, with the microphone on the same
/// input where it is active, and both streams mapped.
pub open spec fn mac_webcam_inputs(audio: Option<AudioSettings>) -> Seq<Seq<char>> {
    let head = seq![
        "-f"@,
        "avfoundation"@,
        "-framerate"@,
        "30"@,
        "-use_wallclock_as_timestamps"@,
        "1"@,
    ];
    if mic_active(audio) {
        head + seq!["-i"@, "0:"@ + mic_device(audio), "-map"@, "0:v"@, "-map"@, "0:a"@]
    } else {
        head + seq!["-i"@, "0:none"@]
    }
}

/// The two video inputs of a combined capture on macOS.
pub open spec fn mac_combo_video_inputs() -> Seq<Seq<char>> {
    seq![
        "-thread_queue_size"@,
        "2048"@,
        "-f"@,
        "avfoundation"@,
        "-capture_cursor"@,
        "1"@,
        "-framerate"@,
        "30"@,
        "-use_wallclock_as_timestamps"@,
        "1"@,
        "-i"@,
        "1:none"@,
        "-thread_queue_size"@,
        "2048"@,
        "-f"@,
        "avfoundation"@,
        "-framerate"@,
        "30"@,
        "-use_wallclock_as_timestamps"@,
        "1"@,
        "-i"@,
        "0:none"@,
    ]
}

/// The inputs of a combined capture on macOS: screen, webcam, then one
/// input for each active audio source.
pub open spec fn mac_combo_inputs(audio: Option<AudioSettings>) -> Seq<Seq<char>> {
    let video = mac_combo_video_inputs();
    if mic_active(audio) && system_active(audio) {
        video + combo_audio_input(mic_device(audio)) + combo_audio_input(system_device(audio))
    } else if mic_active(audio) {
        video + combo_audio_input(mic_device(audio))
    } else if system_active(audio) {
        video + combo_audio_input(system_device(audio))
    } else {
        video
    }
}

/// Whether a platform can capture in a mode. Only macOS combines screen and
/// webcam.
pub open spec fn mode_supported(platform: Platform, mode: CaptureMode) -> bool {
    platform == Platform::MacOs || mode != CaptureMode::Combo
}

/// The inputs of a recording.
pub open spec fn input_args(platform: Platform, mode: CaptureMode, audio: Option<AudioSettings>) -> Seq<
    Seq<char>,
> {
    match (platform, mode) {
        (Platform::MacOs, CaptureMode::Screen) => mac_screen_inputs(audio),
        (Platform::MacOs, CaptureMode::Webcam) => mac_webcam_inputs(audio),
        (Platform::MacOs, CaptureMode::Combo) => mac_combo_inputs(audio),
        (Platform::Windows, CaptureMode::Screen) => seq![
            "-f"@,
            "gdigrab"@,
            "-i"@,
            "desktop"@,
            "-r"@,
            "30"@,
        ],
        (Platform::Windows, CaptureMode::Webcam) => seq![
            "-f"@,
            "dshow"@,
            "-i"@,
            "video="@,
            "-r"@,
            "30"@,
        ],
        (Platform::Linux, CaptureMode::Screen) => seq![
            "-f"@,
            "x11grab"@,
            "-i"@,
            ":0.0"@,
            "-r"@,
            "30"@,
        ],
        (Platform::Linux, CaptureMode::Webcam) => seq![
            "-f"@,
            "v4l2"@,
            "-i"@,
            "/dev/video0"@,
            "-r"@,
            "30"@,
        ],
        _ => Seq::empty(),
    }
}

fn push_screen_audio_input(v: &mut Vec<String>, device: &str)
    ensures
        final(v).deep_view() == old(v).deep_view() + screen_audio_input(device@),
{
    push_arg(v, "-probesize");
    push_arg(v, "100M");
    push_arg(v, "-rtbufsize");
    push_arg(v, "200M");
    push_arg(v, "-f");
    push_arg(v, "avfoundation");
    push_arg(v, "-thread_queue_size");
    push_arg(v, "8192");
    push_arg(v, "-i");
    push_owned(v, concat2(":", device));
    assert(v.deep_view() =~= old(v).deep_view() + screen_audio_input(device@));
}

fn push_combo_audio_input(v: &mut Vec<String>, device: &str)
    ensures
        final(v).deep_view() == old(v).deep_view() + combo_audio_input(device@),
{
    push_arg(v, "-probesize");
    push_arg(v, "100M");
    push_arg(v, "-rtbufsize");
    push_arg(v, "200M");
    push_arg(v, "-thread_queue_size");
    push_arg(v, "8192");
    push_arg(v, "-f");
    push_arg(v, "avfoundation");
    push_arg(v, "-i");
    push_owned(v, concat2(":", device));
    assert(v.deep_view() =~= old(v).deep_view() + combo_audio_input(device@));
}

fn build_mac_screen_inputs(audio: &Option<AudioSettings>) -> (v: Vec<String>)
    ensures
        v.deep_view() == mac_screen_inputs(*audio),
{
    let mut v: Vec<String> = Vec::new();
    push_arg(&mut v, "-f");
    push_arg(&mut v, "avfoundation");
    push_arg(&mut v, "-capture_cursor");
    push_arg(&mut v, "1");
    push_arg(&mut v, "-framerate");
    push_arg(&mut v, "15");
    push_arg(&mut v, "-use_wallclock_as_timestamps");
    push_arg(&mut v, "1");
    push_arg(&mut v, "-i");
    let mic = microphone_active(audio);
    let system = system_audio_active(audio);
    if mic && system {
        push_arg(&mut v, "1:none");
        let mic_name = microphone_device(audio);
        push_screen_audio_input(&mut v, mic_name.as_str());
        let system_name = system_audio_device(audio);
        push_screen_audio_input(&mut v, system_name.as_str());
    } else if mic {
        let mic_name = microphone_device(audio);
        push_owned(&mut v, concat2("1:", mic_name.as_str()));
    } else if system {
        let system_name = system_audio_device(audio);
        push_owned(&mut v, concat2("1:", system_name.as_str()));
    } else {
        push_arg(&mut v, "1:none");
    }
    assert(v.deep_view() =~= mac_screen_inputs(*audio));
    v
}

fn build_mac_webcam_inputs(audio: &Option<AudioSettings>) -> (v: Vec<String>)
    ensures
        v.deep_view() == mac_webcam_inputs(*audio),
{
    let mut v: Vec<String> = Vec::new();
    push_arg(&mut v, "-f");
    push_arg(&mut v, "avfoundation");
    push_arg(&mut v, "-framerate");
    push_arg(&mut v, "30");
    push_arg(&mut v, "-use_wallclock_as_timestamps");
    push_arg(&mut v, "1");
    push_arg(&mut v, "-i");
    if microphone_active(audio) {
        let mic_name = microphone_device(audio);
        push_owned(&mut v, concat2("0:", mic_name.as_str()));
        push_arg(&mut v, "-map");
        push_arg(&mut v, "0:v");
        push_arg(&mut v, "-map");
        push_arg(&mut v, "0:a");
    } else {
        push_arg(&mut v, "0:none");
    }
    assert(v.deep_view() =~= mac_webcam_inputs(*audio));
    v
}

fn build_mac_combo_inputs(audio: &Option<AudioSettings>) -> (v: Vec<String>)
    ensures
        v.deep_view() == mac_combo_inputs(*audio),
{
    let mut v: Vec<String> = Vec::new();
    push_arg(&mut v, "-thread_queue_size");
    push_arg(&mut v, "2048");
    push_arg(&mut v, "-f");
    push_arg(&mut v, "avfoundation");
    push_arg(&mut v, "-capture_cursor");
    push_arg(&mut v, "1");
    push_arg(&mut v, "-framerate");
    push_arg(&mut v, "30");
    push_arg(&mut v, "-use_wallclock_as_timestamps");
    push_arg(&mut v, "1");
    push_arg(&mut v, "-i");
    push_arg(&mut v, "1:none");
    push_arg(&mut v, "-thread_queue_size");
    push_arg(&mut v, "2048");
    push_arg(&mut v, "-f");
    push_arg(&mut v, "avfoundation");
    push_arg(&mut v, "-framerate");
    push_arg(&mut v, "30");
    push_arg(&mut v, "-use_wallclock_as_timestamps");
    push_arg(&mut v, "1");
    push_arg(&mut v, "-i");
    push_arg(&mut v, "0:none");
    assert(v.deep_view() =~= mac_combo_video_inputs());
    let mic = microphone_active(audio);
    let system = system_audio_active(audio);
    if mic {
        let mic_name = microphone_device(audio);
        push_combo_audio_input(&mut v, mic_name.as_str());
    }
    if system {
        let system_name = system_audio_device(audio);
        push_combo_audio_input(&mut v, system_name.as_str());
    }
    assert(v.deep_view() =~= mac_combo_inputs(*audio));
    v
}

fn build_plain_inputs(format: &str, source: &str) -> (v: Vec<String>)
    ensures
        v.deep_view() == seq!["-f"@, format@, "-i"@, source@, "-r"@, "30"@],
{
    let mut v: Vec<String> = Vec::new();
    push_arg(&mut v, "-f");
    push_arg(&mut v, format);
    push_arg(&mut v, "-i");
    push_arg(&mut v, source);
    push_arg(&mut v, "-r");
    push_arg(&mut v, "30");
    assert(v.deep_view() =~= seq!["-f"@, format@, "-i"@, source@, "-r"@, "30"@]);
    v
}

/// The inputs of a recording, for a mode that the platform supports.
fn build_inputs(platform: Platform, mode: CaptureMode, audio: &Option<AudioSettings>) -> (v:
    Vec<String>)
    requires
        mode_supported(platform, mode),
    ensures
        v.deep_view() == input_args(platform, mode, *audio),
{
    match platform {
        Platform::MacOs => match mode {
            CaptureMode::Screen => build_mac_screen_inputs(audio),
            CaptureMode::Webcam => build_mac_webcam_inputs(audio),
            CaptureMode::Combo => build_mac_combo_inputs(audio),
        },
        Platform::Windows => match mode {
            CaptureMode::Screen => build_plain_inputs("gdigrab", "desktop"),
            _ => build_plain_inputs("dshow", "video="),
        },
        Platform::Linux => match mode {
            CaptureMode::Screen => build_plain_inputs("x11grab", ":0.0"),
            _ => build_plain_inputs("v4l2", "/dev/video0"),
        },
    }
}

/// Whether the recording overlays the webcam on the screen.
pub open spec fn is_overlay(platform: Platform, mode: CaptureMode) -> bool {
    platform == Platform::MacOs && mode == CaptureMode::Combo
}

/// Whether two separate audio inputs are mixed beside a screen capture.
pub open spec fn is_screen_mix(
    platform: Platform,
    mode: CaptureMode,
    audio: Option<AudioSettings>,
) -> bool {
    platform == Platform::MacOs && mode == CaptureMode::Screen && mic_active(audio)
        && system_active(audio)
}

/// The plain scaling of a single video input. An overlay scales in its
/// filter graph instead.
pub open spec fn scale_args(platform: Platform, mode: CaptureMode) -> Seq<Seq<char>> {
    if is_overlay(platform, mode) {
        Seq::empty()
    } else {
        seq!["-vf"@, "scale=1280:720:force_original_aspect_ratio=decrease:force_divisible_by=2"@]
    }
}

/// The video encoder: the hardware encoder on macOS, the software encoder
/// elsewhere.
pub open spec fn encoder_args(platform: Platform) -> Seq<Seq<char>> {
    if platform == Platform::MacOs {
        seq![
            "-c:v"@,
            "h264_videotoolbox"@,
            "-b:v"@,
            "5000k"@,
            "-allow_sw"@,
            "1"@,
            "-require_sw"@,
            "0"@,
        ]
    } else {
        seq!["-c:v"@, "libx264"@, "-preset"@, "ultrafast"@, "-crf"@, "23"@]
    }
}

/// What every recording's output obeys: a constant frame rate, a keyframe
/// interval equal to it, no B-frames, metadata before payload, and the
/// standard timescale.
pub open spec fn output_contract_args() -> Seq<Seq<char>> {
    seq![
        "-pix_fmt"@,
        "yuv420p"@,
        "-r"@,
        "15"@,
        "-vsync"@,
        "cfr"@,
        "-g"@,
        "15"@,
        "-bf"@,
        "0"@,
        "-movflags"@,
        "+faststart"@,
        "-video_track_timescale"@,
        "90000"@,
    ]
}

/// The filter graph that scales the screen, scales the webcam down and lays
/// it over the screen's lower right corner with a margin of 20 pixels.
pub open spec fn overlay_graph() -> Seq<char> {
    "[0:v]fps=15,setpts=PTS-STARTPTS,scale=1280:720:force_original_aspect_ratio=decrease:force_divisible_by=2[screen];[1:v]fps=15,setpts=PTS-STARTPTS,scale=213:120:force_original_aspect_ratio=decrease:force_divisible_by=2[webcam];[screen][webcam]overlay=W-w-20:H-h-20:shortest=1[vout]"@
}

/// The filter-graph fragment that merges the third and fourth input's
/// audio, each with its timestamps reset, into one stream.
pub open spec fn overlay_mix_graph() -> Seq<char> {
    ";[2:a]asetpts=PTS-STARTPTS[a1];[3:a]asetpts=PTS-STARTPTS[a2];[a1][a2]amix=inputs=2:duration=first:dropout_transition=2[aout]"@
}

/// The filter-graph fragment that passes the third input's audio on.
pub open spec fn overlay_single_graph() -> Seq<char> {
    ";[2:a]asetpts=PTS-STARTPTS[aout]"@
}

/// The filter graph that merges the second and third input's audio beside
/// a screen capture.
pub open spec fn screen_mix_graph() -> Seq<char> {
    "[1:a]asetpts=PTS-STARTPTS[a1];[2:a]asetpts=PTS-STARTPTS[a2];[a1][a2]amix=inputs=2:duration=first:dropout_transition=2[aout]"@
}

/// The filter graph of a recording and the mapping of its named outputs,
/// where the recording has one: always for an overlay, and for a screen
/// capture with two audio sources.
pub open spec fn graph_args(platform: Platform, mode: CaptureMode, audio: Option<AudioSettings>) -> Seq<
    Seq<char>,
> {
    if is_overlay(platform, mode) {
        if mic_active(audio) && system_active(audio) {
            seq![
                "-filter_complex"@,
                overlay_graph() + overlay_mix_graph(),
                "-map"@,
                "[vout]"@,
                "-map"@,
                "[aout]"@,
            ]
        } else if mic_active(audio) || system_active(audio) {
            seq![
                "-filter_complex"@,
                overlay_graph() + overlay_single_graph(),
                "-map"@,
                "[vout]"@,
                "-map"@,
                "[aout]"@,
            ]
        } else {
            seq!["-filter_complex"@, overlay_graph(), "-map"@, "[vout]"@]
        }
    } else if is_screen_mix(platform, mode, audio) {
        seq!["-filter_complex"@, screen_mix_graph(), "-map"@, "0:v"@, "-map"@, "[aout]"@]
    } else {
        Seq::empty()
    }
}

/// Whether any audio source is active.
pub open spec fn has_audio(audio: Option<AudioSettings>) -> bool {
    mic_active(audio) || system_active(audio)
}

/// The audio encoding of a recording with an active audio source, and on
/// macOS the timestamp reset of an audio stream that no filter graph
/// handles.
pub open spec fn audio_encoding_args(
    platform: Platform,
    mode: CaptureMode,
    audio: Option<AudioSettings>,
) -> Seq<Seq<char>> {
    if !has_audio(audio) {
        Seq::empty()
    } else {
        let encoding = seq![
            "-c:a"@,
            "aac"@,
            "-b:a"@,
            bitrate(audio),
            "-profile:a"@,
            "aac_low"@,
            "-ar"@,
            "48000"@,
            "-ac"@,
            "2"@,
        ];
        if platform == Platform::MacOs && mode != CaptureMode::Combo && !is_screen_mix(
            platform,
            mode,
            audio,
        ) {
            encoding + seq!["-af"@, "asetpts=PTS-STARTPTS"@]
        } else {
            encoding
        }
    }
}

/// The whole argument list of a recording, in order.
pub open spec fn recording_args(
    platform: Platform,
    mode: CaptureMode,
    audio: Option<AudioSettings>,
    output_path: Seq<char>,
) -> Seq<Seq<char>> {
    global_args() + input_args(platform, mode, audio) + scale_args(platform, mode) + encoder_args(
        platform,
    ) + output_contract_args() + graph_args(platform, mode, audio) + audio_encoding_args(
        platform,
        mode,
        audio,
    ) + seq!["-y"@, output_path]
}

fn push_scale(v: &mut Vec<String>, platform: Platform, mode: CaptureMode)
    ensures
        final(v).deep_view() == old(v).deep_view() + scale_args(platform, mode),
{
    if !(platform == Platform::MacOs && mode == CaptureMode::Combo) {
        push_arg(v, "-vf");
        push_arg(v, "scale=1280:720:force_original_aspect_ratio=decrease:force_divisible_by=2");
    }
    assert(v.deep_view() =~= old(v).deep_view() + scale_args(platform, mode));
}

fn push_encoder(v: &mut Vec<String>, platform: Platform)
    ensures
        final(v).deep_view() == old(v).deep_view() + encoder_args(platform),
{
    if platform == Platform::MacOs {
        push_arg(v, "-c:v");
        push_arg(v, "h264_videotoolbox");
        push_arg(v, "-b:v");
        push_arg(v, "5000k");
        push_arg(v, "-allow_sw");
        push_arg(v, "1");
        push_arg(v, "-require_sw");
        push_arg(v, "0");
    } else {
        push_arg(v, "-c:v");
        push_arg(v, "libx264");
        push_arg(v, "-preset");
        push_arg(v, "ultrafast");
        push_arg(v, "-crf");
        push_arg(v, "23");
    }
    assert(v.deep_view() =~= old(v).deep_view() + encoder_args(platform));
}

fn push_output_contract(v: &mut Vec<String>)
    ensures
        final(v).deep_view() == old(v).deep_view() + output_contract_args(),
{
    push_arg(v, "-pix_fmt");
    push_arg(v, "yuv420p");
    push_arg(v, "-r");
    push_arg(v, "15");
    push_arg(v, "-vsync");
    push_arg(v, "cfr");
    push_arg(v, "-g");
    push_arg(v, "15");
    push_arg(v, "-bf");
    push_arg(v, "0");
    push_arg(v, "-movflags");
    push_arg(v, "+faststart");
    push_arg(v, "-video_track_timescale");
    push_arg(v, "90000");
    assert(v.deep_view() =~= old(v).deep_view() + output_contract_args());
}

fn overlay_graph_text() -> (s: String)
    ensures
        s@ == overlay_graph(),
{
    "[0:v]fps=15,setpts=PTS-STARTPTS,scale=1280:720:force_original_aspect_ratio=decrease:force_divisible_by=2[screen];[1:v]fps=15,setpts=PTS-STARTPTS,scale=213:120:force_original_aspect_ratio=decrease:force_divisible_by=2[webcam];[screen][webcam]overlay=W-w-20:H-h-20:shortest=1[vout]".to_string()
}

fn push_graph(
    v: &mut Vec<String>,
    platform: Platform,
    mode: CaptureMode,
    audio: &Option<AudioSettings>,
)
    ensures
        final(v).deep_view() == old(v).deep_view() + graph_args(platform, mode, *audio),
{
    let mic = microphone_active(audio);
    let system = system_audio_active(audio);
    if platform == Platform::MacOs && mode == CaptureMode::Combo {
        push_arg(v, "-filter_complex");
        let mut graph = overlay_graph_text();
        if mic && system {
            graph.append(
                ";[2:a]asetpts=PTS-STARTPTS[a1];[3:a]asetpts=PTS-STARTPTS[a2];[a1][a2]amix=inputs=2:duration=first:dropout_transition=2[aout]",
            );
        } else if mic || system {
            graph.append(";[2:a]asetpts=PTS-STARTPTS[aout]");
        }
        push_owned(v, graph);
        push_arg(v, "-map");
        push_arg(v, "[vout]");
        if mic || system {
            push_arg(v, "-map");
            push_arg(v, "[aout]");
        }
    } else if platform == Platform::MacOs && mode == CaptureMode::Screen && mic && system {
        push_arg(v, "-filter_complex");
        push_arg(
            v,
            "[1:a]asetpts=PTS-STARTPTS[a1];[2:a]asetpts=PTS-STARTPTS[a2];[a1][a2]amix=inputs=2:duration=first:dropout_transition=2[aout]",
        );
        push_arg(v, "-map");
        push_arg(v, "0:v");
        push_arg(v, "-map");
        push_arg(v, "[aout]");
    }
    assert(v.deep_view() =~= old(v).deep_view() + graph_args(platform, mode, *audio));
}

fn push_audio_encoding(
    v: &mut Vec<String>,
    platform: Platform,
    mode: CaptureMode,
    audio: &Option<AudioSettings>,
)
    ensures
        final(v).deep_view() == old(v).deep_view() + audio_encoding_args(platform, mode, *audio),
{
    let mic = microphone_active(audio);
    let system = system_audio_active(audio);
    if mic || system {
        push_arg(v, "-c:a");
        push_arg(v, "aac");
        push_arg(v, "-b:a");
        push_owned(v, audio_bitrate(audio));
        push_arg(v, "-profile:a");
        push_arg(v, "aac_low");
        push_arg(v, "-ar");
        push_arg(v, "48000");
        push_arg(v, "-ac");
        push_arg(v, "2");
        let mixed = mode == CaptureMode::Screen && mic && system;
        if platform == Platform::MacOs && mode != CaptureMode::Combo && !mixed {
            push_arg(v, "-af");
            push_arg(v, "asetpts=PTS-STARTPTS");
        }
    }
    assert(v.deep_view() =~= old(v).deep_view() + audio_encoding_args(platform, mode, *audio));
}

/// The encoder's argument list for a recording in `mode` on `platform`,
/// with the given audio routing, written to `output_path`. There is none
/// where the platform cannot capture in the mode.
pub fn recording_arguments(
    platform: Platform,
    mode: CaptureMode,
    audio: &Option<AudioSettings>,
    output_path: &str,
) -> (r: Option<Vec<String>>)
    ensures
        mode_supported(platform, mode) ==> r.is_some() && r.unwrap().deep_view() == recording_args(
            platform,
            mode,
            *audio,
            output_path@,
        ),
        !mode_supported(platform, mode) ==> r.is_none(),
{
    if platform != Platform::MacOs && mode == CaptureMode::Combo {
        return None;
    }
    let mut v: Vec<String> = Vec::new();
    push_arg(&mut v, "-loglevel");
    push_arg(&mut v, "verbose");
    push_arg(&mut v, "-rtbufsize");
    push_arg(&mut v, "200M");
    assert(v.deep_view() =~= global_args());
    extend_args(&mut v, build_inputs(platform, mode, audio));
    push_scale(&mut v, platform, mode);
    push_encoder(&mut v, platform);
    push_output_contract(&mut v);
    push_graph(&mut v, platform, mode, audio);
    push_audio_encoding(&mut v, platform, mode, audio);
    let ghost before = v.deep_view();
    push_arg(&mut v, "-y");
    push_arg(&mut v, output_path);
    assert(v.deep_view() =~= before + seq!["-y"@, output_path@]);
    Some(v)
}

/// Every recording obeys the output contract and is written where it was
/// asked to be: whatever the platform, the mode and the routing, the
/// argument list holds the options of the output contract in one piece, and
/// ends with the order to overwrite and the output path.
pub proof fn lemma_output_contract_always_applies(
    platform: Platform,
    mode: CaptureMode,
    audio: Option<AudioSettings>,
    output_path: Seq<char>,
)
    ensures
        exists|i: int|
            0 <= i && i + output_contract_args().len() <= recording_args(
                platform,
                mode,
                audio,
                output_path,
            ).len() && #[trigger] recording_args(platform, mode, audio, output_path).subrange(
                i,
                i + output_contract_args().len(),
            ) == output_contract_args(),
        recording_args(platform, mode, audio, output_path).len() >= 2,
        recording_args(platform, mode, audio, output_path).last() == output_path,
        recording_args(platform, mode, audio, output_path)[recording_args(
            platform,
            mode,
            audio,
            output_path,
        ).len() - 2] == "-y"@,
{
    let head = global_args() + input_args(platform, mode, audio) + scale_args(platform, mode)
        + encoder_args(platform);
    let tail = graph_args(platform, mode, audio) + audio_encoding_args(platform, mode, audio)
        + seq!["-y"@, output_path];
    let all = recording_args(platform, mode, audio, output_path);
    assert(all =~= head + output_contract_args() + tail);
    let i = head.len() as int;
    assert(all.subrange(i, i + output_contract_args().len()) =~= output_contract_args());
}

} // verus!

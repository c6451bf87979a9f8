//! The external tools: where they are looked for, what a run of one
//! reports, and how a file is handed to the platform's player.

use vstd::prelude::*;
use vstd::string::StringExecFns;
use crate::routing::Platform;
use crate::text::{chars_of, concat2, push_arg};

verus! {

/// What a run of an external tool reported.
#[derive(Debug)]
pub struct ToolOutput {
    /// Whether the tool reports success.
    pub success: bool,
    /// What it printed as its result.
    pub stdout: String,
    /// What it printed as diagnostics.
    pub stderr: String,
}

/// Directory of a package manager on machines with Apple's processors.
pub open spec fn first_tool_dir() -> Seq<char> {
    "/opt/homebrew/bin/"@
}

/// Directory of a package manager on machines with Intel's processors.
pub open spec fn second_tool_dir() -> Seq<char> {
    "/usr/local/bin/"@
}

/// The places where a tool is looked for, in order: on the search path,
/// then in two common installation directories.
pub open spec fn candidates(name: Seq<char>) -> Seq<Seq<char>> {
    seq![name, first_tool_dir() + name, second_tool_dir() + name]
}

/// The first candidate that answered, or the bare name where none did.
/// `answers[i]` tells whether candidate `i` could be run.
pub open spec fn chosen(name: Seq<char>, answers: Seq<bool>) -> Seq<char> {
    if answers.len() > 0 && answers[0] {
        name
    } else if answers.len() > 1 && answers[1] {
        first_tool_dir() + name
    } else if answers.len() > 2 && answers[2] {
        second_tool_dir() + name
    } else {
        name
    }
}

/// The places where the tool `name` is looked for.
pub fn tool_candidates(name: &str) -> (v: Vec<String>)
    ensures
        v.deep_view() == candidates(name@),
{
    let mut v: Vec<String> = Vec::new();
    push_arg(&mut v, name);
    crate::text::push_owned(&mut v, concat2("/opt/homebrew/bin/", name));
    crate::text::push_owned(&mut v, concat2("/usr/local/bin/", name));
    assert(v.deep_view() =~= candidates(name@));
    v
}

fn choose_tool(name: &str, answers: &Vec<bool>) -> (r: String)
    ensures
        r@ == chosen(name@, answers@),
{
    if answers.len() > 0 && answers[0] {
        name.to_string()
    } else if answers.len() > 1 && answers[1] {
        concat2("/opt/homebrew/bin/", name)
    } else if answers.len() > 2 && answers[2] {
        concat2("/usr/local/bin/", name)
    } else {
        name.to_string()
    }
}

/// The encoder to run, given which of its candidates answered.
pub fn find_ffmpeg(answers: &Vec<bool>) -> (r: String)
    ensures
        r@ == chosen("ffmpeg"@, answers@),
{
    choose_tool("ffmpeg", answers)
}

/// The prober to run, given which of its candidates answered.
pub fn find_ffprobe(answers: &Vec<bool>) -> (r: String)
    ensures
        r@ == chosen("ffprobe"@, answers@),
{
    choose_tool("ffprobe", answers)
}

/// A path with one more component: the component itself where it is
/// absolute or the path is empty, and otherwise the path, a separator
/// unless the path ends in one, and the component.
pub open spec fn joined(base: Seq<char>, name: Seq<char>) -> Seq<char> {
    if base.len() == 0 || (name.len() > 0 && name[0] == '/') {
        name
    } else if base.last() == '/' {
        base + name
    } else {
        base + seq!['/'] + name
    }
}

/// Adds a component to a path.
pub fn join_path(base: &str, name: &str) -> (r: String)
    ensures
        r@ == joined(base@, name@),
{
    let b = chars_of(base);
    let n = chars_of(name);
    if b.len() == 0 || (n.len() > 0 && n[0] == '/') {
        return name.to_string();
    }
    let mut r = base.to_string();
    if b[b.len() - 1] != '/' {
        r.push('/');
    }
    r.append(name);
    assert(r@ =~= joined(base@, name@));
    r
}

/// Where the native capture helper lies below the application's directory.
pub open spec fn screen_recorder_path(dir: Seq<char>) -> Seq<char> {
    joined(joined(dir, "swift-helper"@), "ScreenRecorder"@)
}

/// The path of the native capture helper, which is built into the
/// directory `swift-helper` below `manifest_dir`.
pub fn find_screen_recorder(manifest_dir: &str) -> (r: String)
    ensures
        r@ == screen_recorder_path(manifest_dir@),
{
    let dir = join_path(manifest_dir, "swift-helper");
    join_path(dir.as_str(), "ScreenRecorder")
}

/// The program that opens a file in the platform's player.
pub open spec fn player_program(platform: Platform) -> Seq<char> {
    match platform {
        Platform::MacOs => "open"@,
        Platform::Windows => "cmd"@,
        Platform::Linux => "xdg-open"@,
    }
}

/// The arguments with which that program opens `path`.
pub open spec fn player_args(platform: Platform, path: Seq<char>) -> Seq<Seq<char>> {
    match platform {
        Platform::Windows => seq!["/C"@, "start"@, ""@, path],
        _ => seq![path],
    }
}

/// The program and arguments that open `path` in the platform's player.
pub fn open_in_native_player(platform: Platform, path: &str) -> (r: (String, Vec<String>))
    ensures
        r.0@ == player_program(platform),
        r.1.deep_view() == player_args(platform, path@),
{
    let mut args: Vec<String> = Vec::new();
    let program = match platform {
        Platform::MacOs => "open".to_string(),
        Platform::Windows => {
            push_arg(&mut args, "/C");
            push_arg(&mut args, "start");
            push_arg(&mut args, "");
            "cmd".to_string()
        },
        Platform::Linux => "xdg-open".to_string(),
    };
    push_arg(&mut args, path);
    assert(args.deep_view() =~= player_args(platform, path@));
    (program, args)
}

} // verus!

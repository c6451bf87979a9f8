//! Uploads to a cloud drive: what is sent with a file, and what the
//! drive's answers mean.

use vstd::prelude::*;
use crate::clip::ClipSegment;
use crate::export::{ExportOptions, MultiClipExportOptions};
use crate::json::{json_member, json_parse, json_text, member, parse_document, text};
use crate::text::{concat2, push_arg};
use crate::tools::{join_path, joined};

verus! {

/// The access to a drive.
#[derive(Debug)]
pub struct GoogleDriveConfig {
    pub api_key: String,
}

/// What is stated of a file or folder when it is created on the drive.
#[derive(Debug)]
pub struct GoogleDriveFileMetadata {
    pub name: String,
    pub parents: Option<Vec<String>>,
    pub mime_type: Option<String>,
}

/// The view of a file's metadata.
pub struct FileMetadataView {
    pub name: Seq<char>,
    pub parents: Option<Seq<Seq<char>>>,
    pub mime_type: Option<Seq<char>>,
}

impl View for GoogleDriveFileMetadata {
    type V = FileMetadataView;

    open spec fn view(&self) -> FileMetadataView {
        FileMetadataView {
            name: self.name@,
            parents: match self.parents {
                Some(p) => Some(p.deep_view()),
                None => None,
            },
            mime_type: match self.mime_type {
                Some(m) => Some(m@),
                None => None,
            },
        }
    }
}

/// The metadata of the application's folder.
pub open spec fn folder_view() -> FileMetadataView {
    FileMetadataView {
        name: "ClipForge"@,
        parents: None,
        mime_type: Some("application/vnd.google-apps.folder"@),
    }
}

/// The metadata of a video that is uploaded into a folder.
pub open spec fn upload_view(filename: Seq<char>, folder: Seq<char>) -> FileMetadataView {
    FileMetadataView { name: filename, parents: Some(seq![folder]), mime_type: Some("video/mp4"@) }
}

/// The metadata of the application's folder.
pub fn folder_metadata() -> (m: GoogleDriveFileMetadata)
    ensures
        m@ == folder_view(),
{
    GoogleDriveFileMetadata {
        name: "ClipForge".to_string(),
        parents: None,
        mime_type: Some("application/vnd.google-apps.folder".to_string()),
    }
}

/// The metadata of a video that is uploaded into the folder `folder`.
pub fn upload_metadata(filename: &str, folder: &str) -> (m: GoogleDriveFileMetadata)
    ensures
        m@ == upload_view(filename@, folder@),
{
    let mut parents: Vec<String> = Vec::new();
    push_arg(&mut parents, folder);
    assert(parents.deep_view() =~= seq![folder@]);
    GoogleDriveFileMetadata {
        name: filename.to_string(),
        parents: Some(parents),
        mime_type: Some("video/mp4".to_string()),
    }
}

/// The value of the authorization header for an access token.
pub fn bearer(config: &GoogleDriveConfig) -> (s: String)
    ensures
        s@ == "Bearer "@ + config.api_key@,
{
    concat2("Bearer ", config.api_key.as_str())
}

/// The path of the local file that is exported before its upload.
pub open spec fn staging_file(temp_dir: Seq<char>, filename: Seq<char>) -> Seq<char> {
    joined(temp_dir, "clipforge_gdrive_"@ + filename)
}

/// The path of the local file that is exported before its upload.
pub fn staging_path(temp_dir: &str, filename: &str) -> (s: String)
    ensures
        s@ == staging_file(temp_dir@, filename@),
{
    let name = concat2("clipforge_gdrive_", filename);
    join_path(temp_dir, name.as_str())
}

/// The folder to upload into, where the drive already has one: the first
/// that a search found.
pub fn existing_folder(found: &Vec<String>) -> (r: Option<String>)
    ensures
        match r {
            Some(id) => found@.len() > 0 && id@ == found@[0]@,
            None => found@.len() == 0,
        },
{
    if found.len() > 0 {
        Some(found[0].clone())
    } else {
        None
    }
}

/// The text under `key` of a JSON document.
pub open spec fn text_member(doc: serde_json::Value, key: Seq<char>) -> Option<Seq<char>> {
    match json_member(doc, key) {
        Some(v) => json_text(v),
        None => None,
    }
}

/// The link under which an uploaded file can be viewed, as the drive's
/// answer states it. An answer without a file identifier is a failure; one
/// without a link is answered in words.
pub open spec fn link_of(answer: Seq<char>) -> Result<Seq<char>, Seq<char>> {
    match json_parse(answer) {
        Err(m) => Err("Failed to parse upload response: "@ + m),
        Ok(doc) => match text_member(doc, "id"@) {
            None => Err("No file ID in response"@),
            Some(_) => match text_member(doc, "webViewLink"@) {
                Some(l) => Ok(l),
                None => Ok("No link available"@),
            },
        },
    }
}

fn text_under<'a>(doc: &'a serde_json::Value, key: &str) -> (r: Option<&'a str>)
    ensures
        match r {
            Some(s) => text_member(*doc, key@) == Some(s@),
            None => text_member(*doc, key@).is_none(),
        },
{
    match member(doc, key) {
        Some(v) => text(v),
        None => None,
    }
}

/// Reads the drive's answer to an upload.
pub fn upload_link(answer: &str) -> (r: Result<String, String>)
    ensures
        match link_of(answer@) {
            Ok(l) => r.is_ok() && r.unwrap()@ == l,
            Err(m) => r.is_err() && r.unwrap_err()@ == m,
        },
{
    match parse_document(answer) {
        Err(m) => Err(concat2("Failed to parse upload response: ", m.as_str())),
        Ok(doc) => {
            if text_under(&doc, "id").is_none() {
                return Err("No file ID in response".to_string());
            }
            match text_under(&doc, "webViewLink") {
                Some(l) => Ok(l.to_string()),
                None => Ok("No link available".to_string()),
            }
        },
    }
}

/// What the upload of a single clip asks for.
#[derive(Debug)]
pub struct GoogleDriveExportOptions {
    pub input_path: String,
    /// The name of the file on the drive.
    pub filename: String,
    pub api_key: String,
    pub trim_start: Option<i64>,
    pub trim_end: Option<i64>,
}

/// What the upload of a timeline asks for.
#[derive(Debug)]
pub struct GoogleDriveMultiClipExportOptions {
    pub clips: Vec<ClipSegment>,
    /// The name of the file on the drive.
    pub filename: String,
    pub api_key: String,
}

/// The local export that goes before the upload of a single clip: the same
/// source and trim, written to the staging file below `temp_dir`.
pub fn export_to_google_drive(options: &GoogleDriveExportOptions, temp_dir: &str) -> (r:
    ExportOptions)
    ensures
        r.input_path@ == options.input_path@,
        r.output_path@ == staging_file(temp_dir@, options.filename@),
        r.trim_start == options.trim_start,
        r.trim_end == options.trim_end,
{
    ExportOptions {
        input_path: options.input_path.clone(),
        output_path: staging_path(temp_dir, options.filename.as_str()),
        trim_start: options.trim_start,
        trim_end: options.trim_end,
    }
}

/// The local export that goes before the upload of a timeline: the same
/// clips in the same order, written to the staging file below `temp_dir`.
/// Returns the export, the name of the file on the drive and the access
/// token.
pub fn export_multi_clip_to_google_drive(
    options: GoogleDriveMultiClipExportOptions,
    temp_dir: &str,
) -> (r: (MultiClipExportOptions, String, String))
    ensures
        r.0.clips@ == options.clips@,
        r.0.output_path@ == staging_file(temp_dir@, options.filename@),
        r.1@ == options.filename@,
        r.2@ == options.api_key@,
{
    let output_path = staging_path(temp_dir, options.filename.as_str());
    (
        MultiClipExportOptions { clips: options.clips, output_path },
        options.filename,
        options.api_key,
    )
}

} // verus!

//! Configuration of the transcoding front end and the rules it applies to uploads.

use vstd::prelude::*;
use vstd::string::*;
use crate::paths::{join, join_path};
use crate::text::{ascii_lowered, is_ascii_text, has_prefix, lowercase, str_starts_with, string_from, strs_contain, to_lowercase};

verus! {

/// Web interface for gpop transcoding.
#[derive(Debug, Clone)]
pub struct Config {
    /// Server host address.
    pub host: String,
    /// Server port.
    pub port: u16,
    /// gpop daemon WebSocket URL.
    pub gpop_url: String,
    /// Data directory for uploads and outputs.
    pub data_dir: String,
    /// Maximum upload file size in megabytes.
    pub max_upload_mb: usize,
    /// Maximum concurrent transcoding jobs.
    pub max_concurrent_jobs: usize,
    /// File retention period in hours (0 = keep forever).
    pub retention_hours: u64,
    /// API key for authentication.
    pub api_key: Option<String>,
}

impl Config {
    pub fn max_upload_bytes(&self) -> (r: usize)
        requires
            self.max_upload_mb * 1048576 <= usize::MAX,
        ensures
            r == self.max_upload_mb * 1048576,
    {
        self.max_upload_mb * 1024 * 1024
    }

    pub fn uploads_dir(&self) -> (r: String)
        ensures
            r@ == join_path(self.data_dir@, "uploads"@),
    {
        join(self.data_dir.as_str(), "uploads")
    }

    pub fn outputs_dir(&self) -> (r: String)
        ensures
            r@ == join_path(self.data_dir@, "outputs"@),
    {
        join(self.data_dir.as_str(), "outputs")
    }
}

/// A WebSocket URL: it begins with `ws://` or `wss://`.
pub open spec fn is_websocket_url(url: Seq<char>) -> bool {
    has_prefix(url, "ws://"@) || has_prefix(url, "wss://"@)
}

/// Validate that the gpop URL uses a WebSocket scheme.
pub fn validate_gpop_url(url: &str) -> (r: Result<(), String>)
    ensures
        r is Ok <==> is_websocket_url(url@),
        r is Err ==> r->Err_0@ == "Invalid gpop URL scheme: '"@ + url@ + "'. Must start with ws:// or wss://"@,
{
    if !str_starts_with(url, "ws://") && !str_starts_with(url, "wss://") {
        let mut e = string_from("Invalid gpop URL scheme: '");
        e.append(url);
        e.append("'. Must start with ws:// or wss://");
        return Err(e);
    }
    Ok(())
}

/// Audio-only file extensions (for demucs).
pub open spec fn audio_extensions() -> Seq<Seq<char>> {
    seq!["mp3"@, "wav"@, "ogg"@, "flac"@, "aac"@, "m4a"@, "wma"@, "opus"@]
}

/// Allowed file extensions for upload: video formats, then the audio formats.
pub open spec fn allowed_extensions() -> Seq<Seq<char>> {
    seq!["mp4"@, "mkv"@, "webm"@, "avi"@, "mov"@, "wmv"@, "flv"@, "m4v"@, "ts"@, "mts"@] + audio_extensions()
}

/// Allowed file extensions for upload.
pub fn allowed_extension_list() -> (r: Vec<&'static str>)
    ensures
        r@.map_values(|s: &str| s@) == allowed_extensions(),
{
    let r = vec![
        "mp4", "mkv", "webm", "avi", "mov", "wmv", "flv", "m4v", "ts", "mts", "mp3", "wav", "ogg", "flac", "aac",
        "m4a", "wma", "opus",
    ];
    proof {
        assert(r@.map_values(|s: &str| s@) =~= allowed_extensions());
    }
    r
}

/// Audio-only file extensions.
pub fn audio_extension_list() -> (r: Vec<&'static str>)
    ensures
        r@.map_values(|s: &str| s@) == audio_extensions(),
{
    let r = vec!["mp3", "wav", "ogg", "flac", "aac", "m4a", "wma", "opus"];
    proof {
        assert(r@.map_values(|s: &str| s@) =~= audio_extensions());
    }
    r
}

/// Check if a file extension is allowed, ignoring case.
pub fn is_allowed_extension(ext: &str) -> (r: bool)
    ensures
        r == allowed_extensions().contains(lowercase(ext@)),
        is_ascii_text(ext@) ==> r == allowed_extensions().contains(ascii_lowered(ext@)),
{
    let l = to_lowercase(ext);
    strs_contain(&allowed_extension_list(), l.as_str())
}

/// Check if a file extension is an audio format (for demucs), ignoring case.
pub fn is_audio_extension(ext: &str) -> (r: bool)
    ensures
        r == audio_extensions().contains(lowercase(ext@)),
        is_ascii_text(ext@) ==> r == audio_extensions().contains(ascii_lowered(ext@)),
{
    let l = to_lowercase(ext);
    strs_contain(&audio_extension_list(), l.as_str())
}

/// Every audio extension is also allowed for upload.
pub proof fn lemma_audio_extensions_are_allowed(ext: Seq<char>)
    requires
        audio_extensions().contains(ext),
    ensures
        allowed_extensions().contains(ext),
{
    let i = choose|i: int| 0 <= i < audio_extensions().len() && audio_extensions()[i] == ext;
    assert(allowed_extensions()[i + 10] == ext);
}

} // verus!

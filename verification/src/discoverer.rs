//! Media discovery: turning a user-supplied URI or path into a URI, the discovery timeout,
//! and the choices made while describing discovered streams.

use vstd::prelude::*;
use vstd::string::*;
use crate::paths::{join, join_path};
use crate::pipeline_rules::{GpopError, GpopErrorView};
use crate::text::{contains_sub, str_contains, string_from};

verus! {

/// Default discovery timeout in seconds.
pub const DEFAULT_TIMEOUT_SECS: u32 = 10;

/// The URI for a user-supplied URI or file path: a string with a scheme (`://`) is kept;
/// an absolute path becomes `file://` + path; a relative path is first joined to the
/// working directory.
pub open spec fn normalized_uri(uri: Seq<char>, cwd: Seq<char>) -> Seq<char> {
    if contains_sub(uri, "://"@) {
        uri
    } else if uri.len() > 0 && uri[0] == '/' {
        "file://"@ + uri
    } else {
        "file://"@ + join_path(cwd, uri)
    }
}

/// Convert a user-supplied URI or file path to a proper URI. `cwd` is the current working
/// directory, or the reason it could not be determined; it is only used for relative paths.
pub fn normalize_uri(uri: &str, cwd: Result<String, String>) -> (r: Result<String, GpopError>)
    ensures
        contains_sub(uri@, "://"@) || (uri@.len() > 0 && uri@[0] == '/') ==> r is Ok
            && r->Ok_0@ == normalized_uri(uri@, Seq::empty()),
        !contains_sub(uri@, "://"@) && !(uri@.len() > 0 && uri@[0] == '/') ==> match cwd {
            Ok(dir) => r is Ok && r->Ok_0@ == normalized_uri(uri@, dir@),
            Err(e) => r is Err && r->Err_0@ == GpopErrorView::DiscoveryFailed("Cannot resolve path: "@ + e@),
        },
{
    if str_contains(uri, "://") {
        return Ok(string_from(uri));
    }
    let absolute = uri.unicode_len() > 0 && uri.get_char(0) == '/';
    let path = if absolute {
        string_from(uri)
    } else {
        match cwd {
            Ok(dir) => join(dir.as_str(), uri),
            Err(e) => {
                let mut msg = string_from("Cannot resolve path: ");
                msg.append(e.as_str());
                return Err(GpopError::DiscoveryFailed(msg));
            },
        }
    };
    let mut r = string_from("file://");
    r.append(path.as_str());
    Ok(r)
}

/// The discovery timeout: the requested one when positive, otherwise the default.
pub fn effective_timeout(timeout_secs: Option<u32>) -> (r: u32)
    ensures
        r == match timeout_secs {
            Some(t) => if t > 0 { t } else { DEFAULT_TIMEOUT_SECS },
            None => DEFAULT_TIMEOUT_SECS,
        },
{
    match timeout_secs {
        Some(t) => if t > 0 { t } else { DEFAULT_TIMEOUT_SECS },
        None => DEFAULT_TIMEOUT_SECS,
    }
}

/// The codec of a stream: the name of the first structure of its caps, when it has caps
/// with at least one structure.
pub fn codec_from_caps(structure_names: Option<&Vec<String>>) -> (r: Option<String>)
    ensures
        match structure_names {
            Some(v) => if v@.len() > 0 { r is Some && r->0@ == v@[0]@ } else { r is None },
            None => r is None,
        },
{
    match structure_names {
        Some(v) => if v.len() > 0 { Some(v[0].clone()) } else { None },
        None => None,
    }
}

/// The pixel aspect ratio of a video stream, given as a unit: both parts when both are
/// non-zero, neither otherwise.
pub fn pixel_aspect_ratio(numer: i32, denom: i32) -> (r: (Option<i32>, Option<i32>))
    ensures
        numer != 0 && denom != 0 ==> r == (Some(numer), Some(denom)),
        numer == 0 || denom == 0 ==> r == (None::<i32>, None::<i32>),
{
    if numer != 0 && denom != 0 {
        (Some(numer), Some(denom))
    } else {
        (None, None)
    }
}

/// The earlier value when there is one, else the later.
pub open spec fn first_some(a: Option<String>, b: Option<String>) -> Option<String> {
    if a is Some { a } else { b }
}

fn keep_first(a: Option<String>, b: Option<String>) -> (r: Option<String>)
    ensures
        r == first_some(a, b),
{
    match a {
        Some(x) => Some(x),
        None => b,
    }
}

/// Selected tags from the media.
#[derive(Debug, Clone)]
pub struct TagsInfo {
    pub title: Option<String>,
    pub artist: Option<String>,
    pub album: Option<String>,
    pub genre: Option<String>,
    pub comment: Option<String>,
    pub container_format: Option<String>,
    pub encoder: Option<String>,
}

impl TagsInfo {
    /// No tag is present.
    pub open spec fn is_empty(&self) -> bool {
        &&& self.title is None
        &&& self.artist is None
        &&& self.album is None
        &&& self.genre is None
        &&& self.comment is None
        &&& self.container_format is None
        &&& self.encoder is None
    }

    /// The selected tags of `self` merged with those of a later stream, keeping values already
    /// present (a tag list merge in keep mode).
    pub fn merge_keep(self, later: TagsInfo) -> (r: TagsInfo)
        ensures
            r.title == first_some(self.title, later.title),
            r.artist == first_some(self.artist, later.artist),
            r.album == first_some(self.album, later.album),
            r.genre == first_some(self.genre, later.genre),
            r.comment == first_some(self.comment, later.comment),
            r.container_format == first_some(self.container_format, later.container_format),
            r.encoder == first_some(self.encoder, later.encoder),
    {
        TagsInfo {
            title: keep_first(self.title, later.title),
            artist: keep_first(self.artist, later.artist),
            album: keep_first(self.album, later.album),
            genre: keep_first(self.genre, later.genre),
            comment: keep_first(self.comment, later.comment),
            container_format: keep_first(self.container_format, later.container_format),
            encoder: keep_first(self.encoder, later.encoder),
        }
    }

    /// The tags to report, given how many tags the merged tag list of all streams holds:
    /// none when the list is empty or none of the selected tags is present.
    pub fn report(self, n_tags: u32) -> (r: Option<TagsInfo>)
        ensures
            n_tags == 0 || self.is_empty() ==> r is None,
            n_tags > 0 && !self.is_empty() ==> r == Some(self),
    {
        if n_tags == 0 {
            return None;
        }
        if self.title.is_none() && self.artist.is_none() && self.album.is_none() && self.genre.is_none()
            && self.comment.is_none() && self.container_format.is_none() && self.encoder.is_none() {
            None
        } else {
            Some(self)
        }
    }
}

} // verus!

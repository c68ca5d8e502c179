//! Decisions of the HTTP API: validating job requests, collecting an upload, authorizing a
//! request, and planning a download.

use vstd::prelude::*;
use vstd::string::*;
use crate::config::{allowed_extensions, audio_extensions, is_allowed_extension, is_audio_extension};
use crate::error::{AppError, AppErrorView};
use crate::job_types::{JobSummary, DemucsModel, DemucsOptions, DemucsOptionsView, Job, JobOptionsView, JobStatus, JobType, OutputFormat, TranscodeOptions};
use crate::paths::{extension, extension_of, file_stem, file_stem_of, split_on, split_str};
use crate::cli::scan::first_index_of;
use crate::text::{
    chars_of, contains_sub, lowercase, opt_view, str_contains, str_eq, string_from, strings_view,
    ascii_lower, strs_contain, to_lowercase, trim, trimmed,
};

verus! {

/// Query parameters for transcode job creation.
#[derive(Debug, Clone)]
pub struct CreateTranscodeQuery {
    pub output_format: String,
    pub video_bitrate_kbps: Option<u32>,
    pub audio_bitrate_kbps: Option<u32>,
    pub width: Option<u32>,
    pub height: Option<u32>,
}

/// Query parameters for demucs job creation.
#[derive(Debug, Clone)]
pub struct CreateDemucsQuery {
    pub model: String,
    /// Comma-separated list of stems to extract (empty = all).
    pub stems: String,
    pub output_format: String,
}

/// The default output format of a transcode request.
pub fn default_format() -> (r: String)
    ensures
        r@ == "mp4"@,
{
    string_from("mp4")
}

/// The default model of a demucs request.
pub fn default_model() -> (r: String)
    ensures
        r@ == "htdemucs"@,
{
    string_from("htdemucs")
}

/// The default stem format of a demucs request.
pub fn default_stem_format() -> (r: String)
    ensures
        r@ == "wav"@,
{
    string_from("wav")
}

/// Response for job creation.
#[derive(Debug)]
pub struct JobCreatedResponse {
    pub job_id: String,
    pub job_type: String,
    pub status: String,
    pub message: String,
}

impl JobCreatedResponse {
    /// The response to a created job of the given type.
    pub fn created(job_id: String, job_type: JobType) -> (r: JobCreatedResponse)
        ensures
            r.job_id@ == job_id@,
            r.job_type@ == (if job_type == JobType::Transcode { "transcode"@ } else { "demucs"@ }),
            r.status@ == "pending"@,
            r.message@ == (if job_type == JobType::Transcode {
                "Transcode job created successfully"@
            } else {
                "Demucs job created successfully"@
            }),
    {
        match job_type {
            JobType::Transcode => JobCreatedResponse {
                job_id,
                job_type: string_from("transcode"),
                status: string_from("pending"),
                message: string_from("Transcode job created successfully"),
            },
            JobType::Demucs => JobCreatedResponse {
                job_id,
                job_type: string_from("demucs"),
                status: string_from("pending"),
                message: string_from("Demucs job created successfully"),
            },
        }
    }
}

/// The lowercased extension of an uploaded file, or the error for a file without one.
pub open spec fn upload_extension(filename: Seq<char>) -> Option<Seq<char>> {
    match extension(filename) {
        Some(e) => Some(lowercase(e)),
        None => None,
    }
}

fn lowered_extension(filename: &str) -> (r: Result<String, AppError>)
    ensures
        match upload_extension(filename@) {
            Some(e) => r is Ok && r->Ok_0@ == e,
            None => r is Err && r->Err_0@ == AppErrorView::InvalidFileType("unknown"@),
        },
{
    match extension_of(filename) {
        Some(e) => Ok(to_lowercase(e.as_str())),
        None => Err(AppError::InvalidFileType(string_from("unknown"))),
    }
}

/// The transcode options a request asks for.
pub open spec fn requested_transcode(q: CreateTranscodeQuery, f: OutputFormat) -> TranscodeOptions {
    TranscodeOptions {
        output_format: f,
        video_bitrate_kbps: q.video_bitrate_kbps,
        audio_bitrate_kbps: q.audio_bitrate_kbps,
        width: q.width,
        height: q.height,
    }
}

/// Validates a transcode request: the upload must have an allowed extension and the output
/// format must be known.
pub fn plan_transcode_job(filename: &str, query: &CreateTranscodeQuery) -> (r: Result<TranscodeOptions, AppError>)
    ensures
        match upload_extension(filename@) {
            None => r is Err && r->Err_0@ == AppErrorView::InvalidFileType("unknown"@),
            Some(e) => if !allowed_extensions().contains(lowercase(e)) {
                r is Err && r->Err_0@ == AppErrorView::InvalidFileType(e)
            } else if exists|f: OutputFormat| lowercase(query.output_format@) == #[trigger] f.ext() {
                r is Ok && lowercase(query.output_format@) == r->Ok_0.output_format.ext()
                    && r->Ok_0 == requested_transcode(*query, r->Ok_0.output_format)
            } else {
                r is Err && r->Err_0@ == AppErrorView::Internal("Unknown format: "@ + query.output_format@)
            },
        },
{
    let ext = match lowered_extension(filename) {
        Ok(e) => e,
        Err(e) => return Err(e),
    };
    if !is_allowed_extension(ext.as_str()) {
        return Err(AppError::InvalidFileType(ext));
    }
    let output_format = match OutputFormat::parse(query.output_format.as_str()) {
        Ok(f) => f,
        Err(e) => return Err(AppError::Internal(e)),
    };
    Ok(TranscodeOptions {
        output_format,
        video_bitrate_kbps: query.video_bitrate_kbps,
        audio_bitrate_kbps: query.audio_bitrate_kbps,
        width: query.width,
        height: query.height,
    })
}

/// The stems a demucs request names: none for an empty list, otherwise each
/// comma-separated entry, trimmed and lowercased.
pub open spec fn requested_stems(list: Seq<char>) -> Seq<Seq<char>> {
    if list.len() == 0 {
        Seq::empty()
    } else {
        split_on(list, ',').map_values(|p: Seq<char>| lowercase(trimmed(p)))
    }
}

/// `["a", "b"]`: a list of names as `{:?}` prints it.
pub open spec fn debug_list(items: Seq<Seq<char>>) -> Seq<char> {
    "["@ + quoted_names(items) + "]"@
}

pub open spec fn quoted_names(items: Seq<Seq<char>>) -> Seq<char>
    decreases items.len(),
{
    if items.len() == 0 {
        Seq::empty()
    } else if items.len() == 1 {
        "\""@ + items[0] + "\""@
    } else {
        quoted_names(items.drop_last()) + ", \""@ + items.last() + "\""@
    }
}

fn debug_names(items: &Vec<&str>) -> (r: String)
    ensures
        r@ == debug_list(items@.map_values(|s: &str| s@)),
{
    let ghost v = items@.map_values(|s: &str| s@);
    let mut r = String::new();
    let mut i: usize = 0;
    while i < items.len()
        invariant
            v == items@.map_values(|s: &str| s@),
            i <= items@.len(),
            r@ == quoted_names(v.take(i as int)),
        decreases items@.len() - i,
    {
        proof {
            assert(v.take(i + 1).drop_last() =~= v.take(i as int));
            assert(v[i as int] == items@[i as int]@);
        }
        if i > 0 {
            r.append(", \"");
        } else {
            r.append("\"");
        }
        r.append(items[i]);
        r.append("\"");
        i = i + 1;
        proof {
            if i == 1 {
                assert(v.take(1)[0] == v[0]);
            }
            assert(r@ =~= quoted_names(v.take(i as int)));
        }
    }
    proof {
        assert(v.take(items@.len() as int) =~= v);
    }
    let mut out = string_from("[");
    out.append(r.as_str());
    out.append("]");
    out
}

fn parse_stems(list: &str) -> (r: Vec<String>)
    ensures
        strings_view(r@) == requested_stems(list@),
{
    let mut r: Vec<String> = Vec::new();
    if list.unicode_len() == 0 {
        proof {
            assert(strings_view(r@) =~= Seq::<Seq<char>>::empty());
        }
        return r;
    }
    let parts = split_str(list, ',');
    let ghost want = split_on(list@, ',').map_values(|p: Seq<char>| lowercase(trimmed(p)));
    let mut i: usize = 0;
    while i < parts.len()
        invariant
            strings_view(parts@) == split_on(list@, ','),
            want == split_on(list@, ',').map_values(|p: Seq<char>| lowercase(trimmed(p))),
            i <= parts@.len(),
            strings_view(r@) == want.take(i as int),
        decreases parts@.len() - i,
    {
        let t = trim(parts[i].as_str());
        let l = to_lowercase(t.as_str());
        let ghost before = r@;
        proof {
            assert(strings_view(parts@)[i as int] == parts@[i as int]@);
            assert(want[i as int] == l@);
        }
        r.push(l);
        proof {
            assert(strings_view(r@) =~= strings_view(before).push(l@));
            assert(want.take(i + 1) =~= want.take(i as int).push(l@));
        }
        i = i + 1;
    }
    proof {
        assert(want.take(parts@.len() as int) =~= want);
    }
    r
}

/// The message rejecting a stem that the model does not produce.
pub open spec fn invalid_stem_message(stem: Seq<char>, model: DemucsModel) -> Seq<char> {
    "Invalid stem '"@ + stem + "' for model "@ + model.name() + ". Valid stems: "@ + debug_list(model.stem_names())
}

/// Whether a stem output format is accepted.
pub open spec fn is_stem_format(f: Seq<char>) -> bool {
    f == "wav"@ || f == "flac"@
}

/// Validates a demucs request: the upload must be audio, the model known, every stem one the
/// model produces, and the output format wav or flac.
#[verifier::loop_isolation(false)]
pub fn plan_demucs_job(filename: &str, query: &CreateDemucsQuery) -> (r: Result<DemucsOptions, AppError>)
    ensures
        match upload_extension(filename@) {
            None => r is Err && r->Err_0@ == AppErrorView::InvalidFileType("unknown"@),
            Some(e) => if !audio_extensions().contains(lowercase(e)) {
                r is Err && r->Err_0@ == AppErrorView::InvalidFileType(e + " (demucs requires audio files)"@)
            } else if !(exists|m: DemucsModel| lowercase(query.model@) == #[trigger] m.name()) {
                r is Err && r->Err_0@ == AppErrorView::Internal("Unknown demucs model: "@ + query.model@)
            } else {
                let m = choose|m: DemucsModel| lowercase(query.model@) == #[trigger] m.name();
                let stems = requested_stems(query.stems@);
                if exists|i: int| 0 <= i < stems.len() && !m.stem_names().contains(#[trigger] stems[i]) {
                    r is Err && exists|i: int| 0 <= i < stems.len() && !m.stem_names().contains(#[trigger] stems[i])
                        && (forall|k: int| 0 <= k < i ==> m.stem_names().contains(#[trigger] stems[k]))
                        && r->Err_0@ == AppErrorView::Internal(invalid_stem_message(stems[i], m))
                } else if !is_stem_format(query.output_format@) {
                    r is Err && r->Err_0@ == AppErrorView::Internal(
                        "Invalid output format '"@ + query.output_format@ + "'. Must be 'wav' or 'flac'"@,
                    )
                } else {
                    r is Ok && r->Ok_0@ == (DemucsOptionsView {
                        model: m,
                        stems,
                        output_format: query.output_format@,
                    })
                }
            },
        },
{
    let ext = match lowered_extension(filename) {
        Ok(e) => e,
        Err(e) => return Err(e),
    };
    if !is_audio_extension(ext.as_str()) {
        let mut msg = ext;
        msg.append(" (demucs requires audio files)");
        return Err(AppError::InvalidFileType(msg));
    }
    let model = match DemucsModel::parse(query.model.as_str()) {
        Ok(m) => m,
        Err(e) => {
            proof {
                assert(!(exists|m: DemucsModel| lowercase(query.model@) == #[trigger] m.name()));
            }
            return Err(AppError::Internal(e));
        },
    };
    proof {
        let m = choose|m: DemucsModel| lowercase(query.model@) == #[trigger] m.name();
        assert(lowercase(query.model@) == model.name());
        lemma_model_names_distinct(m, model);
    }
    let stems = parse_stems(query.stems.as_str());
    let valid_stems = model.stems();
    let mut i: usize = 0;
    while i < stems.len()
        invariant
            i <= stems@.len(),
            valid_stems@.map_values(|s: &str| s@) == model.stem_names(),
            forall|k: int| 0 <= k < i ==> model.stem_names().contains(#[trigger] strings_view(stems@)[k]),
        decreases stems@.len() - i,
    {
        proof {
            assert(strings_view(stems@)[i as int] == stems@[i as int]@);
        }
        if !strs_contain(&valid_stems, stems[i].as_str()) {
            let mut msg = string_from("Invalid stem '");
            msg.append(stems[i].as_str());
            msg.append("' for model ");
            msg.append(model.as_str());
            msg.append(". Valid stems: ");
            let listed = debug_names(&valid_stems);
            msg.append(listed.as_str());
            proof {
                let sv = strings_view(stems@);
                assert(sv == requested_stems(query.stems@));
                assert(!model.stem_names().contains(sv[i as int]));
                assert(msg@ == invalid_stem_message(sv[i as int], model));
                assert(exists|j: int| 0 <= j < sv.len() && !model.stem_names().contains(#[trigger] sv[j])
                    && (forall|k: int| 0 <= k < j ==> model.stem_names().contains(#[trigger] sv[k]))
                    && msg@ == invalid_stem_message(sv[j], model));
            }
            return Err(AppError::Internal(msg));
        }
        i = i + 1;
    }
    if !str_eq(query.output_format.as_str(), "wav") && !str_eq(query.output_format.as_str(), "flac") {
        let mut msg = string_from("Invalid output format '");
        msg.append(query.output_format.as_str());
        msg.append("'. Must be 'wav' or 'flac'");
        return Err(AppError::Internal(msg));
    }
    Ok(DemucsOptions { model, stems, output_format: query.output_format.clone() })
}

/// Distinct models have distinct names.
pub proof fn lemma_model_names_distinct(a: DemucsModel, b: DemucsModel)
    requires
        a.name() == b.name(),
    ensures
        a == b,
{
    reveal_strlit("htdemucs");
    reveal_strlit("htdemucs_ft");
    reveal_strlit("htdemucs_6s");
    reveal_strlit("mdx_extra");
    assert("htdemucs"@.len() == 8);
    assert("mdx_extra"@.len() == 9);
    assert("htdemucs_ft"@.len() == 11);
    assert("htdemucs_6s"@.len() == 11);
    assert("htdemucs_ft"@[9] == 'f');
    assert("htdemucs_6s"@[9] == '6');
    if a != b {
        if a.name().len() == b.name().len() {
            assert(a.name()[9] != b.name()[9]);
        }
    }
}

} // verus!

verus! {

/// A character that the filename sanitizer always removes: a path separator, a character
/// reserved on some file systems, or a control character.
pub open spec fn is_unsafe_filename_char(c: char) -> bool {
    c == '/' || c == '?' || c == '<' || c == '>' || c == '\\' || c == ':' || c == '*' || c == '|' || c == '"'
        || (c as int) <= 0x1f || (0x80 <= (c as int) && (c as int) <= 0x9f)
}

/// `out` keeps only characters of `raw`, and none that are unsafe in a file name.
pub open spec fn is_sanitized_from(out: Seq<char>, raw: Seq<char>) -> bool {
    &&& out.len() <= raw.len()
    &&& forall|i: int| 0 <= i < out.len() ==> !is_unsafe_filename_char(#[trigger] out[i]) && raw.contains(out[i])
}

/// A name the Windows rules of the sanitizer reserve: `con`, `prn`, `aux`, `nul`, `com0`–`com9`
/// or `lpt0`–`lpt9` in any letter case, alone or before a `.`.
pub open spec fn is_windows_reserved_name(name: Seq<char>) -> bool {
    let dot = first_index_of(name, '.');
    let base = (if dot < 0 { name } else { name.take(dot) }).map_values(|c: char| ascii_lower(c));
    ||| base == "con"@
    ||| base == "prn"@
    ||| base == "aux"@
    ||| base == "nul"@
    ||| (base.len() == 4 && (base.take(3) == "com"@ || base.take(3) == "lpt"@) && '0' <= base[3] && base[3] <= '9')
}

/// A file name the sanitizer returns unchanged on every platform: no unsafe character, not
/// made only of dots, not ending in a dot or a space, and not a reserved Windows name (its
/// length in bytes, at most 255, is stated beside it).
pub open spec fn is_plain_filename(name: Seq<char>) -> bool {
    &&& forall|i: int| 0 <= i < name.len() ==> !is_unsafe_filename_char(#[trigger] name[i])
    &&& !(name.len() > 0 && forall|i: int| 0 <= i < name.len() ==> #[trigger] name[i] == '.')
    &&& !(name.len() > 0 && (name.last() == '.' || name.last() == ' '))
    &&& !is_windows_reserved_name(name)
}

/// `sanitize_filename::sanitize`. The contract states that the result keeps only characters
/// of the input, none of them a path separator, a reserved character or a control character,
/// and is no longer than the input. Which characters are also removed on Windows, the
/// removal of names made only of dots, and the truncation to 255 bytes are not stated: they
/// depend on the platform and on byte lengths. What is stated besides: a plain name
/// (`is_plain_filename`) of at most 255 bytes, which none of its rules touches on any
/// platform, comes back unchanged.
#[verifier::external_body]
fn sanitize(name: &str) -> (r: String)
    ensures
        is_sanitized_from(r@, name@),
        is_plain_filename(name@) && name.len() <= 255 ==> r@ == name@,
{
    sanitize_filename::sanitize(name)
}

/// The upload being collected from a multipart form: the file field's bytes and its
/// sanitized filename.
pub struct UploadCollector {
    max_size: usize,
    file_data: Option<Vec<u8>>,
    filename: Option<String>,
    collecting: bool,
    bytes: Vec<u8>,
}

impl UploadCollector {
    pub closed spec fn max_size(&self) -> usize {
        self.max_size
    }

    /// The bytes of the last completed file field.
    pub closed spec fn file_data(&self) -> Option<Seq<u8>> {
        match self.file_data {
            Some(v) => Some(v@),
            None => None,
        }
    }

    /// The sanitized filename of the last file field.
    pub closed spec fn filename(&self) -> Option<Seq<char>> {
        opt_view(self.filename)
    }

    /// A file field is being read.
    pub closed spec fn collecting(&self) -> bool {
        self.collecting
    }

    /// The bytes read so far from the current file field.
    pub closed spec fn current(&self) -> Seq<u8> {
        self.bytes@
    }

    /// Neither the field being read nor the collected upload exceeds the maximum size.
    pub open spec fn within_limit(&self) -> bool {
        &&& self.current().len() <= self.max_size()
        &&& self.file_data() matches Some(d) ==> d.len() <= self.max_size()
    }

    pub fn new(max_size: usize) -> (r: Self)
        ensures
            r.max_size() == max_size,
            r.file_data() is None,
            r.filename() is None,
            !r.collecting(),
            r.current() == Seq::<u8>::empty(),
            r.within_limit(),
    {
        UploadCollector { max_size, file_data: None, filename: None, collecting: false, bytes: Vec::new() }
    }

    /// A form field begins. Returns whether it is the file field, whose chunks are then to be
    /// passed to `add_chunk`; its filename replaces any earlier one.
    pub fn begin_field(&mut self, name: Option<&str>, filename: Option<&str>) -> (r: bool)
        ensures
            r == (name is Some && name->0@ == "file"@),
            final(self).max_size() == old(self).max_size(),
            final(self).file_data() == old(self).file_data(),
            final(self).collecting() == r,
            r ==> final(self).current() == Seq::<u8>::empty(),
            r ==> (final(self).filename() is Some <==> filename is Some),
            r && filename is Some ==> is_sanitized_from(final(self).filename()->0, filename->0@),
            r && filename is Some && is_plain_filename(filename->0@) && filename->0.len() <= 255
                ==> final(self).filename() == Some(filename->0@),
            !r ==> final(self).filename() == old(self).filename(),
            !r ==> final(self).current() == old(self).current(),
            old(self).within_limit() ==> final(self).within_limit(),
    {
        let is_file = match name {
            Some(n) => str_eq(n, "file"),
            None => false,
        };
        if is_file {
            self.filename = match filename {
                Some(f) => Some(sanitize(f)),
                None => None,
            };
            self.bytes = Vec::new();
        }
        self.collecting = is_file;
        is_file
    }

    /// A chunk of the file field. Fails when the upload would exceed the maximum size.
    pub fn add_chunk(&mut self, chunk: &[u8]) -> (r: Result<(), AppError>)
        requires
            old(self).current().len() + chunk@.len() <= usize::MAX,
        ensures
            final(self).max_size() == old(self).max_size(),
            final(self).file_data() == old(self).file_data(),
            final(self).filename() == old(self).filename(),
            final(self).collecting() == old(self).collecting(),
            r is Ok <==> old(self).current().len() + chunk@.len() <= old(self).max_size(),
            r is Ok ==> final(self).current() == old(self).current() + chunk@,
            r is Err ==> r->Err_0@ == AppErrorView::FileTooLarge(
                (old(self).current().len() + chunk@.len()) as usize,
                old(self).max_size(),
            ),
            r is Err ==> final(self).current() == old(self).current(),
            old(self).within_limit() ==> final(self).within_limit(),
    {
        let total = self.bytes.len() + chunk.len();
        if total > self.max_size {
            return Err(AppError::FileTooLarge(total, self.max_size));
        }
        let mut i: usize = 0;
        while i < chunk.len()
            invariant
                i <= chunk@.len(),
                self.bytes@ == old(self).current() + chunk@.subrange(0, i as int),
                self.max_size == old(self).max_size(),
                self.file_data == old(self).file_data,
                self.filename == old(self).filename,
                self.collecting == old(self).collecting,
            decreases chunk@.len() - i,
        {
            self.bytes.push(chunk[i]);
            i = i + 1;
            proof {
                assert(self.bytes@ =~= old(self).current() + chunk@.subrange(0, i as int));
            }
        }
        proof {
            assert(chunk@.subrange(0, chunk@.len() as int) =~= chunk@);
        }
        Ok(())
    }

    /// The current field ends; a file field's bytes become the upload's data.
    pub fn end_field(&mut self)
        ensures
            final(self).max_size() == old(self).max_size(),
            final(self).filename() == old(self).filename(),
            !final(self).collecting(),
            old(self).collecting() ==> final(self).file_data() == Some(old(self).current()),
            !old(self).collecting() ==> final(self).file_data() == old(self).file_data(),
            old(self).within_limit() ==> final(self).within_limit(),
    {
        if self.collecting {
            let mut bytes = Vec::new();
            std::mem::swap(&mut bytes, &mut self.bytes);
            self.file_data = Some(bytes);
        }
        self.collecting = false;
    }

    /// The uploaded bytes and filename, once the form has been read.
    pub fn finish(self) -> (r: Result<(Vec<u8>, String), AppError>)
        ensures
            self.file_data() is None ==> r is Err && r->Err_0@ == AppErrorView::Internal("No file uploaded"@),
            self.file_data() is Some && self.filename() is None ==> r is Err
                && r->Err_0@ == AppErrorView::Internal("No filename provided"@),
            self.file_data() is Some && self.filename() is Some ==> r is Ok && r->Ok_0.0@ == self.file_data()->0
                && r->Ok_0.1@ == self.filename()->0,
            self.within_limit() && r is Ok ==> r->Ok_0.0@.len() <= self.max_size(),
    {
        let data = match self.file_data {
            Some(d) => d,
            None => return Err(AppError::Internal(string_from("No file uploaded"))),
        };
        let filename = match self.filename {
            Some(f) => f,
            None => return Err(AppError::Internal(string_from("No filename provided"))),
        };
        Ok((data, filename))
    }
}

/// API key stored for request authorization.
#[derive(Debug, Clone)]
pub struct ApiKey(pub Option<String>);

/// A request is authorized when no API key is configured, or when its `Authorization`
/// header is `Bearer <key>`.
pub open spec fn is_authorized(configured: Option<Seq<char>>, authorization: Option<Seq<char>>) -> bool {
    match configured {
        None => true,
        Some(key) => authorization == Some("Bearer "@ + key),
    }
}

/// Check the API key of a request, given the configured key (if any) and the request's
/// `Authorization` header (if present and text).
pub fn check_authorization(api_key: Option<&ApiKey>, authorization: Option<&str>) -> (r: bool)
    ensures
        r == match api_key {
            None => true,
            Some(k) => is_authorized(opt_view(k.0), match authorization { Some(a) => Some(a@), None => None }),
        },
{
    match api_key {
        None => true,
        Some(ApiKey(None)) => true,
        Some(ApiKey(Some(expected))) => match authorization {
            Some(header) => {
                let mut want = string_from("Bearer ");
                want.append(expected.as_str());
                str_eq(header, want.as_str())
            },
            None => false,
        },
    }
}

/// What the MIME type guesser returns for a path.
pub uninterp spec fn mime_type_of(path: Seq<char>) -> Seq<char>;

/// `mime_guess::from_path(path).first_or_octet_stream()`, as text. Its result is named by
/// `mime_type_of`; the contract also states the documented fallback: a path without
/// extension is `application/octet-stream`. The table from extension to type is not stated.
#[verifier::external_body]
fn guess_mime_type(path: &str) -> (r: String)
    ensures
        r@ == mime_type_of(path@),
        extension(path@) is None ==> r@ == "application/octet-stream"@,
{
    mime_guess::from_path(path).first_or_octet_stream().to_string()
}

/// How a file is served: where it lies, its content type, and the name it is downloaded as.
#[derive(Debug)]
pub struct DownloadPlan {
    pub path: String,
    pub content_type: String,
    pub filename: String,
}

/// The base name of a download: the stem of the uploaded file's name, or `output`.
pub open spec fn download_base(input_filename: Seq<char>) -> Seq<char> {
    match file_stem(input_filename) {
        Some(s) => s,
        None => "output"@,
    }
}

fn download_base_of(input_filename: &str) -> (r: String)
    ensures
        r@ == download_base(input_filename@),
{
    match file_stem_of(input_filename) {
        Some(s) => s,
        None => string_from("output"),
    }
}

/// The name a transcode output is downloaded as.
pub open spec fn download_name(j: crate::job_types::JobView) -> Seq<char> {
    match j.options {
        JobOptionsView::Transcode(o) => download_base(j.input_filename) + "."@ + o.output_format.ext(),
        _ => "output"@,
    }
}

/// Plans the download of a transcode job's output. The caller still checks that the file
/// exists (and reports `FileNotFound` with the path when it does not).
pub fn plan_download(job: &Job) -> (r: Result<DownloadPlan, AppError>)
    ensures
        job.status != JobStatus::Completed ==> r is Err && r->Err_0@ == AppErrorView::Internal("Job not completed"@),
        job.status == JobStatus::Completed && job.job_type != JobType::Transcode ==> r is Err
            && r->Err_0@ == AppErrorView::Internal("Use /download/{stem} endpoint for demucs jobs"@),
        job.status == JobStatus::Completed && job.job_type == JobType::Transcode ==> r is Ok && ({
            let p = r->Ok_0;
            &&& p.path@ == job.output_path@
            &&& p.content_type@ == mime_type_of(job.output_path@)
            &&& p.filename@ == download_name(job@)
        }),
{
    if job.status != JobStatus::Completed {
        return Err(AppError::Internal(string_from("Job not completed")));
    }
    if job.job_type != JobType::Transcode {
        return Err(AppError::Internal(string_from("Use /download/{stem} endpoint for demucs jobs")));
    }
    let content_type = guess_mime_type(job.output_path.as_str());
    let filename = match job.transcode_options() {
        Some(opts) => {
            let mut f = download_base_of(job.input_filename.as_str());
            f.append(".");
            f.append(opts.output_format.extension());
            f
        },
        None => string_from("output"),
    };
    Ok(DownloadPlan { path: job.output_path.clone(), content_type, filename })
}

/// A stem name may not leave the job's output directory.
pub open spec fn is_safe_stem_name(stem: Seq<char>) -> bool {
    !stem.contains('/') && !stem.contains('\\') && !contains_sub(stem, ".."@)
}

/// Validate a requested stem name to prevent path traversal.
pub fn check_stem_name(stem: &str) -> (r: Result<(), AppError>)
    ensures
        r is Ok <==> is_safe_stem_name(stem@),
        r is Err ==> r->Err_0@ == AppErrorView::Internal("Invalid stem name"@),
{
    let v = chars_of(stem);
    let mut i: usize = 0;
    while i < v.len()
        invariant
            v@ == stem@,
            i <= v@.len(),
            forall|k: int| 0 <= k < i ==> v@[k] != '/' && v@[k] != '\\',
        decreases v@.len() - i,
    {
        if v[i] == '/' || v[i] == '\\' {
            return Err(AppError::Internal(string_from("Invalid stem name")));
        }
        i = i + 1;
    }
    if str_contains(stem, "..") {
        return Err(AppError::Internal(string_from("Invalid stem name")));
    }
    Ok(())
}

/// Plans the download of one stem, found at `stem_path`.
pub fn plan_stem_download(input_filename: &str, stem: &str, stem_path: String) -> (r: DownloadPlan)
    ensures
        r.path@ == stem_path@,
        r.content_type@ == mime_type_of(stem_path@),
        r.filename@ == download_base(input_filename@) + "_"@ + stem@ + "."@ + match extension(stem_path@) {
            Some(e) => e,
            None => "wav"@,
        },
{
    let content_type = guess_mime_type(stem_path.as_str());
    let mut filename = download_base_of(input_filename);
    filename.append("_");
    filename.append(stem);
    filename.append(".");
    match extension_of(stem_path.as_str()) {
        Some(e) => filename.append(e.as_str()),
        None => filename.append("wav"),
    }
    DownloadPlan { path: stem_path, content_type, filename }
}

/// The answer to a job listing: the jobs and how many there are.
#[derive(Debug)]
pub struct JobListResponse {
    pub jobs: Vec<JobSummary>,
    pub total: usize,
}

impl JobListResponse {
    /// The listing of the given jobs.
    pub fn new(jobs: Vec<JobSummary>) -> (r: JobListResponse)
        ensures
            r.jobs@ == jobs@,
            r.total == jobs@.len(),
    {
        let total = jobs.len();
        JobListResponse { jobs, total }
    }
}

} // verus!

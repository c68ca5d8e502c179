//! Jobs of the transcoding front end: their kinds, states, options, and the summaries and
//! details handed to API clients.

use vstd::prelude::*;
use vstd::string::*;
use crate::config::audio_extensions;
use crate::text::{ascii_lowered, ascii_uppered, is_ascii_text, is_lower_ascii_text, lemma_lower_ascii_text, clone_opt_string, clone_strings, lowercase, opt_view, string_from, strings_view, to_lowercase};

verus! {

/// Job type.
#[derive(Debug, Clone, Copy, PartialEq, Eq, Structural)]
pub enum JobType {
    Transcode,
    Demucs,
}

/// Job status.
#[derive(Debug, Clone, Copy, PartialEq, Eq, Structural)]
pub enum JobStatus {
    /// Queued, waiting to start.
    Pending,
    /// Currently processing.
    Processing,
    /// Completed successfully.
    Completed,
    /// Failed with an error.
    Failed,
    /// Cancelled by the user.
    Cancelled,
}

impl JobStatus {
    /// Pending and processing jobs count against the concurrency limit.
    pub open spec fn is_active(self) -> bool {
        self is Pending || self is Processing
    }

    /// Whether the job still counts against the concurrency limit.
    pub fn active(&self) -> (r: bool)
        ensures
            r == self.is_active(),
    {
        match self {
            JobStatus::Pending | JobStatus::Processing => true,
            _ => false,
        }
    }
}

/// Output format for transcoding.
#[derive(Debug, Clone, Copy, PartialEq, Eq, Structural)]
pub enum OutputFormat {
    Mp4,
    Webm,
    Mkv,
    Mp3,
    Ogg,
    Flac,
}

impl OutputFormat {
    /// The file extension (and name) of the format.
    pub open spec fn ext(self) -> Seq<char> {
        match self {
            OutputFormat::Mp4 => "mp4"@,
            OutputFormat::Webm => "webm"@,
            OutputFormat::Mkv => "mkv"@,
            OutputFormat::Mp3 => "mp3"@,
            OutputFormat::Ogg => "ogg"@,
            OutputFormat::Flac => "flac"@,
        }
    }

    /// Whether the format carries audio only.
    pub open spec fn audio_only(self) -> bool {
        self is Mp3 || self is Ogg || self is Flac
    }

    pub fn extension(&self) -> (r: &'static str)
        ensures
            r@ == self.ext(),
    {
        match self {
            OutputFormat::Mp4 => "mp4",
            OutputFormat::Webm => "webm",
            OutputFormat::Mkv => "mkv",
            OutputFormat::Mp3 => "mp3",
            OutputFormat::Ogg => "ogg",
            OutputFormat::Flac => "flac",
        }
    }

    pub fn is_audio_only(&self) -> (r: bool)
        ensures
            r == self.audio_only(),
    {
        match self {
            OutputFormat::Mp3 | OutputFormat::Ogg | OutputFormat::Flac => true,
            _ => false,
        }
    }

    /// Parses a format name, ignoring case.
    pub fn parse(s: &str) -> (r: Result<OutputFormat, String>)
        ensures
            parses_as_format(s@, parse_result_view(r)),
    {
        let l = to_lowercase(s);
        if l == string_from("mp4") {
            Ok(OutputFormat::Mp4)
        } else if l == string_from("webm") {
            Ok(OutputFormat::Webm)
        } else if l == string_from("mkv") {
            Ok(OutputFormat::Mkv)
        } else if l == string_from("mp3") {
            Ok(OutputFormat::Mp3)
        } else if l == string_from("ogg") {
            Ok(OutputFormat::Ogg)
        } else if l == string_from("flac") {
            Ok(OutputFormat::Flac)
        } else {
            let mut e = string_from("Unknown format: ");
            e.append(s);
            proof {
                assert forall|f: OutputFormat| lowercase(s@) != #[trigger] f.ext() by {
                    match f {
                        OutputFormat::Mp4 => {},
                        OutputFormat::Webm => {},
                        OutputFormat::Mkv => {},
                        OutputFormat::Mp3 => {},
                        OutputFormat::Ogg => {},
                        OutputFormat::Flac => {},
                    }
                }
            }
            Err(e)
        }
    }
}

impl std::str::FromStr for OutputFormat {
    type Err = String;

    fn from_str(s: &str) -> (r: Result<Self, Self::Err>)
        ensures
            parses_as_format(s@, parse_result_view(r)),
    {
        OutputFormat::parse(s)
    }
}

/// A parse result with its error text taken as a sequence of characters.
pub open spec fn parse_result_view<T>(r: Result<T, String>) -> Result<T, Seq<char>> {
    match r {
        Ok(v) => Ok(v),
        Err(e) => Err(e@),
    }
}

/// What parsing `s` as an output format gives: the format whose name is `s` lowercased, or
/// `Unknown format: ` and `s` when there is none. Lowercasing is `str::to_lowercase`
/// (`lowercase`); on ASCII text it is ASCII lowercasing.
pub open spec fn parses_as_format(s: Seq<char>, r: Result<OutputFormat, Seq<char>>) -> bool {
    &&& match r {
        Ok(f) => lowercase(s) == f.ext(),
        Err(e) => (forall|f: OutputFormat| lowercase(s) != #[trigger] f.ext()) && e == "Unknown format: "@ + s,
    }
    &&& is_ascii_text(s) ==> match r {
        Ok(f) => ascii_lowered(s) == f.ext(),
        Err(_) => forall|f: OutputFormat| ascii_lowered(s) != #[trigger] f.ext(),
    }
}

/// Demucs source separation models.
#[derive(Debug, Clone, Copy, PartialEq, Eq, Structural)]
pub enum DemucsModel {
    /// htdemucs: the default hybrid transformer model.
    HtDemucs,
    /// htdemucs_ft: fine-tuned version with better quality.
    HtDemucsFineTuned,
    /// htdemucs_6s: 6-stem model (vocals, drums, bass, guitar, piano, other).
    HtDemucs6s,
    /// mdx_extra: MDX-Net model.
    MdxExtra,
}

impl Default for DemucsModel {
    fn default() -> (r: Self)
        ensures
            r == DemucsModel::HtDemucs,
    {
        DemucsModel::HtDemucs
    }
}

impl DemucsModel {
    /// The model's name.
    pub open spec fn name(self) -> Seq<char> {
        match self {
            DemucsModel::HtDemucs => "htdemucs"@,
            DemucsModel::HtDemucsFineTuned => "htdemucs_ft"@,
            DemucsModel::HtDemucs6s => "htdemucs_6s"@,
            DemucsModel::MdxExtra => "mdx_extra"@,
        }
    }

    /// The stems the model produces, in the order of its output pads.
    pub open spec fn stem_names(self) -> Seq<Seq<char>> {
        match self {
            DemucsModel::HtDemucs6s => seq!["vocals"@, "drums"@, "bass"@, "guitar"@, "piano"@, "other"@],
            _ => seq!["vocals"@, "drums"@, "bass"@, "other"@],
        }
    }

    pub fn as_str(&self) -> (r: &'static str)
        ensures
            r@ == self.name(),
    {
        match self {
            DemucsModel::HtDemucs => "htdemucs",
            DemucsModel::HtDemucsFineTuned => "htdemucs_ft",
            DemucsModel::HtDemucs6s => "htdemucs_6s",
            DemucsModel::MdxExtra => "mdx_extra",
        }
    }

    /// Returns the stems this model produces.
    pub fn stems(&self) -> (r: Vec<&'static str>)
        ensures
            r@.map_values(|s: &str| s@) == self.stem_names(),
    {
        let r = match self {
            DemucsModel::HtDemucs6s => vec!["vocals", "drums", "bass", "guitar", "piano", "other"],
            _ => vec!["vocals", "drums", "bass", "other"],
        };
        proof {
            assert(r@.map_values(|s: &str| s@) =~= self.stem_names());
        }
        r
    }

    /// Parses a model name, ignoring case.
    pub fn parse(s: &str) -> (r: Result<DemucsModel, String>)
        ensures
            parses_as_model(s@, parse_result_view(r)),
    {
        let l = to_lowercase(s);
        if l == string_from("htdemucs") {
            Ok(DemucsModel::HtDemucs)
        } else if l == string_from("htdemucs_ft") {
            Ok(DemucsModel::HtDemucsFineTuned)
        } else if l == string_from("htdemucs_6s") {
            Ok(DemucsModel::HtDemucs6s)
        } else if l == string_from("mdx_extra") {
            Ok(DemucsModel::MdxExtra)
        } else {
            let mut e = string_from("Unknown demucs model: ");
            e.append(s);
            proof {
                assert forall|m: DemucsModel| lowercase(s@) != #[trigger] m.name() by {
                    match m {
                        DemucsModel::HtDemucs => {},
                        DemucsModel::HtDemucsFineTuned => {},
                        DemucsModel::HtDemucs6s => {},
                        DemucsModel::MdxExtra => {},
                    }
                }
            }
            Err(e)
        }
    }
}

impl std::str::FromStr for DemucsModel {
    type Err = String;

    fn from_str(s: &str) -> (r: Result<Self, Self::Err>)
        ensures
            parses_as_model(s@, parse_result_view(r)),
    {
        DemucsModel::parse(s)
    }
}

/// What parsing `s` as a demucs model gives: the model whose name is `s` lowercased, or
/// `Unknown demucs model: ` and `s` when there is none (lowercasing as for formats).
pub open spec fn parses_as_model(s: Seq<char>, r: Result<DemucsModel, Seq<char>>) -> bool {
    &&& match r {
        Ok(m) => lowercase(s) == m.name(),
        Err(e) => (forall|m: DemucsModel| lowercase(s) != #[trigger] m.name()) && e == "Unknown demucs model: "@ + s,
    }
    &&& is_ascii_text(s) ==> match r {
        Ok(m) => ascii_lowered(s) == m.name(),
        Err(_) => forall|m: DemucsModel| ascii_lowered(s) != #[trigger] m.name(),
    }
}

/// Transcoding options.
#[derive(Debug, Clone, Copy, PartialEq, Eq, Structural)]
pub struct TranscodeOptions {
    pub output_format: OutputFormat,
    pub video_bitrate_kbps: Option<u32>,
    pub audio_bitrate_kbps: Option<u32>,
    pub width: Option<u32>,
    pub height: Option<u32>,
}

impl Default for TranscodeOptions {
    fn default() -> (r: Self)
        ensures
            r == (TranscodeOptions {
                output_format: OutputFormat::Mp4,
                video_bitrate_kbps: None,
                audio_bitrate_kbps: None,
                width: None,
                height: None,
            }),
    {
        TranscodeOptions {
            output_format: OutputFormat::Mp4,
            video_bitrate_kbps: None,
            audio_bitrate_kbps: None,
            width: None,
            height: None,
        }
    }
}

/// Demucs separation options.
#[derive(Debug)]
pub struct DemucsOptions {
    /// Model to use for separation.
    pub model: DemucsModel,
    /// Stems to extract (if empty, extract all).
    pub stems: Vec<String>,
    /// Output format for stems (wav or flac).
    pub output_format: String,
}

/// The contents of demucs options.
pub struct DemucsOptionsView {
    pub model: DemucsModel,
    pub stems: Seq<Seq<char>>,
    pub output_format: Seq<char>,
}

impl View for DemucsOptions {
    type V = DemucsOptionsView;

    open spec fn view(&self) -> DemucsOptionsView {
        DemucsOptionsView {
            model: self.model,
            stems: strings_view(self.stems@),
            output_format: self.output_format@,
        }
    }
}

impl Clone for DemucsOptions {
    fn clone(&self) -> (r: Self)
        ensures
            r@ == self@,
    {
        DemucsOptions {
            model: self.model,
            stems: clone_strings(&self.stems),
            output_format: self.output_format.clone(),
        }
    }
}

/// The default stem output format.
pub fn default_stem_format() -> (r: String)
    ensures
        r@ == "wav"@,
{
    string_from("wav")
}

impl Default for DemucsOptions {
    fn default() -> (r: Self)
        ensures
            r@ == (DemucsOptionsView {
                model: DemucsModel::HtDemucs,
                stems: Seq::empty(),
                output_format: "wav"@,
            }),
    {
        let r = DemucsOptions { model: DemucsModel::HtDemucs, stems: Vec::new(), output_format: default_stem_format() };
        proof {
            assert(r@.stems =~= Seq::<Seq<char>>::empty());
        }
        r
    }
}

/// Job-specific options.
#[derive(Debug)]
pub enum JobOptions {
    Transcode(TranscodeOptions),
    Demucs(DemucsOptions),
}

/// The contents of job options.
pub enum JobOptionsView {
    Transcode(TranscodeOptions),
    Demucs(DemucsOptionsView),
}

impl View for JobOptions {
    type V = JobOptionsView;

    open spec fn view(&self) -> JobOptionsView {
        match self {
            JobOptions::Transcode(o) => JobOptionsView::Transcode(*o),
            JobOptions::Demucs(o) => JobOptionsView::Demucs(o@),
        }
    }
}

impl Clone for JobOptions {
    fn clone(&self) -> (r: Self)
        ensures
            r@ == self@,
    {
        match self {
            JobOptions::Transcode(o) => JobOptions::Transcode(*o),
            JobOptions::Demucs(o) => JobOptions::Demucs(o.clone()),
        }
    }
}

impl JobOptionsView {
    pub open spec fn job_type(self) -> JobType {
        match self {
            JobOptionsView::Transcode(_) => JobType::Transcode,
            JobOptionsView::Demucs(_) => JobType::Demucs,
        }
    }
}

impl JobOptions {
    pub fn job_type(&self) -> (r: JobType)
        ensures
            r == self@.job_type(),
    {
        match self {
            JobOptions::Transcode(_) => JobType::Transcode,
            JobOptions::Demucs(_) => JobType::Demucs,
        }
    }
}

/// Progress of a job as the fraction `numerator / denominator`; `denominator` is never 0.
#[derive(Debug, Clone, Copy, PartialEq, Eq, Structural)]
pub struct Progress {
    pub numerator: u64,
    pub denominator: u64,
}

impl Progress {
    pub open spec fn wf(self) -> bool {
        self.denominator > 0
    }

    /// No progress: 0.
    pub fn none() -> (r: Progress)
        ensures
            r == (Progress { numerator: 0, denominator: 1 }),
    {
        Progress { numerator: 0, denominator: 1 }
    }

    /// Done: 1.
    pub fn complete() -> (r: Progress)
        ensures
            r == (Progress { numerator: 1, denominator: 1 }),
    {
        Progress { numerator: 1, denominator: 1 }
    }

    /// The progress a position query reports, between 0 and 1: position over duration when
    /// both are known and the duration is positive (1 once the position reaches the duration),
    /// and 0 otherwise.
    pub open spec fn spec_from_position(position_ns: Option<u64>, duration_ns: Option<u64>) -> Progress {
        match (position_ns, duration_ns) {
            (Some(p), Some(d)) => if d > 0 {
                Progress { numerator: if p <= d { p } else { d }, denominator: d }
            } else {
                Progress { numerator: 0, denominator: 1 }
            },
            _ => Progress { numerator: 0, denominator: 1 },
        }
    }

    pub fn from_position(position_ns: Option<u64>, duration_ns: Option<u64>) -> (r: Progress)
        ensures
            r == Progress::spec_from_position(position_ns, duration_ns),
            r.wf(),
            r.numerator <= r.denominator,
    {
        match (position_ns, duration_ns) {
            (Some(p), Some(d)) => if d > 0 {
                Progress { numerator: if p <= d { p } else { d }, denominator: d }
            } else {
                Progress::none()
            },
            _ => Progress::none(),
        }
    }
}

/// A processing job (transcode or demucs).
#[derive(Debug)]
pub struct Job {
    /// Unique job ID.
    pub id: String,
    pub job_type: JobType,
    /// gpop pipeline ID (assigned when the pipeline is created).
    pub pipeline_id: Option<String>,
    pub status: JobStatus,
    /// Original input filename.
    pub input_filename: String,
    /// Full path to the uploaded input file.
    pub input_path: String,
    /// Output file (transcode) or output directory (demucs).
    pub output_path: String,
    /// Output paths of demucs stems (filled in on completion).
    pub output_stems: Vec<String>,
    pub options: JobOptions,
    pub progress: Progress,
    /// Current position in nanoseconds.
    pub position_ns: Option<u64>,
    /// Total duration in nanoseconds.
    pub duration_ns: Option<u64>,
    /// Error message if failed.
    pub error: Option<String>,
    /// Creation time (milliseconds since the Unix epoch).
    pub created_at: i64,
    /// When processing started.
    pub started_at: Option<i64>,
    /// When processing ended.
    pub completed_at: Option<i64>,
}

/// The contents of a job.
pub struct JobView {
    pub id: Seq<char>,
    pub job_type: JobType,
    pub pipeline_id: Option<Seq<char>>,
    pub status: JobStatus,
    pub input_filename: Seq<char>,
    pub input_path: Seq<char>,
    pub output_path: Seq<char>,
    pub output_stems: Seq<Seq<char>>,
    pub options: JobOptionsView,
    pub progress: Progress,
    pub position_ns: Option<u64>,
    pub duration_ns: Option<u64>,
    pub error: Option<Seq<char>>,
    pub created_at: i64,
    pub started_at: Option<i64>,
    pub completed_at: Option<i64>,
}

impl View for Job {
    type V = JobView;

    open spec fn view(&self) -> JobView {
        JobView {
            id: self.id@,
            job_type: self.job_type,
            pipeline_id: opt_view(self.pipeline_id),
            status: self.status,
            input_filename: self.input_filename@,
            input_path: self.input_path@,
            output_path: self.output_path@,
            output_stems: strings_view(self.output_stems@),
            options: self.options@,
            progress: self.progress,
            position_ns: self.position_ns,
            duration_ns: self.duration_ns,
            error: opt_view(self.error),
            created_at: self.created_at,
            started_at: self.started_at,
            completed_at: self.completed_at,
        }
    }
}

impl Clone for Job {
    fn clone(&self) -> (r: Self)
        ensures
            r@ == self@,
    {
        Job {
            id: self.id.clone(),
            job_type: self.job_type,
            pipeline_id: clone_opt_string(&self.pipeline_id),
            status: self.status,
            input_filename: self.input_filename.clone(),
            input_path: self.input_path.clone(),
            output_path: self.output_path.clone(),
            output_stems: clone_strings(&self.output_stems),
            options: self.options.clone(),
            progress: self.progress,
            position_ns: self.position_ns,
            duration_ns: self.duration_ns,
            error: clone_opt_string(&self.error),
            created_at: self.created_at,
            started_at: self.started_at,
            completed_at: self.completed_at,
        }
    }
}

/// The current time, in milliseconds since the Unix epoch (`chrono::Utc::now`). Nothing is
/// stated of the value: it depends on the clock.
#[verifier::external_body]
pub(crate) fn now_millis() -> (r: i64) {
    chrono::Utc::now().timestamp_millis()
}

/// A job just created: pending, without pipeline, progress or outputs.
pub open spec fn new_job_view(
    id: Seq<char>,
    input_filename: Seq<char>,
    input_path: Seq<char>,
    output_path: Seq<char>,
    options: JobOptionsView,
    created_at: i64,
) -> JobView {
    JobView {
        id,
        job_type: options.job_type(),
        pipeline_id: None,
        status: JobStatus::Pending,
        input_filename,
        input_path,
        output_path,
        output_stems: Seq::empty(),
        options,
        progress: Progress { numerator: 0, denominator: 1 },
        position_ns: None,
        duration_ns: None,
        error: None,
        created_at,
        started_at: None,
        completed_at: None,
    }
}

impl Job {
    pub open spec fn wf(&self) -> bool {
        &&& self.progress.wf()
        &&& self.job_type == self.options@.job_type()
    }

    pub fn new_transcode(
        id: String,
        input_filename: String,
        input_path: String,
        output_path: String,
        options: TranscodeOptions,
    ) -> (r: Self)
        ensures
            r@ == new_job_view(id@, input_filename@, input_path@, output_path@, JobOptionsView::Transcode(options), r.created_at),
            r.wf(),
    {
        let r = Job {
            id,
            job_type: JobType::Transcode,
            pipeline_id: None,
            status: JobStatus::Pending,
            input_filename,
            input_path,
            output_path,
            output_stems: Vec::new(),
            options: JobOptions::Transcode(options),
            progress: Progress::none(),
            position_ns: None,
            duration_ns: None,
            error: None,
            created_at: now_millis(),
            started_at: None,
            completed_at: None,
        };
        proof {
            assert(r@.output_stems =~= Seq::<Seq<char>>::empty());
        }
        r
    }

    pub fn new_demucs(
        id: String,
        input_filename: String,
        input_path: String,
        output_dir: String,
        options: DemucsOptions,
    ) -> (r: Self)
        ensures
            r@ == new_job_view(id@, input_filename@, input_path@, output_dir@, JobOptionsView::Demucs(options@), r.created_at),
            r.wf(),
    {
        let r = Job {
            id,
            job_type: JobType::Demucs,
            pipeline_id: None,
            status: JobStatus::Pending,
            input_filename,
            input_path,
            output_path: output_dir,
            output_stems: Vec::new(),
            options: JobOptions::Demucs(options),
            progress: Progress::none(),
            position_ns: None,
            duration_ns: None,
            error: None,
            created_at: now_millis(),
            started_at: None,
            completed_at: None,
        };
        proof {
            assert(r@.output_stems =~= Seq::<Seq<char>>::empty());
        }
        r
    }

    /// The transcode options, if this is a transcode job.
    pub fn transcode_options(&self) -> (r: Option<&TranscodeOptions>)
        ensures
            match self@.options {
                JobOptionsView::Transcode(o) => r == Some(&o),
                _ => r is None,
            },
    {
        match &self.options {
            JobOptions::Transcode(opts) => Some(opts),
            _ => None,
        }
    }

    /// The demucs options, if this is a demucs job.
    pub fn demucs_options(&self) -> (r: Option<&DemucsOptions>)
        ensures
            match self@.options {
                JobOptionsView::Demucs(o) => r is Some && r->0@ == o,
                _ => r is None,
            },
    {
        match &self.options {
            JobOptions::Demucs(opts) => Some(opts),
            _ => None,
        }
    }
}

/// Job summary for API responses.
#[derive(Debug)]
pub struct JobSummary {
    pub id: String,
    pub job_type: JobType,
    pub status: JobStatus,
    pub input_filename: String,
    /// Output format (transcode) or model (demucs).
    pub output_info: String,
    pub progress: Progress,
    pub created_at: i64,
}

/// What the summary of a job says of it.
pub open spec fn output_info_of(options: JobOptionsView) -> Seq<char> {
    match options {
        JobOptionsView::Transcode(o) => o.output_format.ext(),
        JobOptionsView::Demucs(o) => o.model.name(),
    }
}

impl JobSummary {
    /// This is the summary of `job`.
    pub open spec fn summarizes(&self, job: JobView) -> bool {
        &&& self.id@ == job.id
        &&& self.job_type == job.job_type
        &&& self.status == job.status
        &&& self.input_filename@ == job.input_filename
        &&& self.output_info@ == output_info_of(job.options)
        &&& self.progress == job.progress
        &&& self.created_at == job.created_at
    }

    /// The summary of a job.
    pub fn from_job(job: &Job) -> (r: JobSummary)
        ensures
            r.summarizes(job@),
    {
        let output_info = match &job.options {
            JobOptions::Transcode(opts) => string_from(opts.output_format.extension()),
            JobOptions::Demucs(opts) => string_from(opts.model.as_str()),
        };
        JobSummary {
            id: job.id.clone(),
            job_type: job.job_type,
            status: job.status,
            input_filename: job.input_filename.clone(),
            output_info,
            progress: job.progress,
            created_at: job.created_at,
        }
    }
}

/// Stem download info for demucs jobs.
#[derive(Debug)]
pub struct StemDownload {
    pub stem: String,
    pub url: String,
}

/// Full job details for API responses.
#[derive(Debug)]
pub struct JobDetails {
    pub id: String,
    pub job_type: JobType,
    pub status: JobStatus,
    pub input_filename: String,
    pub options: JobOptions,
    pub progress: Progress,
    pub position_ns: Option<u64>,
    pub duration_ns: Option<u64>,
    pub error: Option<String>,
    /// Download URL for single-file output (transcode).
    pub download_url: Option<String>,
    /// Download URLs for multiple outputs (demucs stems).
    pub download_urls: Option<Vec<StemDownload>>,
    pub created_at: i64,
    pub started_at: Option<i64>,
    pub completed_at: Option<i64>,
}

/// The stems and URLs of a list of stem downloads.
pub open spec fn downloads_view(v: Seq<StemDownload>) -> Seq<(Seq<char>, Seq<char>)> {
    v.map_values(|d: StemDownload| (d.stem@, d.url@))
}

/// The view of optional stem downloads.
pub open spec fn opt_downloads_view(o: Option<Vec<StemDownload>>) -> Option<Seq<(Seq<char>, Seq<char>)>> {
    match o {
        Some(v) => Some(downloads_view(v@)),
        None => None,
    }
}

impl JobDetails {
    /// These are the details of `job` with the given download links.
    pub open spec fn describes(
        &self,
        job: JobView,
        download_url: Option<Seq<char>>,
        download_urls: Option<Seq<(Seq<char>, Seq<char>)>>,
    ) -> bool {
        &&& self.id@ == job.id
        &&& self.job_type == job.job_type
        &&& self.status == job.status
        &&& self.input_filename@ == job.input_filename
        &&& self.options@ == job.options
        &&& self.progress == job.progress
        &&& self.position_ns == job.position_ns
        &&& self.duration_ns == job.duration_ns
        &&& opt_view(self.error) == job.error
        &&& opt_view(self.download_url) == download_url
        &&& opt_downloads_view(self.download_urls) == download_urls
        &&& self.created_at == job.created_at
        &&& self.started_at == job.started_at
        &&& self.completed_at == job.completed_at
    }

    pub fn from_job(
        job: &Job,
        download_url: Option<String>,
        download_urls: Option<Vec<StemDownload>>,
    ) -> (r: Self)
        ensures
            r.describes(job@, opt_view(download_url), opt_downloads_view(download_urls)),
    {
        JobDetails {
            id: job.id.clone(),
            job_type: job.job_type,
            status: job.status,
            input_filename: job.input_filename.clone(),
            options: job.options.clone(),
            progress: job.progress,
            position_ns: job.position_ns,
            duration_ns: job.duration_ns,
            error: clone_opt_string(&job.error),
            download_url,
            download_urls,
            created_at: job.created_at,
            started_at: job.started_at,
            completed_at: job.completed_at,
        }
    }
}

} // verus!

verus! {

/// Each format name is lowercase ASCII.
proof fn lemma_format_name_lower(f: OutputFormat)
    ensures
        is_lower_ascii_text(f.ext()),
{
    reveal_strlit("mp4");
    reveal_strlit("webm");
    reveal_strlit("mkv");
    reveal_strlit("mp3");
    reveal_strlit("ogg");
    reveal_strlit("flac");
}

/// A format's name reads back as that format: it is ASCII, lowercasing keeps it, lowercasing
/// its uppercase form gives it back, and no other format has it. With the contract of
/// `OutputFormat::parse`, parsing `extension()` or its uppercase form gives the format.
pub proof fn lemma_format_name_reads_back(f: OutputFormat)
    ensures
        is_ascii_text(f.ext()),
        ascii_lowered(f.ext()) == f.ext(),
        is_ascii_text(ascii_uppered(f.ext())),
        ascii_lowered(ascii_uppered(f.ext())) == f.ext(),
        forall|g: OutputFormat| #[trigger] g.ext() == f.ext() ==> g == f,
{
    lemma_format_name_lower(f);
    lemma_lower_ascii_text(f.ext());
    reveal_strlit("mp4");
    reveal_strlit("webm");
    reveal_strlit("mkv");
    reveal_strlit("mp3");
    reveal_strlit("ogg");
    reveal_strlit("flac");
    assert forall|g: OutputFormat| #[trigger] g.ext() == f.ext() implies g == f by {
        if g != f && g.ext().len() == f.ext().len() {
            if g.ext()[0] == f.ext()[0] && g.ext()[1] == f.ext()[1] {
                assert(g.ext()[2] != f.ext()[2]);
            }
        }
    }
}

/// Each model name is lowercase ASCII.
proof fn lemma_model_name_lower(m: DemucsModel)
    ensures
        is_lower_ascii_text(m.name()),
{
    reveal_strlit("htdemucs");
    reveal_strlit("htdemucs_ft");
    reveal_strlit("htdemucs_6s");
    reveal_strlit("mdx_extra");
}

/// A model's name reads back as that model: it is ASCII, lowercasing keeps it, lowercasing
/// its uppercase form gives it back, and no other model has it. With the contract of
/// `DemucsModel::parse`, parsing `as_str()` or its uppercase form gives the model.
pub proof fn lemma_model_name_reads_back(m: DemucsModel)
    ensures
        is_ascii_text(m.name()),
        ascii_lowered(m.name()) == m.name(),
        is_ascii_text(ascii_uppered(m.name())),
        ascii_lowered(ascii_uppered(m.name())) == m.name(),
        forall|n: DemucsModel| #[trigger] n.name() == m.name() ==> n == m,
{
    lemma_model_name_lower(m);
    lemma_lower_ascii_text(m.name());
    assert forall|n: DemucsModel| #[trigger] n.name() == m.name() implies n == m by {
        crate::api::lemma_model_names_distinct(n, m);
    }
}

/// The audio-only formats are those whose name is an audio extension.
pub proof fn lemma_audio_only_formats(f: OutputFormat)
    ensures
        f.audio_only() <==> audio_extensions().contains(f.ext()),
{
    reveal_strlit("mp4");
    reveal_strlit("webm");
    reveal_strlit("mkv");
    reveal_strlit("mp3");
    reveal_strlit("ogg");
    reveal_strlit("flac");
    reveal_strlit("wav");
    reveal_strlit("aac");
    reveal_strlit("m4a");
    reveal_strlit("wma");
    reveal_strlit("opus");
    let a = audio_extensions();
    if f.audio_only() {
        match f {
            OutputFormat::Mp3 => assert(a[0] == f.ext()),
            OutputFormat::Ogg => assert(a[2] == f.ext()),
            _ => assert(a[3] == f.ext()),
        }
    } else {
        assert forall|i: int| 0 <= i < a.len() implies #[trigger] a[i] != f.ext() by {
            if a[i].len() == f.ext().len() {
                if a[i][0] == f.ext()[0] && a[i][1] == f.ext()[1] {
                    assert(a[i][2] != f.ext()[2]);
                }
            }
        }
    }
}


/// Parsing a format's name gives the format back, and so does parsing its uppercase form:
/// whatever `OutputFormat::parse` (or `from_str`) returns on `extension()` or on its
/// uppercasing is `Ok` of that format.
pub proof fn lemma_format_parse_round_trip(
    f: OutputFormat,
    r: Result<OutputFormat, Seq<char>>,
    u: Result<OutputFormat, Seq<char>>,
)
    requires
        parses_as_format(f.ext(), r),
        parses_as_format(ascii_uppered(f.ext()), u),
    ensures
        r == Ok::<OutputFormat, Seq<char>>(f),
        u == Ok::<OutputFormat, Seq<char>>(f),
{
    lemma_format_name_reads_back(f);
    match r {
        Ok(g) => assert(g.ext() == f.ext()),
        Err(_) => assert(ascii_lowered(f.ext()) == f.ext()),
    }
    match u {
        Ok(g) => assert(g.ext() == f.ext()),
        Err(_) => assert(ascii_lowered(ascii_uppered(f.ext())) == f.ext()),
    }
}

/// Parsing a model's name gives the model back, and so does parsing its uppercase form.
pub proof fn lemma_model_parse_round_trip(
    m: DemucsModel,
    r: Result<DemucsModel, Seq<char>>,
    u: Result<DemucsModel, Seq<char>>,
)
    requires
        parses_as_model(m.name(), r),
        parses_as_model(ascii_uppered(m.name()), u),
    ensures
        r == Ok::<DemucsModel, Seq<char>>(m),
        u == Ok::<DemucsModel, Seq<char>>(m),
{
    lemma_model_name_reads_back(m);
    match r {
        Ok(n) => assert(n.name() == m.name()),
        Err(_) => assert(ascii_lowered(m.name()) == m.name()),
    }
    match u {
        Ok(n) => assert(n.name() == m.name()),
        Err(_) => assert(ascii_lowered(ascii_uppered(m.name())) == m.name()),
    }
}

} // verus!

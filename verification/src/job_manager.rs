//! The lifecycle of transcode and demucs jobs: admission under the concurrency limit,
//! registration, the pipeline that runs each job, completion, failure, cancellation,
//! progress, and the routing of daemon events to jobs.
//!
//! The manager holds the state and makes the decisions; the caller performs what they call
//! for on the pipeline daemon and on storage.

use vstd::prelude::*;
use vstd::string::*;
use crate::error::{AppError, AppErrorView};
use crate::job_pipeline::{
    build_demucs_pipeline, build_transcode_pipeline, demucs_output_files, demucs_pipeline_for, escaped,
    get_demucs_output_files, pairs_view, transcode_fits, transcode_pipeline_for,
};
use crate::job_types::{
    DemucsOptions, Job, JobDetails, JobOptions, JobOptionsView, JobStatus, JobSummary, JobType, JobView,
    Progress, StemDownload, TranscodeOptions, downloads_view, new_job_view,
};
use crate::progress::{GpopEvent, GpopEventView, ProgressMessage, ProgressMessageView};
use crate::table::{Keyed, Table};
use crate::text::{decimal, opt_view, push_decimal, str_eq, string_from, strings_view};

verus! {

impl Keyed for Job {
    open spec fn key(&self) -> Seq<char> {
        self.id@
    }

    fn key_str(&self) -> (r: &str) {
        self.id.as_str()
    }
}

/// Routes the events of a pipeline to the job it runs.
pub struct PipelineLink {
    pub pipeline_id: String,
    pub job_id: String,
}

impl View for PipelineLink {
    /// The job the pipeline runs.
    type V = Seq<char>;

    open spec fn view(&self) -> Seq<char> {
        self.job_id@
    }
}

impl Keyed for PipelineLink {
    open spec fn key(&self) -> Seq<char> {
        self.pipeline_id@
    }

    fn key_str(&self) -> (r: &str) {
        self.pipeline_id.as_str()
    }
}

/// A job's type agrees with its options and its progress is a fraction.
pub open spec fn job_view_wf(j: JobView) -> bool {
    j.progress.wf() && j.job_type == j.options.job_type()
}

/// Number of pending or processing jobs among `s`.
pub open spec fn count_active(s: Seq<Job>) -> nat
    decreases s.len(),
{
    if s.len() == 0 {
        0
    } else {
        count_active(s.drop_last()) + if s.last().status.is_active() { 1nat } else { 0nat }
    }
}

/// The job once its pipeline has been created.
pub open spec fn started_view(j: JobView, pipeline_id: Seq<char>, t: i64) -> JobView {
    JobView { pipeline_id: Some(pipeline_id), status: JobStatus::Processing, started_at: Some(t), ..j }
}

/// The job once it has failed.
pub open spec fn failed_view(j: JobView, error: Seq<char>, t: i64) -> JobView {
    JobView { status: JobStatus::Failed, error: Some(error), completed_at: Some(t), ..j }
}

/// The job once it was cancelled.
pub open spec fn cancelled_view(j: JobView, t: i64) -> JobView {
    JobView { status: JobStatus::Cancelled, completed_at: Some(t), ..j }
}

/// The outputs a job records on completion: the stem files of a demucs job.
pub open spec fn completed_stems(j: JobView) -> Seq<Seq<char>> {
    match j.options {
        JobOptionsView::Demucs(o) => if j.job_type == JobType::Demucs {
            demucs_output_files(j.output_path, o).map_values(|p: (Seq<char>, Seq<char>)| p.1)
        } else {
            j.output_stems
        },
        _ => j.output_stems,
    }
}

/// The job once it has completed.
pub open spec fn completed_view(j: JobView, t: i64) -> JobView {
    JobView {
        status: JobStatus::Completed,
        progress: Progress { numerator: 1, denominator: 1 },
        completed_at: Some(t),
        output_stems: completed_stems(j),
        ..j
    }
}

/// The job after a position query.
pub open spec fn with_position(j: JobView, position_ns: Option<u64>, duration_ns: Option<u64>) -> JobView {
    JobView {
        progress: Progress::spec_from_position(position_ns, duration_ns),
        position_ns,
        duration_ns,
        ..j
    }
}

/// The download URL of a transcode job.
pub open spec fn download_url(job_id: Seq<char>) -> Seq<char> {
    "/api/jobs/"@ + job_id + "/download"@
}

/// The download URL of one stem of a demucs job.
pub open spec fn stem_url(job_id: Seq<char>, stem: Seq<char>) -> Seq<char> {
    "/api/jobs/"@ + job_id + "/download/"@ + stem
}

/// The message announcing a completed job.
pub open spec fn completion_message(j: JobView) -> ProgressMessageView {
    if j.job_type == JobType::Transcode {
        ProgressMessageView::JobCompleted { job_id: j.id, download_url: download_url(j.id) }
    } else {
        ProgressMessageView::DemucsCompleted { job_id: j.id }
    }
}

/// The stems and download URLs of a completed demucs job.
pub open spec fn stem_downloads(job_id: Seq<char>, dir: Seq<char>, o: crate::job_types::DemucsOptionsView) -> Seq<(Seq<char>, Seq<char>)> {
    demucs_output_files(dir, o).map_values(|p: (Seq<char>, Seq<char>)| (p.0, stem_url(job_id, p.0)))
}

/// The download links shown with a job: only a completed job has any.
pub open spec fn download_links(j: JobView) -> (Option<Seq<char>>, Option<Seq<(Seq<char>, Seq<char>)>>) {
    if j.status == JobStatus::Completed {
        match j.job_type {
            JobType::Transcode => (Some(download_url(j.id)), None),
            JobType::Demucs => match j.options {
                JobOptionsView::Demucs(o) => (None, Some(stem_downloads(j.id, j.output_path, o))),
                _ => (None, None),
            },
        }
    } else {
        (None, None)
    }
}

/// The (job, pipeline) pairs of the processing jobs that have a pipeline, in table order.
pub open spec fn processing_pipelines(s: Seq<Job>) -> Seq<(Seq<char>, Seq<char>)>
    decreases s.len(),
{
    if s.len() == 0 {
        Seq::empty()
    } else {
        let r = processing_pipelines(s.drop_last());
        let j = s.last();
        if j.status == JobStatus::Processing && j.pipeline_id is Some {
            r.push((j.id@, j.pipeline_id->0@))
        } else {
            r
        }
    }
}

/// A position report: job, position and duration.
pub open spec fn update_view(u: (String, Option<u64>, Option<u64>)) -> (Seq<char>, Option<u64>, Option<u64>) {
    (u.0@, u.1, u.2)
}

/// The jobs after applying position reports in order; reports for unknown jobs are skipped.
pub open spec fn after_positions(
    m: Map<Seq<char>, JobView>,
    us: Seq<(Seq<char>, Option<u64>, Option<u64>)>,
) -> Map<Seq<char>, JobView>
    decreases us.len(),
{
    if us.len() == 0 {
        m
    } else {
        let m1 = after_positions(m, us.drop_last());
        let u = us.last();
        if m1.contains_key(u.0) {
            m1.insert(u.0, with_position(m1[u.0], u.1, u.2))
        } else {
            m1
        }
    }
}

/// The progress messages for position reports: one per report of a known job.
pub open spec fn position_messages(
    m: Map<Seq<char>, JobView>,
    us: Seq<(Seq<char>, Option<u64>, Option<u64>)>,
) -> Seq<ProgressMessageView>
    decreases us.len(),
{
    if us.len() == 0 {
        Seq::empty()
    } else {
        let r = position_messages(m, us.drop_last());
        let u = us.last();
        if m.contains_key(u.0) {
            r.push(ProgressMessageView::Progress {
                job_id: u.0,
                progress: Progress::spec_from_position(u.1, u.2),
                position_ns: u.1,
                duration_ns: u.2,
            })
        } else {
            r
        }
    }
}

pub proof fn lemma_after_positions_domain(
    m: Map<Seq<char>, JobView>,
    us: Seq<(Seq<char>, Option<u64>, Option<u64>)>,
)
    ensures
        after_positions(m, us).dom() == m.dom(),
    decreases us.len(),
{
    if us.len() > 0 {
        lemma_after_positions_domain(m, us.drop_last());
        let m1 = after_positions(m, us.drop_last());
        if m1.contains_key(us.last().0) {
            assert(m1.insert(us.last().0, with_position(m1[us.last().0], us.last().1, us.last().2)).dom() =~= m1.dom());
        }
    }
}

/// What the caller does after an event: send a message to browser clients and remove a
/// finished pipeline from the daemon.
pub struct EventOutcome {
    pub message: Option<ProgressMessage>,
    pub remove_pipeline: Option<String>,
}

/// Which outputs of a deleted job are removed from storage.
#[derive(Debug)]
pub enum OutputCleanup {
    /// The output file with this extension.
    File(String),
    /// The whole output directory.
    Directory,
    /// Nothing.
    Nothing,
}

/// The job lifecycle state.
pub struct JobManager {
    jobs: Table<Job>,
    /// Map pipeline id -> job id for event routing.
    pipeline_to_job: Table<PipelineLink>,
    max_concurrent_jobs: usize,
}

impl JobManager {
    /// The jobs by id.
    pub closed spec fn jobs(&self) -> Map<Seq<char>, JobView> {
        self.jobs@
    }

    /// The jobs in the order they were registered.
    pub closed spec fn job_list(&self) -> Seq<Job> {
        self.jobs.items()
    }

    /// The job run by each pipeline.
    pub closed spec fn routes(&self) -> Map<Seq<char>, Seq<char>> {
        self.pipeline_to_job@
    }

    /// Maximum number of concurrently active jobs.
    pub closed spec fn max_jobs(&self) -> nat {
        self.max_concurrent_jobs as nat
    }

    /// Number of active (pending or processing) jobs.
    pub closed spec fn active_count(&self) -> nat {
        count_active(self.jobs.items())
    }

    pub closed spec fn wf(&self) -> bool {
        &&& self.jobs.wf()
        &&& self.pipeline_to_job.wf()
        &&& forall|k: Seq<char>| #[trigger] self.jobs@.contains_key(k) ==> self.jobs@[k].id == k && job_view_wf(self.jobs@[k])
    }

    /// Every job is stored under its own id and is well formed.
    pub proof fn lemma_jobs_wf(&self)
        requires
            self.wf(),
        ensures
            forall|k: Seq<char>| #[trigger] self.jobs().contains_key(k) ==> self.jobs()[k].id == k && job_view_wf(self.jobs()[k]),
    {
    }

    pub fn new(max_concurrent_jobs: usize) -> (r: Self)
        ensures
            r.wf(),
            r.jobs() == Map::<Seq<char>, JobView>::empty(),
            r.routes() == Map::<Seq<char>, Seq<char>>::empty(),
            r.job_list() == Seq::<Job>::empty(),
            r.max_jobs() == max_concurrent_jobs,
    {
        JobManager { jobs: Table::new(), pipeline_to_job: Table::new(), max_concurrent_jobs }
    }

    /// The number of active jobs.
    fn active_jobs(&self) -> (r: usize)
        ensures
            r == self.active_count(),
    {
        let entries = self.jobs.entries();
        let mut count: usize = 0;
        let mut i: usize = 0;
        while i < entries.len()
            invariant
                entries@ == self.jobs.items(),
                i <= entries@.len(),
                count == count_active(entries@.take(i as int)),
                count <= i,
            decreases entries@.len() - i,
        {
            proof {
                assert(entries@.take(i + 1).drop_last() =~= entries@.take(i as int));
            }
            if entries[i].status.active() {
                count = count + 1;
            }
            i = i + 1;
        }
        proof {
            assert(entries@.take(entries@.len() as int) =~= entries@);
        }
        count
    }

    /// Check if there's room for another concurrent job.
    pub fn check_concurrent_limit(&self) -> (r: Result<(), AppError>)
        ensures
            r is Ok <==> self.active_count() < self.max_jobs(),
            r is Err ==> r->Err_0@ == AppErrorView::Internal(
                "Maximum concurrent jobs ("@ + decimal(self.max_jobs()) + ") reached"@,
            ),
    {
        let active_count = self.active_jobs();
        if active_count >= self.max_concurrent_jobs {
            let mut msg = string_from("Maximum concurrent jobs (");
            push_decimal(&mut msg, self.max_concurrent_jobs as u64);
            msg.append(") reached");
            return Err(AppError::Internal(msg));
        }
        Ok(())
    }

    /// Admits a new job: checks the concurrency limit and draws a fresh job id.
    pub fn admit_job(&self) -> (r: Result<String, AppError>)
        ensures
            r is Ok <==> self.active_count() < self.max_jobs(),
            r is Ok ==> is_uuid_v4_text(r->Ok_0@),
            r is Err ==> r->Err_0@ == AppErrorView::Internal(
                "Maximum concurrent jobs ("@ + decimal(self.max_jobs()) + ") reached"@,
            ),
    {
        match self.check_concurrent_limit() {
            Ok(()) => Ok(new_uuid()),
            Err(e) => Err(e),
        }
    }

    fn put_job(&mut self, job: Job)
        requires
            old(self).wf(),
            job.wf(),
        ensures
            final(self).wf(),
            final(self).jobs() == old(self).jobs().insert(job.id@, job@),
            final(self).routes() == old(self).routes(),
            final(self).max_jobs() == old(self).max_jobs(),
    {
        self.jobs.insert(job);
    }

    /// Registers a new transcode job and returns the description of its pipeline.
    pub fn register_transcode_job(
        &mut self,
        job_id: String,
        filename: &str,
        input_path: String,
        output_path: String,
        options: TranscodeOptions,
    ) -> (r: String)
        requires
            old(self).wf(),
            transcode_fits(options),
        ensures
            final(self).wf(),
            final(self).jobs() == old(self).jobs().insert(
                job_id@,
                new_job_view(job_id@, filename@, input_path@, output_path@, JobOptionsView::Transcode(options), final(self).jobs()[job_id@].created_at),
            ),
            final(self).routes() == old(self).routes(),
            final(self).max_jobs() == old(self).max_jobs(),
            r@ == transcode_pipeline_for(escaped(input_path@), escaped(output_path@), options),
    {
        let desc = build_transcode_pipeline(input_path.as_str(), output_path.as_str(), &options);
        let job = Job::new_transcode(job_id, string_from(filename), input_path, output_path, options);
        self.put_job(job);
        desc
    }

    /// Registers a new demucs job and returns the description of its pipeline.
    pub fn register_demucs_job(
        &mut self,
        job_id: String,
        filename: &str,
        input_path: String,
        output_dir: String,
        options: DemucsOptions,
    ) -> (r: String)
        requires
            old(self).wf(),
        ensures
            final(self).wf(),
            final(self).jobs() == old(self).jobs().insert(
                job_id@,
                new_job_view(job_id@, filename@, input_path@, output_dir@, JobOptionsView::Demucs(options@), final(self).jobs()[job_id@].created_at),
            ),
            final(self).routes() == old(self).routes(),
            final(self).max_jobs() == old(self).max_jobs(),
            r@ == demucs_pipeline_for(escaped(input_path@), escaped(output_dir@), options@),
    {
        let desc = build_demucs_pipeline(input_path.as_str(), output_dir.as_str(), &options);
        let job = Job::new_demucs(job_id, string_from(filename), input_path, output_dir, options);
        self.put_job(job);
        desc
    }

    /// Records that the pipeline of a job was created: the job is processing on that
    /// pipeline from the returned time on, and the pipeline's events go to the job.
    pub fn pipeline_started(&mut self, job_id: &str, pipeline_id: &str) -> (t: i64)
        requires
            old(self).wf(),
        ensures
            final(self).wf(),
            old(self).jobs().contains_key(job_id@) ==> final(self).jobs() == old(self).jobs().insert(
                job_id@,
                started_view(old(self).jobs()[job_id@], pipeline_id@, t),
            ),
            !old(self).jobs().contains_key(job_id@) ==> final(self).jobs() == old(self).jobs(),
            final(self).routes() == old(self).routes().insert(pipeline_id@, job_id@),
            final(self).max_jobs() == old(self).max_jobs(),
    {
        let t = crate::job_types::now_millis();
        match self.jobs.get(job_id) {
            Some(j) => {
                let mut job = j.clone();
                job.pipeline_id = Some(string_from(pipeline_id));
                job.status = JobStatus::Processing;
                job.started_at = Some(t);
                proof {
                    assert(job@ == started_view(old(self).jobs()[job_id@], pipeline_id@, t));
                }
                self.jobs.insert(job);
            },
            None => {},
        }
        self.pipeline_to_job.insert(PipelineLink { pipeline_id: string_from(pipeline_id), job_id: string_from(job_id) });
        t
    }

    /// Mark a job as failed. The returned message is sent whether or not the job exists.
    pub fn mark_job_failed(&mut self, job_id: &str, error: &str) -> (r: ProgressMessage)
        requires
            old(self).wf(),
        ensures
            final(self).wf(),
            old(self).jobs().contains_key(job_id@) ==> {
                &&& final(self).jobs()[job_id@].completed_at is Some
                &&& final(self).jobs() == old(self).jobs().insert(
                    job_id@,
                    failed_view(old(self).jobs()[job_id@], error@, final(self).jobs()[job_id@].completed_at->0),
                )
            },
            !old(self).jobs().contains_key(job_id@) ==> final(self).jobs() == old(self).jobs(),
            final(self).routes() == old(self).routes(),
            final(self).max_jobs() == old(self).max_jobs(),
            r@ == (ProgressMessageView::JobFailed { job_id: job_id@, error: error@ }),
    {
        match self.jobs.get(job_id) {
            Some(j) => {
                let mut job = j.clone();
                let t = crate::job_types::now_millis();
                job.status = JobStatus::Failed;
                job.error = Some(string_from(error));
                job.completed_at = Some(t);
                proof {
                    assert(job@ == failed_view(old(self).jobs()[job_id@], error@, t));
                }
                self.jobs.insert(job);
            },
            None => {},
        }
        ProgressMessage::JobFailed { job_id: string_from(job_id), error: string_from(error) }
    }

    /// Mark a job as completed. Returns the completion message, if the job exists.
    pub fn mark_job_completed(&mut self, job_id: &str) -> (r: Option<ProgressMessage>)
        requires
            old(self).wf(),
        ensures
            final(self).wf(),
            old(self).jobs().contains_key(job_id@) ==> {
                &&& final(self).jobs()[job_id@].completed_at is Some
                &&& final(self).jobs() == old(self).jobs().insert(
                    job_id@,
                    completed_view(old(self).jobs()[job_id@], final(self).jobs()[job_id@].completed_at->0),
                )
                &&& r is Some && r->0@ == completion_message(old(self).jobs()[job_id@])
            },
            !old(self).jobs().contains_key(job_id@) ==> final(self).jobs() == old(self).jobs() && r is None,
            final(self).routes() == old(self).routes(),
            final(self).max_jobs() == old(self).max_jobs(),
    {
        match self.jobs.get(job_id) {
            Some(j) => {
                let mut job = j.clone();
                let t = crate::job_types::now_millis();
                job.status = JobStatus::Completed;
                job.progress = Progress::complete();
                job.completed_at = Some(t);
                if job.job_type == JobType::Demucs {
                    let stems = match &job.options {
                        JobOptions::Demucs(opts) => Some(get_demucs_output_files(job.output_path.as_str(), opts)),
                        _ => None,
                    };
                    if let Some(files) = stems {
                        let mut paths: Vec<String> = Vec::new();
                        let mut i: usize = 0;
                        while i < files.len()
                            invariant
                                i <= files@.len(),
                                strings_view(paths@) == pairs_view(files@).take(i as int).map_values(|p: (Seq<char>, Seq<char>)| p.1),
                            decreases files@.len() - i,
                        {
                            let ghost before = paths@;
                            paths.push(files[i].1.clone());
                            proof {
                                assert(strings_view(paths@) =~= strings_view(before).push(files@[i as int].1@));
                                assert(pairs_view(files@).take(i + 1).map_values(|p: (Seq<char>, Seq<char>)| p.1)
                                    =~= pairs_view(files@).take(i as int).map_values(|p: (Seq<char>, Seq<char>)| p.1).push(files@[i as int].1@));
                            }
                            i = i + 1;
                        }
                        proof {
                            assert(pairs_view(files@).take(files@.len() as int) =~= pairs_view(files@));
                        }
                        job.output_stems = paths;
                    }
                }
                proof {
                    assert(job@ =~= completed_view(old(self).jobs()[job_id@], t));
                }
                let jt = job.job_type;
                self.jobs.insert(job);
                if jt == JobType::Transcode {
                    let mut url = string_from("/api/jobs/");
                    url.append(job_id);
                    url.append("/download");
                    Some(ProgressMessage::JobCompleted { job_id: string_from(job_id), download_url: url })
                } else {
                    Some(ProgressMessage::DemucsCompleted { job_id: string_from(job_id) })
                }
            },
            None => None,
        }
    }

    /// The job that a pipeline runs.
    pub fn get_job_id_for_pipeline(&self, pipeline_id: &str) -> (r: Option<String>)
        requires
            self.wf(),
        ensures
            r is Some == self.routes().contains_key(pipeline_id@),
            r is Some ==> r->0@ == self.routes()[pipeline_id@],
    {
        match self.pipeline_to_job.get(pipeline_id) {
            Some(link) => Some(link.job_id.clone()),
            None => None,
        }
    }

    fn unroute(&mut self, pipeline_id: &str)
        requires
            old(self).wf(),
        ensures
            final(self).wf(),
            final(self).jobs() == old(self).jobs(),
            final(self).routes() == old(self).routes().remove(pipeline_id@),
            final(self).max_jobs() == old(self).max_jobs(),
    {
        let _ = self.pipeline_to_job.remove(pipeline_id);
    }

    /// Handle an event from the pipeline daemon. End of stream completes the pipeline's
    /// job, an error fails it; in both cases the pipeline is no longer routed and is to be
    /// removed from the daemon. A state change is passed on to browser clients. Events of
    /// pipelines that run no job, and other events, change nothing.
    pub fn handle_gpop_event(&mut self, event: GpopEvent) -> (r: EventOutcome)
        requires
            old(self).wf(),
        ensures
            final(self).wf(),
            final(self).max_jobs() == old(self).max_jobs(),
            match event@ {
                GpopEventView::Eos { pipeline_id } => if old(self).routes().contains_key(pipeline_id) {
                    let job_id = old(self).routes()[pipeline_id];
                    &&& final(self).routes() == old(self).routes().remove(pipeline_id)
                    &&& opt_view(r.remove_pipeline) == Some(pipeline_id)
                    &&& old(self).jobs().contains_key(job_id) ==> {
                        &&& final(self).jobs()[job_id].completed_at is Some
                        &&& final(self).jobs() == old(self).jobs().insert(
                            job_id,
                            completed_view(old(self).jobs()[job_id], final(self).jobs()[job_id].completed_at->0),
                        )
                        &&& r.message is Some && r.message->0@ == completion_message(old(self).jobs()[job_id])
                    }
                    &&& !old(self).jobs().contains_key(job_id) ==> final(self).jobs() == old(self).jobs() && r.message is None
                } else {
                    final(self).routes() == old(self).routes() && final(self).jobs() == old(self).jobs()
                        && r.message is None && r.remove_pipeline is None
                },
                GpopEventView::Error { pipeline_id, message } => if old(self).routes().contains_key(pipeline_id) {
                    let job_id = old(self).routes()[pipeline_id];
                    &&& final(self).routes() == old(self).routes().remove(pipeline_id)
                    &&& opt_view(r.remove_pipeline) == Some(pipeline_id)
                    &&& r.message is Some && r.message->0@ == (ProgressMessageView::JobFailed { job_id, error: message })
                    &&& old(self).jobs().contains_key(job_id) ==> {
                        &&& final(self).jobs()[job_id].completed_at is Some
                        &&& final(self).jobs() == old(self).jobs().insert(
                            job_id,
                            failed_view(old(self).jobs()[job_id], message, final(self).jobs()[job_id].completed_at->0),
                        )
                    }
                    &&& !old(self).jobs().contains_key(job_id) ==> final(self).jobs() == old(self).jobs()
                } else {
                    final(self).routes() == old(self).routes() && final(self).jobs() == old(self).jobs()
                        && r.message is None && r.remove_pipeline is None
                },
                GpopEventView::StateChanged { pipeline_id, old_state, new_state } => {
                    &&& final(self).routes() == old(self).routes()
                    &&& final(self).jobs() == old(self).jobs()
                    &&& r.remove_pipeline is None
                    &&& if old(self).routes().contains_key(pipeline_id) {
                        r.message is Some && r.message->0@ == (ProgressMessageView::StateChanged {
                            job_id: old(self).routes()[pipeline_id],
                            old_state,
                            new_state,
                        })
                    } else {
                        r.message is None
                    }
                },
                _ => final(self).routes() == old(self).routes() && final(self).jobs() == old(self).jobs()
                    && r.message is None && r.remove_pipeline is None,
            },
    {
        match event {
            GpopEvent::Eos { pipeline_id } => {
                match self.get_job_id_for_pipeline(pipeline_id.as_str()) {
                    Some(job_id) => {
                        let message = self.mark_job_completed(job_id.as_str());
                        self.unroute(pipeline_id.as_str());
                        EventOutcome { message, remove_pipeline: Some(pipeline_id) }
                    },
                    None => EventOutcome { message: None, remove_pipeline: None },
                }
            },
            GpopEvent::Error { pipeline_id, message } => {
                match self.get_job_id_for_pipeline(pipeline_id.as_str()) {
                    Some(job_id) => {
                        let m = self.mark_job_failed(job_id.as_str(), message.as_str());
                        self.unroute(pipeline_id.as_str());
                        EventOutcome { message: Some(m), remove_pipeline: Some(pipeline_id) }
                    },
                    None => EventOutcome { message: None, remove_pipeline: None },
                }
            },
            GpopEvent::StateChanged { pipeline_id, old_state, new_state } => {
                match self.get_job_id_for_pipeline(pipeline_id.as_str()) {
                    Some(job_id) => EventOutcome {
                        message: Some(ProgressMessage::StateChanged { job_id, old_state, new_state }),
                        remove_pipeline: None,
                    },
                    None => EventOutcome { message: None, remove_pipeline: None },
                }
            },
            _ => EventOutcome { message: None, remove_pipeline: None },
        }
    }

    /// Get a job by ID.
    pub fn get_job(&self, job_id: &str) -> (r: Result<Job, AppError>)
        requires
            self.wf(),
        ensures
            r is Ok == self.jobs().contains_key(job_id@),
            r is Ok ==> r->Ok_0@ == self.jobs()[job_id@] && r->Ok_0.wf(),
            r is Err ==> r->Err_0@ == AppErrorView::JobNotFound(job_id@),
    {
        match self.jobs.get(job_id) {
            Some(j) => Ok(j.clone()),
            None => Err(AppError::JobNotFound(string_from(job_id))),
        }
    }

    /// Get job details with download URLs if applicable.
    pub fn get_job_details(&self, job_id: &str) -> (r: Result<JobDetails, AppError>)
        requires
            self.wf(),
        ensures
            r is Ok == self.jobs().contains_key(job_id@),
            r is Ok ==> r->Ok_0.describes(
                self.jobs()[job_id@],
                download_links(self.jobs()[job_id@]).0,
                download_links(self.jobs()[job_id@]).1,
            ),
            r is Err ==> r->Err_0@ == AppErrorView::JobNotFound(job_id@),
    {
        let job = match self.get_job(job_id) {
            Ok(j) => j,
            Err(e) => return Err(e),
        };
        if job.status == JobStatus::Completed {
            match job.job_type {
                JobType::Transcode => {
                    let mut url = string_from("/api/jobs/");
                    url.append(job_id);
                    url.append("/download");
                    Ok(JobDetails::from_job(&job, Some(url), None))
                },
                JobType::Demucs => {
                    match job.demucs_options() {
                        Some(opts) => {
                            let files = get_demucs_output_files(job.output_path.as_str(), opts);
                            let ghost expected = pairs_view(files@).map_values(|p: (Seq<char>, Seq<char>)| (p.0, stem_url(job_id@, p.0)));
                            let mut urls: Vec<StemDownload> = Vec::new();
                            let mut i: usize = 0;
                            while i < files.len()
                                invariant
                                    i <= files@.len(),
                                    expected == pairs_view(files@).map_values(|p: (Seq<char>, Seq<char>)| (p.0, stem_url(job_id@, p.0))),
                                    downloads_view(urls@) == expected.take(i as int),
                                decreases files@.len() - i,
                            {
                                let stem = files[i].0.clone();
                                let mut url = string_from("/api/jobs/");
                                url.append(job_id);
                                url.append("/download/");
                                url.append(stem.as_str());
                                let ghost before = urls@;
                                let d = StemDownload { stem, url };
                                urls.push(d);
                                proof {
                                    assert(downloads_view(urls@) =~= downloads_view(before).push((d.stem@, d.url@)));
                                    assert(expected.take(i + 1) =~= expected.take(i as int).push((d.stem@, d.url@)));
                                }
                                i = i + 1;
                            }
                            proof {
                                assert(expected.take(files@.len() as int) =~= expected);
                            }
                            Ok(JobDetails::from_job(&job, None, Some(urls)))
                        },
                        None => Ok(JobDetails::from_job(&job, None, None)),
                    }
                },
            }
        } else {
            Ok(JobDetails::from_job(&job, None, None))
        }
    }

    /// List all jobs.
    pub fn list_jobs(&self) -> (r: Vec<JobSummary>)
        ensures
            r@.len() == self.job_list().len(),
            forall|i: int| 0 <= i < r@.len() ==> #[trigger] r@[i].summarizes(self.job_list()[i]@),
    {
        let entries = self.jobs.entries();
        let mut r: Vec<JobSummary> = Vec::new();
        let mut i: usize = 0;
        while i < entries.len()
            invariant
                entries@ == self.job_list(),
                i <= entries@.len(),
                r@.len() == i,
                forall|k: int| 0 <= k < i ==> #[trigger] r@[k].summarizes(entries@[k]@),
            decreases entries@.len() - i,
        {
            r.push(JobSummary::from_job(&entries[i]));
            i = i + 1;
        }
        r
    }

    /// Phase one of deleting a job: mark it cancelled. Returns the job, for its pipeline and
    /// outputs to be removed.
    pub fn begin_delete(&mut self, job_id: &str) -> (r: Result<Job, AppError>)
        requires
            old(self).wf(),
        ensures
            final(self).wf(),
            r is Ok == old(self).jobs().contains_key(job_id@),
            r is Ok ==> {
                &&& r->Ok_0.completed_at is Some
                &&& r->Ok_0@ == cancelled_view(old(self).jobs()[job_id@], r->Ok_0.completed_at->0)
                &&& final(self).jobs() == old(self).jobs().insert(job_id@, r->Ok_0@)
            },
            r is Err ==> r->Err_0@ == AppErrorView::JobNotFound(job_id@) && final(self).jobs() == old(self).jobs(),
            final(self).routes() == old(self).routes(),
            final(self).max_jobs() == old(self).max_jobs(),
    {
        match self.jobs.get(job_id) {
            Some(j) => {
                let mut job = j.clone();
                job.status = JobStatus::Cancelled;
                job.completed_at = Some(crate::job_types::now_millis());
                let snapshot = job.clone();
                self.jobs.insert(job);
                Ok(snapshot)
            },
            None => Err(AppError::JobNotFound(string_from(job_id))),
        }
    }

    /// Phase two of deleting a job: forget its pipeline and remove it.
    pub fn finish_delete(&mut self, job: &Job)
        requires
            old(self).wf(),
        ensures
            final(self).wf(),
            final(self).jobs() == old(self).jobs().remove(job.id@),
            final(self).routes() == match job.pipeline_id {
                Some(p) => old(self).routes().remove(p@),
                None => old(self).routes(),
            },
            final(self).max_jobs() == old(self).max_jobs(),
    {
        if let Some(pipeline_id) = &job.pipeline_id {
            self.unroute(pipeline_id.as_str());
        }
        let _ = self.jobs.remove(job.id.as_str());
    }

    /// The outputs of a job that deletion removes from storage.
    pub fn output_cleanup(job: &Job) -> (r: OutputCleanup)
        ensures
            match (job.job_type, job@.options) {
                (JobType::Transcode, JobOptionsView::Transcode(o)) => r is File && r->File_0@ == o.output_format.ext(),
                (JobType::Transcode, _) => r is Nothing,
                (JobType::Demucs, _) => r is Directory,
            },
    {
        match job.job_type {
            JobType::Transcode => match job.transcode_options() {
                Some(opts) => OutputCleanup::File(string_from(opts.output_format.extension())),
                None => OutputCleanup::Nothing,
            },
            JobType::Demucs => OutputCleanup::Directory,
        }
    }

    /// The path of one stem of a completed demucs job. The caller still checks that the file
    /// exists.
    #[verifier::loop_isolation(false)]
    pub fn get_demucs_stem_path(&self, job_id: &str, stem: &str) -> (r: Result<String, AppError>)
        requires
            self.wf(),
        ensures
            !self.jobs().contains_key(job_id@) ==> r is Err && r->Err_0@ == AppErrorView::JobNotFound(job_id@),
            self.jobs().contains_key(job_id@) ==> {
                let j = self.jobs()[job_id@];
                if j.job_type != JobType::Demucs {
                    r is Err && r->Err_0@ == AppErrorView::Internal("Not a demucs job"@)
                } else if j.status != JobStatus::Completed {
                    r is Err && r->Err_0@ == AppErrorView::Internal("Job not completed"@)
                } else {
                    match j.options {
                        JobOptionsView::Demucs(o) => {
                            let files = demucs_output_files(j.output_path, o);
                            if exists|i: int| 0 <= i < files.len() && #[trigger] files[i].0 == stem@ {
                                r is Ok && (exists|i: int| 0 <= i < files.len() && #[trigger] files[i].0 == stem@
                                    && r->Ok_0@ == files[i].1 && forall|k: int| 0 <= k < i ==> files[k].0 != stem@)
                            } else {
                                r is Err && r->Err_0@ == AppErrorView::FileNotFound("Stem '"@ + stem@ + "' not found"@)
                            }
                        },
                        _ => r is Err && r->Err_0@ == AppErrorView::Internal("Missing demucs options"@),
                    }
                }
            },
    {
        let job = match self.get_job(job_id) {
            Ok(j) => j,
            Err(e) => return Err(e),
        };
        if job.job_type != JobType::Demucs {
            return Err(AppError::Internal(string_from("Not a demucs job")));
        }
        if job.status != JobStatus::Completed {
            return Err(AppError::Internal(string_from("Job not completed")));
        }
        let opts = match job.demucs_options() {
            Some(o) => o,
            None => return Err(AppError::Internal(string_from("Missing demucs options"))),
        };
        let files = get_demucs_output_files(job.output_path.as_str(), opts);
        let ghost fv = pairs_view(files@);
        let mut i: usize = 0;
        while i < files.len()
            invariant
                fv == pairs_view(files@),
                i <= files@.len(),
                forall|k: int| 0 <= k < i ==> fv[k].0 != stem@,
            decreases files@.len() - i,
        {
            if str_eq(files[i].0.as_str(), stem) {
                proof {
                    assert(fv[i as int].0 == stem@);
                }
                return Ok(files[i].1.clone());
            }
            i = i + 1;
        }
        let mut msg = string_from("Stem '");
        msg.append(stem);
        msg.append("' not found");
        Err(AppError::FileNotFound(msg))
    }

    /// The processing jobs that have a pipeline, with that pipeline: the ones whose progress
    /// is polled.
    pub fn processing_pipelines(&self) -> (r: Vec<(String, String)>)
        ensures
            pairs_view(r@) == processing_pipelines(self.job_list()),
    {
        let entries = self.jobs.entries();
        let mut r: Vec<(String, String)> = Vec::new();
        let mut i: usize = 0;
        while i < entries.len()
            invariant
                entries@ == self.job_list(),
                i <= entries@.len(),
                pairs_view(r@) == processing_pipelines(entries@.take(i as int)),
            decreases entries@.len() - i,
        {
            proof {
                assert(entries@.take(i + 1).drop_last() =~= entries@.take(i as int));
            }
            let j = &entries[i];
            if j.status == JobStatus::Processing {
                if let Some(p) = &j.pipeline_id {
                    let ghost before = r@;
                    let pair = (j.id.clone(), p.clone());
                    r.push(pair);
                    proof {
                        assert(pairs_view(r@) =~= pairs_view(before).push((pair.0@, pair.1@)));
                    }
                }
            }
            i = i + 1;
        }
        proof {
            assert(entries@.take(entries@.len() as int) =~= entries@);
        }
        r
    }

    /// Applies position reports in order and returns the progress messages to send.
    pub fn apply_positions(&mut self, updates: &Vec<(String, Option<u64>, Option<u64>)>) -> (r: Vec<ProgressMessage>)
        requires
            old(self).wf(),
        ensures
            final(self).wf(),
            final(self).jobs() == after_positions(old(self).jobs(), updates@.map_values(|u: (String, Option<u64>, Option<u64>)| update_view(u))),
            r@.map_values(|m: ProgressMessage| m@) == position_messages(old(self).jobs(), updates@.map_values(|u: (String, Option<u64>, Option<u64>)| update_view(u))),
            final(self).routes() == old(self).routes(),
            final(self).max_jobs() == old(self).max_jobs(),
    {
        let ghost us = updates@.map_values(|u: (String, Option<u64>, Option<u64>)| update_view(u));
        let ghost m0 = self.jobs();
        let mut r: Vec<ProgressMessage> = Vec::new();
        let mut i: usize = 0;
        while i < updates.len()
            invariant
                self.wf(),
                i <= updates@.len(),
                us == updates@.map_values(|u: (String, Option<u64>, Option<u64>)| update_view(u)),
                self.jobs() == after_positions(m0, us.take(i as int)),
                r@.map_values(|m: ProgressMessage| m@) == position_messages(m0, us.take(i as int)),
                self.routes() == old(self).routes(),
                self.max_jobs() == old(self).max_jobs(),
            decreases updates@.len() - i,
        {
            let (job_id, position_ns, duration_ns) = (&updates[i].0, updates[i].1, updates[i].2);
            proof {
                assert(us.take(i + 1).drop_last() =~= us.take(i as int));
                assert(us.take(i + 1).last() == (job_id@, position_ns, duration_ns));
                lemma_after_positions_domain(m0, us.take(i as int));
            }
            match self.jobs.get(job_id.as_str()) {
                Some(j) => {
                    let progress = Progress::from_position(position_ns, duration_ns);
                    let mut job = j.clone();
                    job.progress = progress;
                    job.position_ns = position_ns;
                    job.duration_ns = duration_ns;
                    proof {
                        assert(job@ == with_position(self.jobs()[job_id@], position_ns, duration_ns));
                    }
                    self.jobs.insert(job);
                    let ghost before = r@;
                    let msg = ProgressMessage::Progress { job_id: job_id.clone(), progress, position_ns, duration_ns };
                    r.push(msg);
                    proof {
                        assert(r@.map_values(|m: ProgressMessage| m@) =~= before.map_values(|m: ProgressMessage| m@).push(msg@));
                    }
                },
                None => {},
            }
            i = i + 1;
        }
        proof {
            assert(us.take(updates@.len() as int) =~= us);
        }
        r
    }
}

/// A lowercase hexadecimal digit.
pub open spec fn is_lower_hex(c: char) -> bool {
    ('0' <= c && c <= '9') || ('a' <= c && c <= 'f')
}

/// A version-4 UUID in its hyphenated text form: 36 characters, dashes at 8, 13, 18 and 23,
/// lowercase hexadecimal digits elsewhere, the version digit `4` at 14 and the variant digit
/// (`8`, `9`, `a` or `b`) at 19.
pub open spec fn is_uuid_v4_text(s: Seq<char>) -> bool {
    &&& s.len() == 36
    &&& forall|i: int| 0 <= i < 36 ==> if i == 8 || i == 13 || i == 18 || i == 23 {
        #[trigger] s[i] == '-'
    } else {
        is_lower_hex(s[i])
    }
    &&& s[14] == '4'
    &&& (s[19] == '8' || s[19] == '9' || s[19] == 'a' || s[19] == 'b')
}

/// A fresh identifier: `uuid::Uuid::new_v4` written with `to_string`. The contract states the
/// form every such value has (a hyphenated lowercase version-4, RFC 4122 variant UUID: the
/// version and variant bits are set by `new_v4`, the rest is random); which UUID is drawn is
/// not stated.
#[verifier::external_body]
pub(crate) fn new_uuid() -> (r: String)
    ensures
        is_uuid_v4_text(r@),
{
    uuid::Uuid::new_v4().to_string()
}

} // verus!

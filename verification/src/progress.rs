//! Messages about jobs sent to browser clients, and events received from the pipeline daemon.

use vstd::prelude::*;
use crate::job_types::Progress;

verus! {

/// Progress message sent to browser clients.
#[derive(Debug)]
pub enum ProgressMessage {
    JobStarted { job_id: String },
    Progress { job_id: String, progress: Progress, position_ns: Option<u64>, duration_ns: Option<u64> },
    JobCompleted { job_id: String, download_url: String },
    DemucsCompleted { job_id: String },
    JobFailed { job_id: String, error: String },
    StateChanged { job_id: String, old_state: String, new_state: String },
}

/// The contents of a progress message.
pub enum ProgressMessageView {
    JobStarted { job_id: Seq<char> },
    Progress { job_id: Seq<char>, progress: Progress, position_ns: Option<u64>, duration_ns: Option<u64> },
    JobCompleted { job_id: Seq<char>, download_url: Seq<char> },
    DemucsCompleted { job_id: Seq<char> },
    JobFailed { job_id: Seq<char>, error: Seq<char> },
    StateChanged { job_id: Seq<char>, old_state: Seq<char>, new_state: Seq<char> },
}

impl View for ProgressMessage {
    type V = ProgressMessageView;

    open spec fn view(&self) -> ProgressMessageView {
        match self {
            ProgressMessage::JobStarted { job_id } => ProgressMessageView::JobStarted { job_id: job_id@ },
            ProgressMessage::Progress { job_id, progress, position_ns, duration_ns } => ProgressMessageView::Progress {
                job_id: job_id@,
                progress: *progress,
                position_ns: *position_ns,
                duration_ns: *duration_ns,
            },
            ProgressMessage::JobCompleted { job_id, download_url } => ProgressMessageView::JobCompleted {
                job_id: job_id@,
                download_url: download_url@,
            },
            ProgressMessage::DemucsCompleted { job_id } => ProgressMessageView::DemucsCompleted { job_id: job_id@ },
            ProgressMessage::JobFailed { job_id, error } => ProgressMessageView::JobFailed { job_id: job_id@, error: error@ },
            ProgressMessage::StateChanged { job_id, old_state, new_state } => ProgressMessageView::StateChanged {
                job_id: job_id@,
                old_state: old_state@,
                new_state: new_state@,
            },
        }
    }
}

/// Events received from the pipeline daemon.
#[derive(Debug)]
pub enum GpopEvent {
    StateChanged { pipeline_id: String, old_state: String, new_state: String },
    Error { pipeline_id: String, message: String },
    Eos { pipeline_id: String },
    PipelineAdded { pipeline_id: String, description: String },
    PipelineRemoved { pipeline_id: String },
}

/// The contents of a daemon event.
pub enum GpopEventView {
    StateChanged { pipeline_id: Seq<char>, old_state: Seq<char>, new_state: Seq<char> },
    Error { pipeline_id: Seq<char>, message: Seq<char> },
    Eos { pipeline_id: Seq<char> },
    PipelineAdded { pipeline_id: Seq<char>, description: Seq<char> },
    PipelineRemoved { pipeline_id: Seq<char> },
}

impl View for GpopEvent {
    type V = GpopEventView;

    open spec fn view(&self) -> GpopEventView {
        match self {
            GpopEvent::StateChanged { pipeline_id, old_state, new_state } => GpopEventView::StateChanged {
                pipeline_id: pipeline_id@,
                old_state: old_state@,
                new_state: new_state@,
            },
            GpopEvent::Error { pipeline_id, message } => GpopEventView::Error {
                pipeline_id: pipeline_id@,
                message: message@,
            },
            GpopEvent::Eos { pipeline_id } => GpopEventView::Eos { pipeline_id: pipeline_id@ },
            GpopEvent::PipelineAdded { pipeline_id, description } => GpopEventView::PipelineAdded {
                pipeline_id: pipeline_id@,
                description: description@,
            },
            GpopEvent::PipelineRemoved { pipeline_id } => GpopEventView::PipelineRemoved { pipeline_id: pipeline_id@ },
        }
    }
}

} // verus!

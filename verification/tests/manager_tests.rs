use gpop::error::AppError;
use gpop::job_manager::{JobManager, OutputCleanup};
use gpop::job_types::{DemucsModel, DemucsOptions, JobStatus, JobType, OutputFormat, Progress, TranscodeOptions};
use gpop::progress::{GpopEvent, ProgressMessage};

fn transcode_job(m: &mut JobManager, id: &str) -> String {
    m.register_transcode_job(
        id.to_string(),
        "in.mkv",
        "/up/in.mkv".to_string(),
        format!("/out/{}.webm", id),
        TranscodeOptions { output_format: OutputFormat::Webm, ..Default::default() },
    )
}

#[test]
fn new_job_is_pending() {
    let mut m = JobManager::new(2);
    let desc = transcode_job(&mut m, "a");
    assert!(desc.contains("webmmux"));
    let j = m.get_job("a").unwrap();
    assert_eq!(j.status, JobStatus::Pending);
    assert_eq!(j.job_type, JobType::Transcode);
    assert_eq!(j.pipeline_id, None);
    assert_eq!(j.progress, Progress { numerator: 0, denominator: 1 });
    assert!(j.created_at > 0);
    match m.get_job("b") {
        Err(AppError::JobNotFound(id)) => assert_eq!(id, "b"),
        other => panic!("unexpected {:?}", other),
    }
}

#[test]
fn concurrency_limit() {
    let mut m = JobManager::new(1);
    let id = m.admit_job().unwrap();
    assert_eq!(id.len(), 36);
    transcode_job(&mut m, "a");
    match m.admit_job() {
        Err(AppError::Internal(msg)) => assert_eq!(msg, "Maximum concurrent jobs (1) reached"),
        other => panic!("unexpected {:?}", other),
    }
    m.pipeline_started("a", "p0");
    assert!(m.check_concurrent_limit().is_err());
    m.handle_gpop_event(GpopEvent::Eos { pipeline_id: "p0".to_string() });
    assert!(m.check_concurrent_limit().is_ok());
}

#[test]
fn eos_completes_the_job_once() {
    let mut m = JobManager::new(4);
    transcode_job(&mut m, "a");
    let t = m.pipeline_started("a", "p0");
    assert_eq!(m.get_job_id_for_pipeline("p0"), Some("a".to_string()));
    let j = m.get_job("a").unwrap();
    assert_eq!(j.status, JobStatus::Processing);
    assert_eq!(j.started_at, Some(t));
    let out = m.handle_gpop_event(GpopEvent::Eos { pipeline_id: "p0".to_string() });
    assert_eq!(out.remove_pipeline, Some("p0".to_string()));
    match out.message {
        Some(ProgressMessage::JobCompleted { job_id, download_url }) => {
            assert_eq!(job_id, "a");
            assert_eq!(download_url, "/api/jobs/a/download");
        }
        other => panic!("unexpected {:?}", other),
    }
    let j = m.get_job("a").unwrap();
    assert_eq!(j.status, JobStatus::Completed);
    assert_eq!(j.progress, Progress { numerator: 1, denominator: 1 });
    assert!(j.completed_at.is_some());
    assert_eq!(m.get_job_id_for_pipeline("p0"), None);
    let again = m.handle_gpop_event(GpopEvent::Eos { pipeline_id: "p0".to_string() });
    assert!(again.message.is_none());
    assert!(again.remove_pipeline.is_none());
}

#[test]
fn error_fails_the_job() {
    let mut m = JobManager::new(4);
    transcode_job(&mut m, "a");
    m.pipeline_started("a", "p0");
    let out = m.handle_gpop_event(GpopEvent::Error { pipeline_id: "p0".to_string(), message: "boom".to_string() });
    match out.message {
        Some(ProgressMessage::JobFailed { job_id, error }) => {
            assert_eq!(job_id, "a");
            assert_eq!(error, "boom");
        }
        other => panic!("unexpected {:?}", other),
    }
    let j = m.get_job("a").unwrap();
    assert_eq!(j.status, JobStatus::Failed);
    assert_eq!(j.error, Some("boom".to_string()));
}

#[test]
fn state_changes_are_forwarded() {
    let mut m = JobManager::new(4);
    transcode_job(&mut m, "a");
    m.pipeline_started("a", "p0");
    let out = m.handle_gpop_event(GpopEvent::StateChanged {
        pipeline_id: "p0".to_string(),
        old_state: "paused".to_string(),
        new_state: "playing".to_string(),
    });
    assert!(out.remove_pipeline.is_none());
    match out.message {
        Some(ProgressMessage::StateChanged { job_id, old_state, new_state }) => {
            assert_eq!(job_id, "a");
            assert_eq!(old_state, "paused");
            assert_eq!(new_state, "playing");
        }
        other => panic!("unexpected {:?}", other),
    }
    let other = m.handle_gpop_event(GpopEvent::PipelineAdded { pipeline_id: "p9".to_string(), description: "x".to_string() });
    assert!(other.message.is_none());
}

#[test]
fn demucs_completion_lists_stems() {
    let mut m = JobManager::new(4);
    let opts = DemucsOptions { model: DemucsModel::HtDemucs, stems: vec!["vocals".to_string(), "bass".to_string()], output_format: "flac".to_string() };
    let desc = m.register_demucs_job("d".to_string(), "song.mp3", "/up/song.mp3".to_string(), "/out/d".to_string(), opts);
    assert!(desc.contains("model=htdemucs"));
    assert!(m.get_demucs_stem_path("d", "vocals").is_err());
    m.pipeline_started("d", "p1");
    match m.handle_gpop_event(GpopEvent::Eos { pipeline_id: "p1".to_string() }).message {
        Some(ProgressMessage::DemucsCompleted { job_id }) => assert_eq!(job_id, "d"),
        other => panic!("unexpected {:?}", other),
    }
    let j = m.get_job("d").unwrap();
    assert_eq!(j.output_stems, vec!["/out/d/vocals.flac", "/out/d/bass.flac"]);
    assert_eq!(m.get_demucs_stem_path("d", "bass").unwrap(), "/out/d/bass.flac");
    match m.get_demucs_stem_path("d", "drums") {
        Err(AppError::FileNotFound(msg)) => assert_eq!(msg, "Stem 'drums' not found"),
        other => panic!("unexpected {:?}", other),
    }
    let details = m.get_job_details("d").unwrap();
    let urls: Vec<(String, String)> = details.download_urls.unwrap().into_iter().map(|s| (s.stem, s.url)).collect();
    assert_eq!(urls, vec![
        ("vocals".to_string(), "/api/jobs/d/download/vocals".to_string()),
        ("bass".to_string(), "/api/jobs/d/download/bass".to_string()),
    ]);
    assert!(matches!(JobManager::output_cleanup(&j), OutputCleanup::Directory));
}

#[test]
fn listing_and_deleting() {
    let mut m = JobManager::new(4);
    transcode_job(&mut m, "a");
    transcode_job(&mut m, "b");
    let list = m.list_jobs();
    assert_eq!(list.len(), 2);
    assert!(list.iter().all(|s| s.output_info == "webm"));
    m.pipeline_started("b", "pb");
    let j = m.begin_delete("b").unwrap();
    assert_eq!(j.status, JobStatus::Cancelled);
    match JobManager::output_cleanup(&j) {
        OutputCleanup::File(ext) => assert_eq!(ext, "webm"),
        other => panic!("unexpected {:?}", other),
    }
    m.finish_delete(&j);
    assert!(m.get_job("b").is_err());
    assert_eq!(m.get_job_id_for_pipeline("pb"), None);
    assert_eq!(m.list_jobs().len(), 1);
    assert!(m.begin_delete("zzz").is_err());
}

#[test]
fn progress_polling() {
    let mut m = JobManager::new(4);
    transcode_job(&mut m, "a");
    transcode_job(&mut m, "b");
    m.pipeline_started("a", "pa");
    assert_eq!(m.processing_pipelines(), vec![("a".to_string(), "pa".to_string())]);
    let msgs = m.apply_positions(&vec![
        ("a".to_string(), Some(50), Some(200)),
        ("ghost".to_string(), Some(1), Some(2)),
        ("b".to_string(), None, Some(10)),
    ]);
    assert_eq!(msgs.len(), 2);
    match &msgs[0] {
        ProgressMessage::Progress { job_id, progress, position_ns, duration_ns } => {
            assert_eq!(job_id, "a");
            assert_eq!(*progress, Progress { numerator: 50, denominator: 200 });
            assert_eq!(*position_ns, Some(50));
            assert_eq!(*duration_ns, Some(200));
        }
        other => panic!("unexpected {:?}", other),
    }
    let a = m.get_job("a").unwrap();
    assert_eq!(a.position_ns, Some(50));
    assert_eq!(a.progress, Progress { numerator: 50, denominator: 200 });
    let b = m.get_job("b").unwrap();
    assert_eq!(b.progress, Progress { numerator: 0, denominator: 1 });
    m.apply_positions(&vec![("a".to_string(), Some(300), Some(200))]);
    assert_eq!(m.get_job("a").unwrap().progress, Progress { numerator: 200, denominator: 200 });
}

#[test]
fn failing_unknown_job_still_reports() {
    let mut m = JobManager::new(4);
    match m.mark_job_failed("nope", "x") {
        ProgressMessage::JobFailed { job_id, error } => {
            assert_eq!(job_id, "nope");
            assert_eq!(error, "x");
        }
        other => panic!("unexpected {:?}", other),
    }
    assert!(m.mark_job_completed("nope").is_none());
}

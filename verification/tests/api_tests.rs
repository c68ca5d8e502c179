use gpop::api::{
    check_authorization, check_stem_name, plan_demucs_job, plan_stem_download, plan_transcode_job, ApiKey, CreateDemucsQuery,
    CreateTranscodeQuery, JobCreatedResponse, JobListResponse, UploadCollector,
};
use gpop::error::AppError;
use gpop::job_types::{DemucsModel, JobType, OutputFormat};
use gpop::config::is_audio_extension;

fn transcode_query(format: &str) -> CreateTranscodeQuery {
    CreateTranscodeQuery {
        output_format: format.to_string(),
        video_bitrate_kbps: Some(1000),
        audio_bitrate_kbps: None,
        width: None,
        height: Some(720),
    }
}

fn demucs_query(model: &str, stems: &str, format: &str) -> CreateDemucsQuery {
    CreateDemucsQuery { model: model.to_string(), stems: stems.to_string(), output_format: format.to_string() }
}

#[test]
fn transcode_request_accepted() {
    let o = plan_transcode_job("Movie.MKV", &transcode_query("WebM")).unwrap();
    assert_eq!(o.output_format, OutputFormat::Webm);
    assert_eq!(o.video_bitrate_kbps, Some(1000));
    assert_eq!(o.height, Some(720));
}

#[test]
fn transcode_request_errors() {
    match plan_transcode_job("noext", &transcode_query("mp4")) {
        Err(AppError::InvalidFileType(e)) => assert_eq!(e, "unknown"),
        other => panic!("unexpected {:?}", other),
    }
    match plan_transcode_job("a.exe", &transcode_query("mp4")) {
        Err(AppError::InvalidFileType(e)) => assert_eq!(e, "exe"),
        other => panic!("unexpected {:?}", other),
    }
    match plan_transcode_job("a.mp4", &transcode_query("avi")) {
        Err(AppError::Internal(e)) => assert_eq!(e, "Unknown format: avi"),
        other => panic!("unexpected {:?}", other),
    }
}

#[test]
fn demucs_request_accepted() {
    let o = plan_demucs_job("song.FLAC", &demucs_query("HTDemucs_6s", " Guitar ,piano", "flac")).unwrap();
    assert_eq!(o.model, DemucsModel::HtDemucs6s);
    assert_eq!(o.stems, vec!["guitar", "piano"]);
    assert_eq!(o.output_format, "flac");
    let o = plan_demucs_job("song.mp3", &demucs_query("htdemucs", "", "wav")).unwrap();
    assert!(o.stems.is_empty());
}

#[test]
fn demucs_request_errors() {
    match plan_demucs_job("clip.mp4", &demucs_query("htdemucs", "", "wav")) {
        Err(AppError::InvalidFileType(e)) => assert_eq!(e, "mp4 (demucs requires audio files)"),
        other => panic!("unexpected {:?}", other),
    }
    match plan_demucs_job("a.wav", &demucs_query("spleeter", "", "wav")) {
        Err(AppError::Internal(e)) => assert_eq!(e, "Unknown demucs model: spleeter"),
        other => panic!("unexpected {:?}", other),
    }
    match plan_demucs_job("a.wav", &demucs_query("htdemucs", "vocals,guitar", "wav")) {
        Err(AppError::Internal(e)) => assert_eq!(
            e,
            "Invalid stem 'guitar' for model htdemucs. Valid stems: [\"vocals\", \"drums\", \"bass\", \"other\"]"
        ),
        other => panic!("unexpected {:?}", other),
    }
    match plan_demucs_job("a.wav", &demucs_query("htdemucs", "", "mp3")) {
        Err(AppError::Internal(e)) => assert_eq!(e, "Invalid output format 'mp3'. Must be 'wav' or 'flac'"),
        other => panic!("unexpected {:?}", other),
    }
}

#[test]
fn created_response() {
    let r = JobCreatedResponse::created("id-1".to_string(), JobType::Demucs);
    assert_eq!(r.job_id, "id-1");
    assert_eq!(r.job_type, "demucs");
    assert_eq!(r.status, "pending");
    assert_eq!(r.message, "Demucs job created successfully");
}

#[test]
fn job_list_counts_jobs() {
    let r = JobListResponse::new(Vec::new());
    assert_eq!(r.total, 0);
    assert!(r.jobs.is_empty());
}

#[test]
fn upload_collection() {
    let mut c = UploadCollector::new(4);
    assert!(!c.begin_field(Some("other"), None));
    c.end_field();
    assert!(c.begin_field(Some("file"), Some("../a b.mp3")));
    assert!(c.add_chunk(&[1, 2]).is_ok());
    match c.add_chunk(&[3, 4, 5]) {
        Err(AppError::FileTooLarge(total, max)) => {
            assert_eq!(total, 5);
            assert_eq!(max, 4);
        }
        other => panic!("unexpected {:?}", other),
    }
    assert!(c.add_chunk(&[3]).is_ok());
    c.end_field();
    let (data, name) = c.finish().unwrap();
    assert_eq!(data, vec![1, 2, 3]);
    assert!(!name.contains('/'));
    match UploadCollector::new(10).finish() {
        Err(AppError::Internal(m)) => assert_eq!(m, "No file uploaded"),
        other => panic!("unexpected {:?}", other),
    }
    let mut c = UploadCollector::new(10);
    c.begin_field(Some("file"), None);
    c.end_field();
    match c.finish() {
        Err(AppError::Internal(m)) => assert_eq!(m, "No filename provided"),
        other => panic!("unexpected {:?}", other),
    }
}

#[test]
fn authorization() {
    let key = ApiKey(Some("k".to_string()));
    assert!(check_authorization(None, None));
    assert!(check_authorization(Some(&ApiKey(None)), None));
    assert!(!check_authorization(Some(&key), None));
    assert!(!check_authorization(Some(&key), Some("x")));
    assert!(!check_authorization(Some(&key), Some("k")));
    assert!(check_authorization(Some(&key), Some("Bearer k")));
}

#[test]
fn stem_names() {
    assert!(check_stem_name("vocals").is_ok());
    for bad in ["../x", "a/b", "a\\b", "a..b"] {
        match check_stem_name(bad) {
            Err(AppError::Internal(m)) => assert_eq!(m, "Invalid stem name"),
            other => panic!("unexpected {:?}", other),
        }
    }
}

#[test]
fn stem_download_plan() {
    let p = plan_stem_download("My Song.mp3", "vocals", "/data/outputs/j/vocals.wav".to_string());
    assert_eq!(p.path, "/data/outputs/j/vocals.wav");
    assert_eq!(p.content_type, "audio/wav");
    assert_eq!(p.filename, "My Song_vocals.wav");
    let p = plan_stem_download("noext", "drums", "/o/drums".to_string());
    assert_eq!(p.content_type, "application/octet-stream");
    assert_eq!(p.filename, "noext_drums.wav");
}

#[test]
fn plain_upload_name_kept() {
    let mut c = UploadCollector::new(10);
    assert!(c.begin_field(Some("file"), Some("My Song (live).mp3")));
    c.add_chunk(&[1]).unwrap();
    c.end_field();
    let (_, name) = c.finish().unwrap();
    assert_eq!(name, "My Song (live).mp3");
}

#[test]
fn formats_and_models_read_back() {
    for f in [OutputFormat::Mp4, OutputFormat::Webm, OutputFormat::Mkv, OutputFormat::Mp3, OutputFormat::Ogg, OutputFormat::Flac] {
        assert_eq!(OutputFormat::parse(f.extension()), Ok(f));
        assert_eq!(OutputFormat::parse(&f.extension().to_uppercase()), Ok(f));
        assert_eq!(is_audio_extension(f.extension()), f.is_audio_only());
    }
    for m in [DemucsModel::HtDemucs, DemucsModel::HtDemucsFineTuned, DemucsModel::HtDemucs6s, DemucsModel::MdxExtra] {
        assert_eq!(DemucsModel::parse(m.as_str()), Ok(m));
        assert_eq!(DemucsModel::parse(&m.as_str().to_uppercase()), Ok(m));
    }
}

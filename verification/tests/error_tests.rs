use gpop::config::{is_allowed_extension, is_audio_extension, validate_gpop_url};
use gpop::error::AppError;

#[test]
fn messages_and_statuses() {
    let e = AppError::FileTooLarge(2048, 1024);
    assert_eq!(e.message(), "File too large: 2048 bytes (max: 1024 bytes)");
    assert_eq!(e.status_code(), 400);
    assert_eq!(AppError::JobNotFound("x".to_string()).status_code(), 404);
    assert_eq!(AppError::JobNotFound("x".to_string()).message(), "Job not found: x");
    assert_eq!(AppError::InvalidFileType("exe".to_string()).status_code(), 400);
    assert_eq!(AppError::GpopConnection("down".to_string()).status_code(), 503);
    assert_eq!(AppError::Internal("oops".to_string()).status_code(), 500);
}

#[test]
fn client_messages_hide_internal_details() {
    assert_eq!(AppError::Internal("secret path /etc".to_string()).client_message(), "Internal server error");
    assert_eq!(AppError::Storage("disk".to_string()).client_message(), "Internal server error");
    assert_eq!(AppError::JobNotFound("x".to_string()).client_message(), "Job not found");
    assert_eq!(AppError::GpopProtocol("bad".to_string()).client_message(), "Backend service unavailable");
    assert_eq!(AppError::InvalidFileType("exe".to_string()).client_message(), "Invalid file type: exe");
}

#[test]
fn extensions() {
    assert!(is_allowed_extension("mkv"));
    assert!(is_allowed_extension("mp3"));
    assert!(!is_allowed_extension("exe"));
    assert!(is_audio_extension("flac"));
    assert!(!is_audio_extension("mp4"));
}

#[test]
fn gpop_urls() {
    assert!(validate_gpop_url("ws://127.0.0.1:9000").is_ok());
    assert!(validate_gpop_url("wss://host").is_ok());
    assert!(validate_gpop_url("http://host").is_err());
}

use gpop::discoverer::{codec_from_caps, effective_timeout, normalize_uri, pixel_aspect_ratio, TagsInfo, DEFAULT_TIMEOUT_SECS};
use gpop::pipeline_rules::GpopError;

#[test]
fn test_default_timeout() {
    assert_eq!(DEFAULT_TIMEOUT_SECS, 10);
}

#[test]
fn test_normalize_uri_with_scheme() {
    let uri = normalize_uri("http://example.com/video.mp4", Ok("/work".to_string())).unwrap();
    assert_eq!(uri, "http://example.com/video.mp4");
}

#[test]
fn test_normalize_uri_file_scheme() {
    let uri = normalize_uri("file:///tmp/video.mp4", Ok("/work".to_string())).unwrap();
    assert_eq!(uri, "file:///tmp/video.mp4");
}

#[test]
fn test_normalize_uri_absolute_path() {
    let uri = normalize_uri("/tmp/video.mp4", Ok("/work".to_string())).unwrap();
    assert!(uri.starts_with("file://"));
    assert!(uri.contains("tmp"));
    assert!(uri.contains("video.mp4"));
}

#[test]
fn test_normalize_uri_relative_path() {
    let uri = normalize_uri("video.mp4", Ok("/work".to_string())).unwrap();
    assert!(uri.starts_with("file://"));
    assert!(uri.contains("video.mp4"));
    let path_part = uri.strip_prefix("file://").unwrap();
    assert!(std::path::Path::new(path_part).is_absolute());
}

#[test]
fn normalize_uri_exact_values() {
    assert_eq!(normalize_uri("/tmp/video.mp4", Err("gone".to_string())).unwrap(), "file:///tmp/video.mp4");
    assert_eq!(normalize_uri("a/b.mp4", Ok("/home/u".to_string())).unwrap(), "file:///home/u/a/b.mp4");
    assert_eq!(normalize_uri("a/b.mp4", Ok("/home/u/".to_string())).unwrap(), "file:///home/u/a/b.mp4");
    match normalize_uri("b.mp4", Err("no cwd".to_string())) {
        Err(GpopError::DiscoveryFailed(m)) => assert_eq!(m, "Cannot resolve path: no cwd"),
        _ => panic!("expected a discovery error"),
    }
}

#[test]
fn timeout_default_when_absent_or_zero() {
    assert_eq!(effective_timeout(None), 10);
    assert_eq!(effective_timeout(Some(0)), 10);
    assert_eq!(effective_timeout(Some(3)), 3);
}

#[test]
fn tag_merge_keeps_first_values() {
    let none = TagsInfo { title: None, artist: None, album: None, genre: None, comment: None, container_format: None, encoder: None };
    let first = TagsInfo { title: Some("A".to_string()), ..none.clone() };
    let second = TagsInfo { title: Some("B".to_string()), artist: Some("X".to_string()), ..none.clone() };
    let merged = first.merge_keep(second);
    assert_eq!(merged.title, Some("A".to_string()));
    assert_eq!(merged.artist, Some("X".to_string()));
    assert_eq!(merged.album, None);
    assert!(none.clone().report(3).is_none());
    assert!(merged.clone().report(0).is_none());
    assert_eq!(merged.report(2).unwrap().title, Some("A".to_string()));
}

#[test]
fn stream_details() {
    assert_eq!(codec_from_caps(Some(&vec!["video/x-h264".to_string(), "x".to_string()])), Some("video/x-h264".to_string()));
    assert_eq!(codec_from_caps(Some(&Vec::new())), None);
    assert_eq!(codec_from_caps(None), None);
    assert_eq!(pixel_aspect_ratio(1, 1), (Some(1), Some(1)));
    assert_eq!(pixel_aspect_ratio(0, 1), (None, None));
}

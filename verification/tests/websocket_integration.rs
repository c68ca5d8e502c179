use gpop::websocket::protocol::error_codes;
use gpop::websocket::{
    authenticate_handshake, origin_accepted, origin_matches, HandshakeAuth, CLIENT_MESSAGE_BUFFER,
    DEFAULT_WEBSOCKET_PORT, MAX_CONCURRENT_CLIENTS,
};

#[test]
fn test_client_message_buffer_is_bounded() {
    assert_eq!(
        CLIENT_MESSAGE_BUFFER, 256,
        "CLIENT_MESSAGE_BUFFER should be 256 to match event channel buffer size"
    );
}

#[test]
fn test_max_concurrent_clients_is_reasonable() {
    assert_eq!(
        MAX_CONCURRENT_CLIENTS, 1000,
        "MAX_CONCURRENT_CLIENTS should be 1000"
    );
}

#[test]
fn test_constants_are_public() {
    let _ = CLIENT_MESSAGE_BUFFER;
    let _ = MAX_CONCURRENT_CLIENTS;
    let _ = DEFAULT_WEBSOCKET_PORT;
}

#[test]
fn test_all_error_codes_are_negative() {
    assert!(error_codes::PARSE_ERROR < 0);
    assert!(error_codes::INVALID_REQUEST < 0);
    assert!(error_codes::METHOD_NOT_FOUND < 0);
    assert!(error_codes::INVALID_PARAMS < 0);
    assert!(error_codes::INTERNAL_ERROR < 0);
    assert!(error_codes::PIPELINE_NOT_FOUND < 0);
    assert!(error_codes::PIPELINE_CREATION_FAILED < 0);
    assert!(error_codes::STATE_CHANGE_FAILED < 0);
    assert!(error_codes::GSTREAMER_ERROR < 0);
    assert!(error_codes::MEDIA_NOT_SUPPORTED < 0);
}

#[test]
fn test_server_error_codes_in_valid_range() {
    let server_codes = [
        error_codes::PIPELINE_NOT_FOUND,
        error_codes::PIPELINE_CREATION_FAILED,
        error_codes::STATE_CHANGE_FAILED,
        error_codes::GSTREAMER_ERROR,
        error_codes::DESCRIPTION_TOO_LONG,
        error_codes::MEDIA_NOT_SUPPORTED,
    ];

    for code in server_codes {
        assert!(
            (-32099..=-32000).contains(&code),
            "Server error code {} should be in range -32099 to -32000",
            code
        );
    }
}

#[test]
fn test_origin_matching_logic() {
    let allowed_origins = vec![
        "http://localhost:3000".to_string(),
        "https://example.com".to_string(),
    ];

    let check_origin = |origin: &str| -> bool { origin_matches(&allowed_origins, origin) };

    assert!(check_origin("http://localhost:3000"));
    assert!(check_origin("https://example.com"));
    assert!(!check_origin("http://evil.com"));
    assert!(!check_origin("https://localhost:3000"));
    assert!(!check_origin(""));
}

#[test]
fn test_empty_allowed_origins_allows_none() {
    let allowed_origins: Vec<String> = vec![];

    let check_origin = |origin: &str| -> bool { origin_matches(&allowed_origins, origin) };

    assert!(!check_origin("http://localhost:3000"));
    assert!(!check_origin(""));
}

#[test]
fn origin_policy() {
    let allowed = vec!["http://localhost:3000".to_string()];
    assert!(origin_accepted(&Vec::new(), Some("http://evil.com")));
    assert!(origin_accepted(&allowed, None));
    assert!(origin_accepted(&allowed, Some("http://localhost:3000")));
    assert!(!origin_accepted(&allowed, Some("http://evil.com")));
}

#[test]
fn handshake_authentication() {
    assert_eq!(authenticate_handshake(None, None), HandshakeAuth::Accept);
    assert_eq!(authenticate_handshake(None, Some("anything")), HandshakeAuth::Accept);
    assert_eq!(authenticate_handshake(Some("key"), None), HandshakeAuth::Unauthorized);
    assert_eq!(authenticate_handshake(Some("key"), Some("wrong")), HandshakeAuth::Forbidden);
    assert_eq!(authenticate_handshake(Some("key"), Some("key")), HandshakeAuth::Accept);
}

use gpop::pipeline_rules::{
    bus_event, dot_detail, is_media_not_supported_error, launch_error, state_change_result, validate_description,
    BusMessage, DotDetail, GpopError, PipelineEvent, PipelineState, StateChangeOutcome, MAX_PIPELINE_DESCRIPTION_LENGTH,
};

#[test]
fn media_errors_recognized_case_insensitively() {
    assert_eq!(is_media_not_supported_error("No Decoder available for type"), Some("No Decoder available for type".to_string()));
    assert_eq!(is_media_not_supported_error("Missing plugin: foo"), Some("Missing plugin: foo".to_string()));
    assert_eq!(is_media_not_supported_error("Internal data stream error"), None);
    match launch_error("no element \"foo\"") {
        GpopError::InvalidPipeline(m) => assert_eq!(m, "no element \"foo\""),
        other => panic!("unexpected {:?}", other),
    }
    match launch_error("caps not supported here") {
        GpopError::MediaNotSupported(m) => assert_eq!(m, "caps not supported here"),
        other => panic!("unexpected {:?}", other),
    }
}

#[test]
fn description_validation() {
    assert!(validate_description("fakesrc ! fakesink").is_ok());
    match validate_description("   ") {
        Err(GpopError::InvalidPipeline(m)) => assert_eq!(m, "Pipeline description cannot be empty"),
        other => panic!("unexpected {:?}", other),
    }
    let long = "a".repeat(MAX_PIPELINE_DESCRIPTION_LENGTH + 1);
    match validate_description(&long) {
        Err(GpopError::InvalidPipeline(m)) => assert_eq!(m, "Pipeline description too long: 65537 bytes (max: 65536 bytes)"),
        other => panic!("unexpected {:?}", other),
    }
    assert!(validate_description(&"a".repeat(MAX_PIPELINE_DESCRIPTION_LENGTH)).is_ok());
}

#[test]
fn pipeline_state_names() {
    assert_eq!(PipelineState::parse("playing"), Some(PipelineState::Playing));
    assert_eq!(PipelineState::parse("null"), Some(PipelineState::Null));
    assert_eq!(PipelineState::parse("running"), None);
    assert_eq!(PipelineState::parse("PLAYING"), None);
    assert_eq!(PipelineState::Paused.as_str(), "paused");
    assert!(PipelineState::Playing.is_streaming());
    assert!(!PipelineState::Ready.is_streaming());
}

#[test]
fn bus_messages_to_events() {
    match bus_event("3", BusMessage::Error { message: "no suitable plugins found".to_string() }) {
        Some(PipelineEvent::Unsupported { pipeline_id, message }) => {
            assert_eq!(pipeline_id, "3");
            assert_eq!(message, "no suitable plugins found");
        }
        other => panic!("unexpected {:?}", other),
    }
    assert!(matches!(bus_event("3", BusMessage::Error { message: "boom".to_string() }), Some(PipelineEvent::Error { .. })));
    assert!(matches!(bus_event("3", BusMessage::EndOfStream), Some(PipelineEvent::Eos { .. })));
    assert!(bus_event("3", BusMessage::Warning).is_none());
    assert!(bus_event("3", BusMessage::StateChanged { from_pipeline: false, old_state: PipelineState::Null, new_state: PipelineState::Ready }).is_none());
    assert!(matches!(
        bus_event("3", BusMessage::StateChanged { from_pipeline: true, old_state: PipelineState::Null, new_state: PipelineState::Ready }),
        Some(PipelineEvent::StateChanged { .. })
    ));
}

#[test]
fn state_change_failures() {
    assert!(state_change_result("0", PipelineState::Playing, StateChangeOutcome::Async).is_ok());
    match state_change_result("0", PipelineState::Playing, StateChangeOutcome::Failure) {
        Err(GpopError::StateChangeFailed(m)) => assert_eq!(m, "Failed to change state to playing for pipeline '0'"),
        other => panic!("unexpected {:?}", other),
    }
}

#[test]
fn snapshot_details() {
    assert_eq!(dot_detail(Some("media")), DotDetail::MediaType);
    assert_eq!(dot_detail(Some("caps")), DotDetail::CapsDetails);
    assert_eq!(dot_detail(Some("non-default")), DotDetail::NonDefaultParams);
    assert_eq!(dot_detail(Some("states")), DotDetail::States);
    assert_eq!(dot_detail(Some("x")), DotDetail::All);
    assert_eq!(dot_detail(None), DotDetail::All);
}

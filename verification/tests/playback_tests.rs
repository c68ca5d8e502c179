use gpop::pipeline_rules::{PipelineEvent, PipelineState};
use gpop::playback::{PlaybackTracker, EXIT_CODE_ERROR, EXIT_CODE_UNSUPPORTED};

fn ids(v: &[&str]) -> Vec<String> {
    v.iter().map(|s| s.to_string()).collect()
}

fn eos(id: &str) -> PipelineEvent {
    PipelineEvent::Eos { pipeline_id: id.to_string() }
}

#[test]
fn all_eos_exits_zero() {
    let mut t = PlaybackTracker::new(&ids(&["0", "1"]), &Vec::new());
    assert_eq!(t.initial_exit(), None);
    assert_eq!(t.on_event(&eos("0")), None);
    assert_eq!(t.on_event(&eos("7")), None);
    assert_eq!(t.on_event(&PipelineEvent::StateChanged {
        pipeline_id: "1".to_string(),
        old_state: PipelineState::Paused,
        new_state: PipelineState::Playing,
    }), None);
    assert_eq!(t.on_event(&eos("1")), Some(0));
}

#[test]
fn error_takes_priority_over_unsupported() {
    let mut t = PlaybackTracker::new(&ids(&["a", "b"]), &Vec::new());
    assert_eq!(t.on_event(&PipelineEvent::Unsupported { pipeline_id: "a".to_string(), message: "no decoder".to_string() }), None);
    assert_eq!(t.on_event(&PipelineEvent::Error { pipeline_id: "b".to_string(), message: "boom".to_string() }), Some(EXIT_CODE_ERROR));
    let mut t = PlaybackTracker::new(&ids(&["a"]), &Vec::new());
    assert_eq!(t.on_event(&PipelineEvent::Unsupported { pipeline_id: "a".to_string(), message: "x".to_string() }), Some(EXIT_CODE_UNSUPPORTED));
}

#[test]
fn failed_starts_make_an_error() {
    let t = PlaybackTracker::new(&ids(&["a"]), &ids(&["a"]));
    assert!(t.is_done());
    assert_eq!(t.initial_exit(), Some(EXIT_CODE_ERROR));
    let mut t = PlaybackTracker::new(&ids(&["a", "b"]), &ids(&["b"]));
    assert_eq!(t.pending_ids(), vec!["a".to_string()]);
    assert_eq!(t.on_event(&eos("a")), Some(EXIT_CODE_ERROR));
}

#[test]
fn removed_pipeline_is_an_error() {
    let mut t = PlaybackTracker::new(&ids(&["a"]), &Vec::new());
    assert_eq!(t.on_event(&PipelineEvent::PipelineRemoved { pipeline_id: "a".to_string() }), Some(1));
}

#[test]
fn lagged_and_closed() {
    let mut t = PlaybackTracker::new(&ids(&["a", "b"]), &Vec::new());
    assert_eq!(t.on_lagged(&ids(&["a"])), None);
    assert_eq!(t.exit_code(), 1);
    assert_eq!(t.on_lagged(&ids(&["b"])), Some(1));
    let mut t = PlaybackTracker::new(&ids(&["a"]), &Vec::new());
    assert_eq!(t.on_closed(), EXIT_CODE_ERROR);
    assert!(t.is_done());
}

#[test]
fn ignored_events_change_nothing() {
    let mut t = PlaybackTracker::new(&ids(&["a", "b"]), &Vec::new());
    assert_eq!(t.on_event(&eos("a")), None);
    assert_eq!(t.on_event(&eos("a")), None);
    assert_eq!(t.on_event(&PipelineEvent::Error { pipeline_id: "a".to_string(), message: "late".to_string() }), None);
    assert_eq!(t.on_event(&PipelineEvent::PipelineAdded { pipeline_id: "z".to_string(), description: "x".to_string() }), None);
    assert_eq!(t.on_event(&eos("b")), Some(0));
}

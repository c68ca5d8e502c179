use gpop::client::{build_request, request_for, ClientCommand, ParamValue};

fn p(name: &str, v: ParamValue) -> (String, ParamValue) {
    (name.to_string(), v)
}

#[test]
fn list_request() {
    let r = request_for(&ClientCommand::List, "id-1".to_string());
    assert_eq!(r.id, "id-1");
    assert_eq!(r.method, "list_pipelines");
    assert!(r.params.is_empty());
}

#[test]
fn pipeline_requests() {
    let r = request_for(&ClientCommand::Update { id: "0".to_string(), description: "a ! b".to_string() }, "x".to_string());
    assert_eq!(r.method, "update_pipeline");
    assert_eq!(r.params, vec![p("pipeline_id", ParamValue::Str("0".to_string())), p("description", ParamValue::Str("a ! b".to_string()))]);
    let r = request_for(&ClientCommand::Play { id: None }, "x".to_string());
    assert_eq!(r.method, "play");
    assert_eq!(r.params, vec![p("pipeline_id", ParamValue::Null)]);
    let r = request_for(&ClientCommand::State { id: "1".to_string(), state: "paused".to_string() }, "x".to_string());
    assert_eq!(r.method, "set_state");
    assert_eq!(r.params, vec![p("pipeline_id", ParamValue::Str("1".to_string())), p("state", ParamValue::Str("paused".to_string()))]);
    let r = request_for(&ClientCommand::Snapshot { id: "1".to_string(), details: Some("caps".to_string()) }, "x".to_string());
    assert_eq!(r.method, "snapshot");
    assert_eq!(r.params[1], p("details", ParamValue::Str("caps".to_string())));
}

#[test]
fn media_requests() {
    let r = request_for(&ClientCommand::Discover { uri: "file:///a.mp4".to_string(), timeout: Some(5) }, "x".to_string());
    assert_eq!(r.method, "discover_uri");
    assert_eq!(r.params, vec![p("uri", ParamValue::Str("file:///a.mp4".to_string())), p("timeout", ParamValue::Number(5))]);
    let r = request_for(&ClientCommand::PlayUri { uri: "a.mp4".to_string(), playbin2: true }, "x".to_string());
    assert_eq!(r.method, "play_uri");
    assert_eq!(r.params[1], p("use_playbin2", ParamValue::Bool(true)));
    let r = request_for(&ClientCommand::Elements { detail: "none".to_string() }, "x".to_string());
    assert_eq!(r.method, "get_elements");
    let r = request_for(&ClientCommand::Sysinfo, "x".to_string());
    assert_eq!(r.method, "get_info");
}

#[test]
fn fresh_request_ids() {
    let a = build_request(&ClientCommand::Count);
    let b = build_request(&ClientCommand::Count);
    assert_eq!(a.method, "get_pipeline_count");
    assert_eq!(a.id.len(), 36);
    for (i, c) in a.id.chars().enumerate() {
        if i == 8 || i == 13 || i == 18 || i == 23 {
            assert_eq!(c, '-');
        } else {
            assert!(c.is_ascii_hexdigit() && !c.is_ascii_uppercase());
        }
    }
    assert_eq!(a.id.chars().nth(14), Some('4'));
    assert!(matches!(a.id.chars().nth(19), Some('8' | '9' | 'a' | 'b')));
    assert_ne!(a.id, b.id);
}

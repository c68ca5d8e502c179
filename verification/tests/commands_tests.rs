use gpop::cli::{Cli, Commands, DaemonArgs, InspectArgs, LaunchArgs, ServerArgs};
use gpop::commands::{check_interfaces, launch_descriptions, launch_exit_code, plan_inspect, InspectTarget};
use gpop::registry::DetailLevel;

fn inspect(element: Option<&str>, detail: &str, format: &str) -> InspectArgs {
    InspectArgs { element: element.map(|s| s.to_string()), detail: detail.to_string(), format: format.to_string() }
}

#[test]
fn server_defaults_and_config() {
    let d = DaemonArgs::default();
    assert!(d.pipelines.is_empty());
    let c = d.server.into_config(true);
    assert_eq!(c.port, 9000);
    assert_eq!(c.bind, "127.0.0.1");
    assert!(!c.no_dbus);
    assert!(check_interfaces(&c, true).is_ok());
    let mut s = ServerArgs::default();
    s.no_dbus = true;
    s.no_websocket = true;
    assert_eq!(
        check_interfaces(&s.into_config(true), true),
        Err("At least one interface (DBus or WebSocket) must be enabled".to_string())
    );
}

#[test]
fn server_config_without_dbus() {
    let c = ServerArgs::default().into_config(false);
    assert!(c.no_dbus);
    assert!(!c.no_websocket);
    assert!(check_interfaces(&c, false).is_ok());
    let mut s = ServerArgs::default();
    s.no_websocket = true;
    assert_eq!(
        check_interfaces(&s.into_config(false), false),
        Err("WebSocket is the only available interface on this platform".to_string())
    );
}

#[test]
fn launch_pipelines_merge() {
    let args = LaunchArgs {
        pipelines: vec!["b".to_string(), "c".to_string()],
        pipeline: Some("a".to_string()),
        server: ServerArgs::default(),
    };
    assert_eq!(launch_descriptions(&args).unwrap(), vec!["a", "b", "c"]);
    let none = LaunchArgs { pipelines: Vec::new(), pipeline: None, server: ServerArgs::default() };
    assert_eq!(launch_descriptions(&none), Err("No pipeline description provided".to_string()));
}

#[test]
fn launch_exit_codes() {
    assert_eq!(launch_exit_code(0, 0), 0);
    assert_eq!(launch_exit_code(0, 2), 1);
    assert_eq!(launch_exit_code(69, 1), 69);
    assert_eq!(launch_exit_code(1, 0), 1);
}

#[test]
fn inspect_plans() {
    let p = plan_inspect(&inspect(Some("fakesink"), "none", "text")).unwrap();
    assert!(!p.use_json);
    assert_eq!(p.target, InspectTarget::Element { name: "fakesink".to_string(), detail: DetailLevel::Full });
    let p = plan_inspect(&inspect(Some("fakesink"), "none", "json")).unwrap();
    assert!(p.use_json);
    assert_eq!(p.target, InspectTarget::Element { name: "fakesink".to_string(), detail: DetailLevel::NameOnly });
    let p = plan_inspect(&inspect(None, "none", "text")).unwrap();
    assert_eq!(p.target, InspectTarget::List { detail: DetailLevel::Summary });
    let p = plan_inspect(&inspect(None, "full", "text")).unwrap();
    assert_eq!(p.target, InspectTarget::List { detail: DetailLevel::Full });
    let p = plan_inspect(&inspect(None, "none", "json")).unwrap();
    assert_eq!(p.target, InspectTarget::List { detail: DetailLevel::NameOnly });
    assert_eq!(
        plan_inspect(&inspect(None, "summary", "yaml")).unwrap_err(),
        "Invalid format: 'yaml'. Expected 'text' or 'json'"
    );
    assert_eq!(
        plan_inspect(&inspect(None, "lots", "yaml")).unwrap_err(),
        "Invalid detail level: 'lots'. Expected 'none', 'summary', or 'full'"
    );
}

fn words(ws: &[&str]) -> Vec<String> {
    ws.iter().map(|w| w.to_string()).collect()
}

#[test]
fn default_command_selection() {
    let cli = Cli::parse_args(&words(&["gst-pop", "videotestsrc", "!", "fakesink"]), None).unwrap();
    match cli.into_command() {
        Commands::Launch(l) => {
            assert_eq!(l.pipeline, Some("videotestsrc ! fakesink".to_string()));
            assert!(l.pipelines.is_empty());
            assert_eq!(l.server.port, 9000);
        }
        other => panic!("unexpected {:?}", other),
    }
    let cli = Cli::parse_args(&words(&["gst-pop"]), None).unwrap();
    match cli.into_command() {
        Commands::Daemon(d) => {
            assert!(d.pipelines.is_empty());
            assert_eq!(d.server.bind, "127.0.0.1");
        }
        other => panic!("unexpected {:?}", other),
    }
    let cli = Cli::parse_args(&words(&["gst-pop", "inspect", "fakesink"]), None).unwrap();
    assert!(matches!(cli.into_command(), Commands::Inspect(_)));
}

#[test]
fn default_pipeline_equals_launch() {
    let a = Cli::parse_args(&words(&["gst-pop", "fakesrc", "num-buffers=3", "!", "fakesink"]), None).unwrap();
    let b = Cli::parse_args(&words(&["gst-pop", "launch", "fakesrc", "num-buffers=3", "!", "fakesink"]), None).unwrap();
    let joined = a.pipeline.join(" ");
    match b.command {
        Some(Commands::Launch(l)) => assert_eq!(l.pipeline, Some(joined)),
        other => panic!("unexpected {:?}", other),
    }
}

use gpop::cli::CliError;
use gpop::client::{parse_ctl_args, ClientCommand, CtlCli};

fn ctl(words: &[&str]) -> Result<CtlCli, CliError> {
    let args: Vec<String> = words.iter().map(|w| w.to_string()).collect();
    parse_ctl_args(&args)
}

#[test]
fn ctl_default_url_and_simple_commands() {
    let c = ctl(&["gst-popctl", "list"]).unwrap();
    assert_eq!(c.url, "ws://127.0.0.1:9000");
    assert!(matches!(c.command, ClientCommand::List));
    assert!(matches!(ctl(&["gst-popctl", "version"]).unwrap().command, ClientCommand::Version));
    assert!(matches!(ctl(&["gst-popctl", "count"]).unwrap().command, ClientCommand::Count));
}

#[test]
fn ctl_url_before_or_after_command() {
    let c = ctl(&["gst-popctl", "--url", "ws://host:1", "create", "a ! b"]).unwrap();
    assert_eq!(c.url, "ws://host:1");
    match c.command {
        ClientCommand::Create { description } => assert_eq!(description, "a ! b"),
        other => panic!("unexpected {:?}", other),
    }
    let c = ctl(&["gst-popctl", "--url=ws://a", "snapshot", "0", "--details", "caps", "--url=ws://b"]).unwrap();
    assert_eq!(c.url, "ws://b");
    match c.command {
        ClientCommand::Snapshot { id, details } => {
            assert_eq!(id, "0");
            assert_eq!(details, Some("caps".to_string()));
        }
        other => panic!("unexpected {:?}", other),
    }
}

#[test]
fn ctl_optional_ids() {
    match ctl(&["gst-popctl", "play"]).unwrap().command {
        ClientCommand::Play { id } => assert_eq!(id, None),
        other => panic!("unexpected {:?}", other),
    }
    match ctl(&["gst-popctl", "stop", "3"]).unwrap().command {
        ClientCommand::Stop { id } => assert_eq!(id, Some("3".to_string())),
        other => panic!("unexpected {:?}", other),
    }
    assert_eq!(ctl(&["gst-popctl", "pause", "1", "2"]).unwrap_err(), CliError::UnknownArgument("2".to_string()));
}

#[test]
fn ctl_options() {
    match ctl(&["gst-popctl", "elements"]).unwrap().command {
        ClientCommand::Elements { detail } => assert_eq!(detail, "none"),
        other => panic!("unexpected {:?}", other),
    }
    match ctl(&["gst-popctl", "elements", "--detail=full"]).unwrap().command {
        ClientCommand::Elements { detail } => assert_eq!(detail, "full"),
        other => panic!("unexpected {:?}", other),
    }
    match ctl(&["gst-popctl", "discover", "file:///a.mp4", "--timeout", "5"]).unwrap().command {
        ClientCommand::Discover { uri, timeout } => {
            assert_eq!(uri, "file:///a.mp4");
            assert_eq!(timeout, Some(5));
        }
        other => panic!("unexpected {:?}", other),
    }
    match ctl(&["gst-popctl", "discover", "x"]).unwrap().command {
        ClientCommand::Discover { timeout, .. } => assert_eq!(timeout, None),
        other => panic!("unexpected {:?}", other),
    }
    match ctl(&["gst-popctl", "play-uri", "a.mp4", "--playbin2"]).unwrap().command {
        ClientCommand::PlayUri { uri, playbin2 } => {
            assert_eq!(uri, "a.mp4");
            assert!(playbin2);
        }
        other => panic!("unexpected {:?}", other),
    }
    match ctl(&["gst-popctl", "state", "0", "paused"]).unwrap().command {
        ClientCommand::State { id, state } => {
            assert_eq!(id, "0");
            assert_eq!(state, "paused");
        }
        other => panic!("unexpected {:?}", other),
    }
}

#[test]
fn ctl_errors() {
    assert_eq!(ctl(&["gst-popctl"]).unwrap_err(), CliError::MissingArgument("<COMMAND>".to_string()));
    assert_eq!(ctl(&["gst-popctl", "bogus"]).unwrap_err(), CliError::UnknownArgument("bogus".to_string()));
    assert_eq!(ctl(&["gst-popctl", "update", "1"]).unwrap_err(), CliError::MissingArgument("<DESCRIPTION>".to_string()));
    assert_eq!(ctl(&["gst-popctl", "state"]).unwrap_err(), CliError::MissingArgument("<ID>".to_string()));
    assert_eq!(ctl(&["gst-popctl", "-V"]).unwrap_err(), CliError::Version);
    assert_eq!(ctl(&["gst-popctl", "--help"]).unwrap_err(), CliError::Help);
    assert_eq!(ctl(&["gst-popctl", "list", "--help"]).unwrap_err(), CliError::Help);
    assert_eq!(ctl(&["gst-popctl", "list", "--version"]).unwrap_err(), CliError::UnknownArgument("--version".to_string()));
    assert_eq!(ctl(&["gst-popctl", "discover", "x", "--timeout", "abc"]).unwrap_err(), CliError::InvalidValue("abc".to_string()));
    assert_eq!(ctl(&["gst-popctl", "--url"]).unwrap_err(), CliError::MissingValue("--url".to_string()));
    assert_eq!(ctl(&["gst-popctl", "list", "--url", "a", "--url", "b"]).unwrap_err(), CliError::DuplicateArgument("--url".to_string()));
}

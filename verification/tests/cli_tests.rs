use gpop::cli::{Cli, CliError, Commands};
use gpop::commands::argv_for_program_exec;

fn argv(words: &[&str]) -> Vec<String> {
    words.iter().map(|w| w.to_string()).collect()
}

fn parse(words: &[&str]) -> Cli {
    Cli::parse_args(&argv(words), None).unwrap()
}

fn parse_err(words: &[&str]) -> CliError {
    Cli::parse_args(&argv(words), None).unwrap_err()
}

#[test]
fn daemon_subcommand_parses() {
    let cli = parse(&["gst-pop", "daemon"]);
    assert!(matches!(cli.command, Some(Commands::Daemon(_))));
}

#[test]
fn launch_subcommand_parses() {
    let cli = parse(&["gst-pop", "launch", "-p", "fakesrc ! fakesink"]);
    assert!(matches!(cli.command, Some(Commands::Launch(_))));
}

#[test]
fn launch_positional_parses() {
    let cli = parse(&["gst-pop", "launch", "fakesrc ! fakesink"]);
    if let Some(Commands::Launch(args)) = cli.command {
        assert_eq!(args.pipeline, Some("fakesrc ! fakesink".to_string()));
    } else {
        panic!("Expected Launch subcommand");
    }
}

#[test]
fn default_pipeline_positional() {
    let cli = parse(&["gst-pop", "fakesrc", "!", "fakesink"]);
    assert!(cli.command.is_none());
    assert_eq!(cli.pipeline, vec!["fakesrc", "!", "fakesink"]);
}

#[test]
fn default_pipeline_quoted() {
    let cli = parse(&["gst-pop", "fakesrc ! fakesink"]);
    assert!(cli.command.is_none());
    assert_eq!(cli.pipeline, vec!["fakesrc ! fakesink"]);
}

#[test]
fn no_args_gives_empty() {
    let cli = parse(&["gst-pop"]);
    assert!(cli.command.is_none());
    assert!(cli.pipeline.is_empty());
}

#[test]
fn inspect_subcommand_parses() {
    let cli = parse(&["gst-pop", "inspect"]);
    assert!(matches!(cli.command, Some(Commands::Inspect(_))));
}

#[test]
fn discover_subcommand_parses() {
    let cli = parse(&["gst-pop", "discover", "file:///test.mp4"]);
    assert!(matches!(cli.command, Some(Commands::Discover(_))));
}

#[test]
fn play_subcommand_parses() {
    let cli = parse(&["gst-pop", "play", "file:///test.mp4"]);
    assert!(matches!(cli.command, Some(Commands::Play(_))));
}

#[test]
fn play_with_sinks_parses() {
    let cli = parse(&[
        "gst-pop",
        "play",
        "file:///test.mp4",
        "--video-sink",
        "fakesink",
        "--audio-sink",
        "autoaudiosink",
    ]);
    if let Some(Commands::Play(args)) = cli.command {
        assert_eq!(args.uri, "file:///test.mp4");
        assert_eq!(args.video_sink, Some("fakesink".to_string()));
        assert_eq!(args.audio_sink, Some("autoaudiosink".to_string()));
        assert!(!args.playbin2);
    } else {
        panic!("Expected Play subcommand");
    }
}

#[test]
fn play_with_playbin2_parses() {
    let cli = parse(&["gst-pop", "play", "file:///test.mp4", "--playbin2"]);
    if let Some(Commands::Play(args)) = cli.command {
        assert_eq!(args.uri, "file:///test.mp4");
        assert!(args.playbin2);
    } else {
        panic!("Expected Play subcommand");
    }
}

#[test]
fn daemon_defaults() {
    let cli = parse(&["gst-pop", "daemon"]);
    if let Some(Commands::Daemon(args)) = cli.command {
        assert!(args.pipelines.is_empty());
        assert_eq!(args.server.port, 9000);
        assert_eq!(args.server.bind, "127.0.0.1");
        assert!(!args.server.no_dbus);
        assert!(!args.server.no_websocket);
        assert_eq!(args.server.api_key, None);
        assert!(args.server.allowed_origins.is_empty());
    } else {
        panic!("Expected Daemon subcommand");
    }
}

#[test]
fn daemon_options_in_every_form() {
    let cli = parse(&[
        "gst-pop", "daemon", "--port", "8080", "-b", "0.0.0.0", "--no-dbus", "--api-key=secret",
        "--allowed-origin", "http://a", "--allowed-origin=http://b", "-p", "videotestsrc ! fakesink",
        "-pfakesrc ! fakesink",
    ]);
    if let Some(Commands::Daemon(args)) = cli.command {
        assert_eq!(args.server.port, 8080);
        assert_eq!(args.server.bind, "0.0.0.0");
        assert!(args.server.no_dbus);
        assert!(!args.server.no_websocket);
        assert_eq!(args.server.api_key, Some("secret".to_string()));
        assert_eq!(args.server.allowed_origins, vec!["http://a", "http://b"]);
        assert_eq!(args.pipelines, vec!["videotestsrc ! fakesink", "fakesrc ! fakesink"]);
    } else {
        panic!("Expected Daemon subcommand");
    }
}

#[test]
fn api_key_comes_from_environment_unless_given() {
    let cli = Cli::parse_args(&argv(&["gst-pop", "daemon"]), Some("from-env".to_string())).unwrap();
    if let Some(Commands::Daemon(args)) = cli.command {
        assert_eq!(args.server.api_key, Some("from-env".to_string()));
    } else {
        panic!("Expected Daemon subcommand");
    }
    let cli = Cli::parse_args(&argv(&["gst-pop", "daemon", "--api-key", "cli"]), Some("from-env".to_string())).unwrap();
    if let Some(Commands::Daemon(args)) = cli.command {
        assert_eq!(args.server.api_key, Some("cli".to_string()));
    } else {
        panic!("Expected Daemon subcommand");
    }
}

#[test]
fn launch_joins_unquoted_words() {
    let cli = parse(&["gst-pop", "launch", "videotestsrc", "!", "fakesink", "--port", "1"]);
    if let Some(Commands::Launch(args)) = cli.command {
        assert_eq!(args.pipeline, Some("videotestsrc ! fakesink --port 1".to_string()));
        assert!(args.pipelines.is_empty());
        assert_eq!(args.server.port, 9000);
    } else {
        panic!("Expected Launch subcommand");
    }
}

#[test]
fn launch_without_positional() {
    let cli = parse(&["gst-pop", "launch", "-p", "a", "--pipeline", "b"]);
    if let Some(Commands::Launch(args)) = cli.command {
        assert_eq!(args.pipeline, None);
        assert_eq!(args.pipelines, vec!["a", "b"]);
    } else {
        panic!("Expected Launch subcommand");
    }
}

#[test]
fn inspect_defaults_and_options() {
    let cli = parse(&["gst-pop", "inspect"]);
    if let Some(Commands::Inspect(args)) = cli.command {
        assert_eq!(args.element, None);
        assert_eq!(args.detail, "summary");
        assert_eq!(args.format, "text");
    } else {
        panic!("Expected Inspect subcommand");
    }
    let cli = parse(&["gst-pop", "inspect", "fakesink", "-d", "full", "--format", "json"]);
    if let Some(Commands::Inspect(args)) = cli.command {
        assert_eq!(args.element, Some("fakesink".to_string()));
        assert_eq!(args.detail, "full");
        assert_eq!(args.format, "json");
    } else {
        panic!("Expected Inspect subcommand");
    }
}

#[test]
fn discover_timeout() {
    let cli = parse(&["gst-pop", "discover", "file:///test.mp4"]);
    if let Some(Commands::Discover(args)) = cli.command {
        assert_eq!(args.uri, "file:///test.mp4");
        assert_eq!(args.timeout, 10);
    } else {
        panic!("Expected Discover subcommand");
    }
    let cli = parse(&["gst-pop", "discover", "-t", "+25", "x.mp4"]);
    if let Some(Commands::Discover(args)) = cli.command {
        assert_eq!(args.uri, "x.mp4");
        assert_eq!(args.timeout, 25);
    } else {
        panic!("Expected Discover subcommand");
    }
}

#[test]
fn help_and_version() {
    assert_eq!(parse_err(&["gst-pop", "--help"]), CliError::Help);
    assert_eq!(parse_err(&["gst-pop", "-h"]), CliError::Help);
    assert_eq!(parse_err(&["gst-pop", "help"]), CliError::Help);
    assert_eq!(parse_err(&["gst-pop", "--version"]), CliError::Version);
    assert_eq!(parse_err(&["gst-pop", "-V"]), CliError::Version);
    assert_eq!(parse_err(&["gst-pop", "daemon", "--help"]), CliError::Help);
    assert_eq!(parse_err(&["gst-pop", "play", "-h"]), CliError::Help);
}

#[test]
fn command_line_errors() {
    assert_eq!(parse_err(&["gst-pop", "daemon", "--bogus"]), CliError::UnknownArgument("--bogus".to_string()));
    assert_eq!(parse_err(&["gst-pop", "daemon", "extra"]), CliError::UnknownArgument("extra".to_string()));
    assert_eq!(parse_err(&["gst-pop", "daemon", "--port"]), CliError::MissingValue("--port".to_string()));
    assert_eq!(parse_err(&["gst-pop", "daemon", "--port", "--no-dbus"]), CliError::MissingValue("--port".to_string()));
    assert_eq!(parse_err(&["gst-pop", "daemon", "--port", "70000"]), CliError::InvalidValue("70000".to_string()));
    assert_eq!(parse_err(&["gst-pop", "daemon", "-P", "abc"]), CliError::InvalidValue("abc".to_string()));
    assert_eq!(parse_err(&["gst-pop", "daemon", "--port", "1", "--port", "2"]), CliError::DuplicateArgument("--port".to_string()));
    assert_eq!(parse_err(&["gst-pop", "daemon", "--no-dbus", "--no-dbus"]), CliError::DuplicateArgument("--no-dbus".to_string()));
    assert_eq!(parse_err(&["gst-pop", "daemon", "--no-dbus=yes"]), CliError::InvalidValue("--no-dbus=yes".to_string()));
    assert_eq!(parse_err(&["gst-pop", "play"]), CliError::MissingArgument("<URI>".to_string()));
    assert_eq!(parse_err(&["gst-pop", "discover"]), CliError::MissingArgument("<URI>".to_string()));
    assert_eq!(parse_err(&["gst-pop", "play", "a", "b"]), CliError::UnknownArgument("b".to_string()));
    assert_eq!(parse_err(&["gst-pop", "discover", "a", "--timeout", "-1"]), CliError::MissingValue("--timeout".to_string()));
    assert_eq!(parse_err(&["gst-pop", "discover", "a", "--timeout=-1"]), CliError::InvalidValue("-1".to_string()));
}

#[test]
fn port_bounds() {
    let cli = parse(&["gst-pop", "daemon", "--port", "65535"]);
    if let Some(Commands::Daemon(args)) = cli.command {
        assert_eq!(args.server.port, 65535);
    } else {
        panic!("Expected Daemon subcommand");
    }
    assert_eq!(parse_err(&["gst-pop", "daemon", "--port", "65536"]), CliError::InvalidValue("65536".to_string()));
    let cli = parse(&["gst-pop", "daemon", "--port=-0"]);
    if let Some(Commands::Daemon(args)) = cli.command {
        assert_eq!(args.server.port, 0);
    } else {
        panic!("Expected Daemon subcommand");
    }
}

#[test]
fn double_dash_ends_options() {
    let cli = parse(&["gst-pop", "--", "--weird"]);
    assert!(cli.command.is_none());
    assert_eq!(cli.pipeline, vec!["--weird"]);
    let cli = parse(&["gst-pop", "play", "--", "--file.mp4"]);
    if let Some(Commands::Play(args)) = cli.command {
        assert_eq!(args.uri, "--file.mp4");
    } else {
        panic!("Expected Play subcommand");
    }
}

#[test]
fn program_name_selects_subcommand() {
    assert_eq!(argv_for_program_exec(argv(&["/usr/bin/gst-popd", "-P", "1"])), vec!["gst-pop", "daemon", "-P", "1"]);
    assert_eq!(argv_for_program_exec(argv(&["gst-pop-launch", "fakesrc ! fakesink"])), vec!["gst-pop", "launch", "fakesrc ! fakesink"]);
    assert_eq!(argv_for_program_exec(argv(&["./gst-pop", "inspect"])), vec!["./gst-pop", "inspect"]);
    assert_eq!(argv_for_program_exec(Vec::new()), Vec::<String>::new());
}

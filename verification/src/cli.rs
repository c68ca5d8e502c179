//! The command line of `gst-pop`: subcommands, their options and arguments.
//!
//! Options are written `--name value`, `--name=value`, `-x value`, `-xvalue` or `-x=value`;
//! flags take no value; `--` ends the options. A single-valued option or a flag may be given
//! once. The first argument that names no subcommand starts a pipeline description that takes
//! every further argument.

pub mod scan;

use vstd::prelude::*;
use crate::client::{ctl_long, ctl_optional_positionals, ctl_positional_count, ctl_positional_names, lookup_ctl_long, ClientCommandKind};
use crate::text::{chars_of, opt_view, push_char, push_chars, str_eq, string_from, strings_view};
use crate::websocket::{DEFAULT_BIND_ADDRESS, DEFAULT_WEBSOCKET_PORT};
use crate::discoverer::DEFAULT_TIMEOUT_SECS;
use crate::cli::scan::{
    all_values, all_values_exec, first_value, first_value_exec, has_flag_exec,
    parse_bounded, parse_number, scan_tokens, scanned, ScanState, ScanView, plain_words,
    lemma_launch_scans_plain_words,
};

verus! {

/// A subcommand of `gst-pop`.
#[derive(Debug, Clone, Copy, PartialEq, Eq, Structural)]
pub enum SubcommandKind {
    Daemon,
    Launch,
    Inspect,
    Discover,
    Play,
}

/// An option as the parser sees it.
#[derive(Debug, Clone, Copy, PartialEq, Eq, Structural)]
pub struct OptSpec {
    pub id: u8,
    pub takes_value: bool,
    pub multiple: bool,
}

pub const OPT_PORT: u8 = 0;
pub const OPT_BIND: u8 = 1;
pub const OPT_NO_DBUS: u8 = 2;
pub const OPT_NO_WEBSOCKET: u8 = 3;
pub const OPT_API_KEY: u8 = 4;
pub const OPT_ALLOWED_ORIGIN: u8 = 5;
pub const OPT_PIPELINE: u8 = 6;
pub const OPT_VIDEO_SINK: u8 = 7;
pub const OPT_AUDIO_SINK: u8 = 8;
pub const OPT_PLAYBIN2: u8 = 9;
pub const OPT_DETAIL: u8 = 10;
pub const OPT_FORMAT: u8 = 11;
pub const OPT_TIMEOUT: u8 = 12;
pub const OPT_URL: u8 = 13;
pub const OPT_DETAILS: u8 = 14;

pub open spec fn value_opt(id: u8) -> OptSpec {
    OptSpec { id, takes_value: true, multiple: false }
}

pub open spec fn multi_opt(id: u8) -> OptSpec {
    OptSpec { id, takes_value: true, multiple: true }
}

pub open spec fn flag_opt(id: u8) -> OptSpec {
    OptSpec { id, takes_value: false, multiple: false }
}

/// The long options shared by `daemon`, `launch` and `play`.
pub open spec fn server_long(name: Seq<char>) -> Option<OptSpec> {
    if name == "port"@ {
        Some(value_opt(OPT_PORT))
    } else if name == "bind"@ {
        Some(value_opt(OPT_BIND))
    } else if name == "no-dbus"@ {
        Some(flag_opt(OPT_NO_DBUS))
    } else if name == "no-websocket"@ {
        Some(flag_opt(OPT_NO_WEBSOCKET))
    } else if name == "api-key"@ {
        Some(value_opt(OPT_API_KEY))
    } else if name == "allowed-origin"@ {
        Some(multi_opt(OPT_ALLOWED_ORIGIN))
    } else {
        None
    }
}

/// The short options shared by `daemon`, `launch` and `play`.
pub open spec fn server_short(c: char) -> Option<OptSpec> {
    if c == 'P' {
        Some(value_opt(OPT_PORT))
    } else if c == 'b' {
        Some(value_opt(OPT_BIND))
    } else {
        None
    }
}

/// The option of a subcommand with a given long name.
pub open spec fn long_option(sub: SubcommandKind, name: Seq<char>) -> Option<OptSpec> {
    match sub {
        SubcommandKind::Daemon | SubcommandKind::Launch => {
            if name == "pipeline"@ { Some(multi_opt(OPT_PIPELINE)) } else { server_long(name) }
        },
        SubcommandKind::Inspect => {
            if name == "detail"@ {
                Some(value_opt(OPT_DETAIL))
            } else if name == "format"@ {
                Some(value_opt(OPT_FORMAT))
            } else {
                None
            }
        },
        SubcommandKind::Discover => {
            if name == "timeout"@ { Some(value_opt(OPT_TIMEOUT)) } else { None }
        },
        SubcommandKind::Play => {
            if name == "video-sink"@ {
                Some(value_opt(OPT_VIDEO_SINK))
            } else if name == "audio-sink"@ {
                Some(value_opt(OPT_AUDIO_SINK))
            } else if name == "playbin2"@ {
                Some(flag_opt(OPT_PLAYBIN2))
            } else {
                server_long(name)
            }
        },
    }
}

/// The option of a subcommand with a given short name.
pub open spec fn short_option(sub: SubcommandKind, c: char) -> Option<OptSpec> {
    match sub {
        SubcommandKind::Daemon | SubcommandKind::Launch => {
            if c == 'p' { Some(multi_opt(OPT_PIPELINE)) } else { server_short(c) }
        },
        SubcommandKind::Inspect => {
            if c == 'd' {
                Some(value_opt(OPT_DETAIL))
            } else if c == 'f' {
                Some(value_opt(OPT_FORMAT))
            } else {
                None
            }
        },
        SubcommandKind::Discover => {
            if c == 't' { Some(value_opt(OPT_TIMEOUT)) } else { None }
        },
        SubcommandKind::Play => server_short(c),
    }
}

/// How an option is named in messages.
pub open spec fn option_name(id: u8) -> Seq<char> {
    if id == OPT_PORT {
        "--port"@
    } else if id == OPT_BIND {
        "--bind"@
    } else if id == OPT_NO_DBUS {
        "--no-dbus"@
    } else if id == OPT_NO_WEBSOCKET {
        "--no-websocket"@
    } else if id == OPT_API_KEY {
        "--api-key"@
    } else if id == OPT_ALLOWED_ORIGIN {
        "--allowed-origin"@
    } else if id == OPT_PIPELINE {
        "--pipeline"@
    } else if id == OPT_VIDEO_SINK {
        "--video-sink"@
    } else if id == OPT_AUDIO_SINK {
        "--audio-sink"@
    } else if id == OPT_PLAYBIN2 {
        "--playbin2"@
    } else if id == OPT_DETAIL {
        "--detail"@
    } else if id == OPT_FORMAT {
        "--format"@
    } else if id == OPT_URL {
        "--url"@
    } else if id == OPT_DETAILS {
        "--details"@
    } else {
        "--timeout"@
    }
}

/// Each long option selects the option it names: the option found for `--<name>` is the
/// one messages call `--<name>`.
pub proof fn lemma_long_options_select_what_they_name(sub: SubcommandKind, name: Seq<char>)
    ensures
        long_option(sub, name) matches Some(o) ==> option_name(o.id) == "--"@ + name,
{
    reveal_strlit("port");
    reveal_strlit("--port");
    reveal_strlit("bind");
    reveal_strlit("--bind");
    reveal_strlit("no-dbus");
    reveal_strlit("--no-dbus");
    reveal_strlit("no-websocket");
    reveal_strlit("--no-websocket");
    reveal_strlit("api-key");
    reveal_strlit("--api-key");
    reveal_strlit("allowed-origin");
    reveal_strlit("--allowed-origin");
    reveal_strlit("pipeline");
    reveal_strlit("--pipeline");
    reveal_strlit("video-sink");
    reveal_strlit("--video-sink");
    reveal_strlit("audio-sink");
    reveal_strlit("--audio-sink");
    reveal_strlit("playbin2");
    reveal_strlit("--playbin2");
    reveal_strlit("detail");
    reveal_strlit("--detail");
    reveal_strlit("format");
    reveal_strlit("--format");
    reveal_strlit("timeout");
    reveal_strlit("--timeout");
    reveal_strlit("--");
    reveal_strlit("--url");
    reveal_strlit("--details");
    assert(name == "port"@ ==> "--"@ + name =~= "--port"@);
    assert(name == "bind"@ ==> "--"@ + name =~= "--bind"@);
    assert(name == "no-dbus"@ ==> "--"@ + name =~= "--no-dbus"@);
    assert(name == "no-websocket"@ ==> "--"@ + name =~= "--no-websocket"@);
    assert(name == "api-key"@ ==> "--"@ + name =~= "--api-key"@);
    assert(name == "allowed-origin"@ ==> "--"@ + name =~= "--allowed-origin"@);
    assert(name == "pipeline"@ ==> "--"@ + name =~= "--pipeline"@);
    assert(name == "video-sink"@ ==> "--"@ + name =~= "--video-sink"@);
    assert(name == "audio-sink"@ ==> "--"@ + name =~= "--audio-sink"@);
    assert(name == "playbin2"@ ==> "--"@ + name =~= "--playbin2"@);
    assert(name == "detail"@ ==> "--"@ + name =~= "--detail"@);
    assert(name == "format"@ ==> "--"@ + name =~= "--format"@);
    assert(name == "timeout"@ ==> "--"@ + name =~= "--timeout"@);
}

/// A short option selects the same option as its long form.
pub proof fn lemma_short_options_match_long_ones(sub: SubcommandKind, c: char)
    ensures
        short_option(sub, c) matches Some(o) ==> long_option(sub, option_name(o.id).skip(2)) == Some(o),
{
    reveal_strlit("port");
    reveal_strlit("--port");
    reveal_strlit("bind");
    reveal_strlit("--bind");
    reveal_strlit("no-dbus");
    reveal_strlit("--no-dbus");
    reveal_strlit("no-websocket");
    reveal_strlit("--no-websocket");
    reveal_strlit("api-key");
    reveal_strlit("--api-key");
    reveal_strlit("allowed-origin");
    reveal_strlit("--allowed-origin");
    reveal_strlit("pipeline");
    reveal_strlit("--pipeline");
    reveal_strlit("video-sink");
    reveal_strlit("--video-sink");
    reveal_strlit("audio-sink");
    reveal_strlit("--audio-sink");
    reveal_strlit("playbin2");
    reveal_strlit("--playbin2");
    reveal_strlit("detail");
    reveal_strlit("--detail");
    reveal_strlit("format");
    reveal_strlit("--format");
    reveal_strlit("timeout");
    reveal_strlit("--timeout");
    reveal_strlit("--");
    reveal_strlit("--url");
    reveal_strlit("--details");
    assert("--port"@.skip(2) =~= "port"@);
    assert("--bind"@.skip(2) =~= "bind"@);
    assert("--pipeline"@.skip(2) =~= "pipeline"@);
    assert("--detail"@.skip(2) =~= "detail"@);
    assert("--format"@.skip(2) =~= "format"@);
    assert("--timeout"@.skip(2) =~= "timeout"@);
    assert("bind"@[0] != "port"@[0] && "format"@[0] != "detail"@[0]);
    assert("port"@.len() != "pipeline"@.len() && "bind"@.len() != "pipeline"@.len());
    assert("port"@.len() != "video-sink"@.len() && "port"@.len() != "audio-sink"@.len());
    assert("port"@.len() != "playbin2"@.len() && "bind"@.len() != "playbin2"@.len());
}

fn server_long_exec(name: &str) -> (r: Option<OptSpec>)
    ensures
        r == server_long(name@),
{
    if str_eq(name, "port") {
        Some(OptSpec { id: OPT_PORT, takes_value: true, multiple: false })
    } else if str_eq(name, "bind") {
        Some(OptSpec { id: OPT_BIND, takes_value: true, multiple: false })
    } else if str_eq(name, "no-dbus") {
        Some(OptSpec { id: OPT_NO_DBUS, takes_value: false, multiple: false })
    } else if str_eq(name, "no-websocket") {
        Some(OptSpec { id: OPT_NO_WEBSOCKET, takes_value: false, multiple: false })
    } else if str_eq(name, "api-key") {
        Some(OptSpec { id: OPT_API_KEY, takes_value: true, multiple: false })
    } else if str_eq(name, "allowed-origin") {
        Some(OptSpec { id: OPT_ALLOWED_ORIGIN, takes_value: true, multiple: true })
    } else {
        None
    }
}

fn server_short_exec(c: char) -> (r: Option<OptSpec>)
    ensures
        r == server_short(c),
{
    if c == 'P' {
        Some(OptSpec { id: OPT_PORT, takes_value: true, multiple: false })
    } else if c == 'b' {
        Some(OptSpec { id: OPT_BIND, takes_value: true, multiple: false })
    } else {
        None
    }
}

/// The option of a subcommand with a given long name.
pub fn lookup_long(sub: SubcommandKind, name: &str) -> (r: Option<OptSpec>)
    ensures
        r == long_option(sub, name@),
{
    match sub {
        SubcommandKind::Daemon | SubcommandKind::Launch => {
            if str_eq(name, "pipeline") {
                Some(OptSpec { id: OPT_PIPELINE, takes_value: true, multiple: true })
            } else {
                server_long_exec(name)
            }
        },
        SubcommandKind::Inspect => {
            if str_eq(name, "detail") {
                Some(OptSpec { id: OPT_DETAIL, takes_value: true, multiple: false })
            } else if str_eq(name, "format") {
                Some(OptSpec { id: OPT_FORMAT, takes_value: true, multiple: false })
            } else {
                None
            }
        },
        SubcommandKind::Discover => {
            if str_eq(name, "timeout") {
                Some(OptSpec { id: OPT_TIMEOUT, takes_value: true, multiple: false })
            } else {
                None
            }
        },
        SubcommandKind::Play => {
            if str_eq(name, "video-sink") {
                Some(OptSpec { id: OPT_VIDEO_SINK, takes_value: true, multiple: false })
            } else if str_eq(name, "audio-sink") {
                Some(OptSpec { id: OPT_AUDIO_SINK, takes_value: true, multiple: false })
            } else if str_eq(name, "playbin2") {
                Some(OptSpec { id: OPT_PLAYBIN2, takes_value: false, multiple: false })
            } else {
                server_long_exec(name)
            }
        },
    }
}

/// The option of a subcommand with a given short name.
pub fn lookup_short(sub: SubcommandKind, c: char) -> (r: Option<OptSpec>)
    ensures
        r == short_option(sub, c),
{
    match sub {
        SubcommandKind::Daemon | SubcommandKind::Launch => {
            if c == 'p' {
                Some(OptSpec { id: OPT_PIPELINE, takes_value: true, multiple: true })
            } else {
                server_short_exec(c)
            }
        },
        SubcommandKind::Inspect => {
            if c == 'd' {
                Some(OptSpec { id: OPT_DETAIL, takes_value: true, multiple: false })
            } else if c == 'f' {
                Some(OptSpec { id: OPT_FORMAT, takes_value: true, multiple: false })
            } else {
                None
            }
        },
        SubcommandKind::Discover => {
            if c == 't' {
                Some(OptSpec { id: OPT_TIMEOUT, takes_value: true, multiple: false })
            } else {
                None
            }
        },
        SubcommandKind::Play => server_short_exec(c),
    }
}

/// How an option is named in messages.
pub fn option_name_exec(id: u8) -> (r: String)
    ensures
        r@ == option_name(id),
{
    if id == OPT_PORT {
        string_from("--port")
    } else if id == OPT_BIND {
        string_from("--bind")
    } else if id == OPT_NO_DBUS {
        string_from("--no-dbus")
    } else if id == OPT_NO_WEBSOCKET {
        string_from("--no-websocket")
    } else if id == OPT_API_KEY {
        string_from("--api-key")
    } else if id == OPT_ALLOWED_ORIGIN {
        string_from("--allowed-origin")
    } else if id == OPT_PIPELINE {
        string_from("--pipeline")
    } else if id == OPT_VIDEO_SINK {
        string_from("--video-sink")
    } else if id == OPT_AUDIO_SINK {
        string_from("--audio-sink")
    } else if id == OPT_PLAYBIN2 {
        string_from("--playbin2")
    } else if id == OPT_DETAIL {
        string_from("--detail")
    } else if id == OPT_FORMAT {
        string_from("--format")
    } else if id == OPT_URL {
        string_from("--url")
    } else if id == OPT_DETAILS {
        string_from("--details")
    } else {
        string_from("--timeout")
    }
}

/// The arguments being read: those of a `gst-pop` subcommand, those of `gst-popctl` before
/// its command, or those of a `gst-popctl` command.
#[derive(Debug, Clone, Copy, PartialEq, Eq, Structural)]
pub enum Grammar {
    Pop(SubcommandKind),
    CtlTop,
    Ctl(ClientCommandKind),
}

/// The option of a grammar with a given long name.
pub open spec fn grammar_long(g: Grammar, name: Seq<char>) -> Option<OptSpec> {
    match g {
        Grammar::Pop(sub) => long_option(sub, name),
        Grammar::CtlTop => if name == "url"@ { Some(value_opt(OPT_URL)) } else { None },
        Grammar::Ctl(k) => ctl_long(k, name),
    }
}

/// The option of a grammar with a given short name.
pub open spec fn grammar_short(g: Grammar, c: char) -> Option<OptSpec> {
    match g {
        Grammar::Pop(sub) => short_option(sub, c),
        _ => None,
    }
}

/// How many positional arguments a grammar takes; `None` when the first of them makes every
/// further argument positional (the pipeline of `launch`, the command of `gst-popctl`).
pub open spec fn positional_capacity(g: Grammar) -> Option<nat> {
    match g {
        Grammar::Pop(SubcommandKind::Launch) => None,
        Grammar::Pop(SubcommandKind::Daemon) => Some(0),
        Grammar::Pop(_) => Some(1),
        Grammar::CtlTop => None,
        Grammar::Ctl(k) => Some(ctl_positional_names(k).len() + ctl_optional_positionals(k)),
    }
}

/// `--version` and `-V` are understood (before a `gst-popctl` command).
pub open spec fn allows_version(g: Grammar) -> bool {
    g is CtlTop
}

/// An unknown option starts the positional arguments (of `launch`).
pub open spec fn unknown_starts_positional(g: Grammar) -> bool {
    g == Grammar::Pop(SubcommandKind::Launch)
}

/// The option of a grammar with a given long name.
pub fn lookup_grammar_long(g: Grammar, name: &str) -> (r: Option<OptSpec>)
    ensures
        r == grammar_long(g, name@),
{
    match g {
        Grammar::Pop(sub) => lookup_long(sub, name),
        Grammar::CtlTop => if str_eq(name, "url") {
            Some(OptSpec { id: OPT_URL, takes_value: true, multiple: false })
        } else {
            None
        },
        Grammar::Ctl(k) => lookup_ctl_long(k, name),
    }
}

/// The option of a grammar with a given short name.
pub fn lookup_grammar_short(g: Grammar, c: char) -> (r: Option<OptSpec>)
    ensures
        r == grammar_short(g, c),
{
    match g {
        Grammar::Pop(sub) => lookup_short(sub, c),
        _ => None,
    }
}

/// How many positional arguments a grammar takes.
pub fn positional_capacity_exec(g: Grammar) -> (r: Option<usize>)
    ensures
        match r {
            Some(n) => positional_capacity(g) == Some(n as nat),
            None => positional_capacity(g) is None,
        },
{
    match g {
        Grammar::Pop(SubcommandKind::Launch) => None,
        Grammar::Pop(SubcommandKind::Daemon) => Some(0),
        Grammar::Pop(_) => Some(1),
        Grammar::CtlTop => None,
        Grammar::Ctl(k) => Some(ctl_positional_count(k)),
    }
}

/// Why a command line was not accepted.
#[derive(Debug, Clone, PartialEq, Eq)]
pub enum CliError {
    /// Help was asked for.
    Help,
    /// The version was asked for.
    Version,
    /// An option or argument that the command does not have.
    UnknownArgument(String),
    /// An option given without its value.
    MissingValue(String),
    /// A single-valued option or a flag given twice.
    DuplicateArgument(String),
    /// A value that the option does not accept.
    InvalidValue(String),
    /// A required argument that was not given.
    MissingArgument(String),
}

/// The contents of a command-line error.
pub enum CliErrorView {
    Help,
    Version,
    UnknownArgument(Seq<char>),
    MissingValue(Seq<char>),
    DuplicateArgument(Seq<char>),
    InvalidValue(Seq<char>),
    MissingArgument(Seq<char>),
}

impl CliError {
    /// A copy of the error.
    pub fn copy(&self) -> (r: CliError)
        ensures
            r@ == self@,
    {
        match self {
            CliError::Help => CliError::Help,
            CliError::Version => CliError::Version,
            CliError::UnknownArgument(s) => CliError::UnknownArgument(s.clone()),
            CliError::MissingValue(s) => CliError::MissingValue(s.clone()),
            CliError::DuplicateArgument(s) => CliError::DuplicateArgument(s.clone()),
            CliError::InvalidValue(s) => CliError::InvalidValue(s.clone()),
            CliError::MissingArgument(s) => CliError::MissingArgument(s.clone()),
        }
    }
}

impl View for CliError {
    type V = CliErrorView;

    open spec fn view(&self) -> CliErrorView {
        match self {
            CliError::Help => CliErrorView::Help,
            CliError::Version => CliErrorView::Version,
            CliError::UnknownArgument(s) => CliErrorView::UnknownArgument(s@),
            CliError::MissingValue(s) => CliErrorView::MissingValue(s@),
            CliError::DuplicateArgument(s) => CliErrorView::DuplicateArgument(s@),
            CliError::InvalidValue(s) => CliErrorView::InvalidValue(s@),
            CliError::MissingArgument(s) => CliErrorView::MissingArgument(s@),
        }
    }
}

/// Server options shared by `daemon`, `launch` and `play`.
#[derive(Debug, Clone)]
pub struct ServerArgs {
    /// WebSocket port (`--port`, `-P`).
    pub port: u16,
    /// Bind address of the WebSocket server (`--bind`, `-b`).
    pub bind: String,
    /// Disable the DBus interface (`--no-dbus`).
    pub no_dbus: bool,
    /// Disable the WebSocket interface (`--no-websocket`).
    pub no_websocket: bool,
    /// API key for WebSocket authentication (`--api-key`, else `GSTPOP_API_KEY`).
    pub api_key: Option<String>,
    /// Allowed origins for WebSocket connections (`--allowed-origin`, repeatable).
    pub allowed_origins: Vec<String>,
}

/// `daemon`: start the daemon with WebSocket and DBus interfaces.
#[derive(Debug, Clone)]
pub struct DaemonArgs {
    /// Initial pipelines to create (`--pipeline`, `-p`, repeatable).
    pub pipelines: Vec<String>,
    pub server: ServerArgs,
}

/// `launch`: launch pipelines and exit when all finish.
#[derive(Debug, Clone)]
pub struct LaunchArgs {
    /// Pipeline descriptions given with `--pipeline` / `-p`.
    pub pipelines: Vec<String>,
    /// The positional pipeline description: its words joined by single spaces.
    pub pipeline: Option<String>,
    pub server: ServerArgs,
}

/// `inspect`: inspect GStreamer elements.
#[derive(Debug, Clone)]
pub struct InspectArgs {
    /// Element to inspect; all elements when absent.
    pub element: Option<String>,
    /// Detail level (`--detail`, `-d`): none, summary, full.
    pub detail: String,
    /// Output format (`--format`, `-f`): text or json.
    pub format: String,
}

/// `discover`: discover media information for a URI.
#[derive(Debug, Clone)]
pub struct DiscoverArgs {
    pub uri: String,
    /// Timeout in seconds (`--timeout`, `-t`).
    pub timeout: u32,
}

/// `play`: play a media URI using playbin.
#[derive(Debug, Clone)]
pub struct PlayArgs {
    pub uri: String,
    pub video_sink: Option<String>,
    pub audio_sink: Option<String>,
    /// Use legacy playbin instead of playbin3.
    pub playbin2: bool,
    pub server: ServerArgs,
}

/// The subcommand given, with its arguments.
#[derive(Debug, Clone)]
pub enum Commands {
    Daemon(DaemonArgs),
    Launch(LaunchArgs),
    Inspect(InspectArgs),
    Discover(DiscoverArgs),
    Play(PlayArgs),
}

/// A parsed command line.
#[derive(Debug, Clone)]
pub struct Cli {
    pub command: Option<Commands>,
    /// Without a subcommand: the words of a pipeline description to launch.
    pub pipeline: Vec<String>,
}

/// The subcommand a word names.
pub open spec fn subcommand_named(w: Seq<char>) -> Option<SubcommandKind> {
    if w == "daemon"@ {
        Some(SubcommandKind::Daemon)
    } else if w == "launch"@ {
        Some(SubcommandKind::Launch)
    } else if w == "inspect"@ {
        Some(SubcommandKind::Inspect)
    } else if w == "discover"@ {
        Some(SubcommandKind::Discover)
    } else if w == "play"@ {
        Some(SubcommandKind::Play)
    } else {
        None
    }
}

/// Words joined by single spaces.
pub open spec fn join_words(ws: Seq<Seq<char>>) -> Seq<char>
    decreases ws.len(),
{
    if ws.len() == 0 {
        Seq::empty()
    } else if ws.len() == 1 {
        ws[0]
    } else {
        join_words(ws.drop_last()) + seq![' '] + ws.last()
    }
}

/// The value of an option, or its default.
pub open spec fn value_or(s: ScanView, id: u8, default: Seq<char>) -> Seq<char> {
    match first_value(s.values, id) {
        Some(v) => v,
        None => default,
    }
}

/// The number given to an integer option, or its default. A recorded value always reads as a
/// number (scanning refuses one that does not, see `lemma_scan_values_accepted`), so the `0`
/// below is never reached.
pub open spec fn number_or(s: ScanView, id: u8, max: nat, default: nat) -> nat {
    match first_value(s.values, id) {
        Some(v) => match parse_bounded(v, max) {
            Some(n) => n,
            None => 0,
        },
        None => default,
    }
}

/// `a` holds the server options of a scan; `env` is the `GSTPOP_API_KEY` variable.
pub open spec fn server_args_match(a: ServerArgs, s: ScanView, env: Option<Seq<char>>) -> bool {
    &&& a.port as nat == number_or(s, OPT_PORT, 0xFFFF, DEFAULT_WEBSOCKET_PORT as nat)
    &&& a.bind@ == value_or(s, OPT_BIND, DEFAULT_BIND_ADDRESS@)
    &&& a.no_dbus == s.flags.contains(OPT_NO_DBUS)
    &&& a.no_websocket == s.flags.contains(OPT_NO_WEBSOCKET)
    &&& opt_view(a.api_key) == (match first_value(s.values, OPT_API_KEY) {
        Some(v) => Some(v),
        None => env,
    })
    &&& strings_view(a.allowed_origins@) == all_values(s.values, OPT_ALLOWED_ORIGIN)
}

/// The server flags read the options they are named after: `no_websocket` is set exactly
/// when `--no-websocket` was given and `no_dbus` exactly when `--no-dbus` was.
pub proof fn lemma_server_flags_read_their_options(a: ServerArgs, s: ScanView, env: Option<Seq<char>>, id: u8)
    requires
        server_args_match(a, s, env),
    ensures
        option_name(id) == "--no-websocket"@ ==> (a.no_websocket <==> s.flags.contains(id)),
        option_name(id) == "--no-dbus"@ ==> (a.no_dbus <==> s.flags.contains(id)),
{
    reveal_strlit("--port");
    reveal_strlit("--bind");
    reveal_strlit("--no-dbus");
    reveal_strlit("--no-websocket");
    reveal_strlit("--api-key");
    reveal_strlit("--allowed-origin");
    reveal_strlit("--pipeline");
    reveal_strlit("--video-sink");
    reveal_strlit("--audio-sink");
    reveal_strlit("--playbin2");
    reveal_strlit("--detail");
    reveal_strlit("--format");
    reveal_strlit("--url");
    reveal_strlit("--details");
    reveal_strlit("--timeout");
    if id == OPT_PORT {
        assert("--port"@.len() != "--no-dbus"@.len() || "--port"@[2] != "--no-dbus"@[2] || id == OPT_NO_DBUS);
        assert("--port"@.len() != "--no-websocket"@.len() || id == OPT_NO_WEBSOCKET);
    } else if id == OPT_BIND {
        assert("--bind"@.len() != "--no-dbus"@.len() || "--bind"@[2] != "--no-dbus"@[2] || id == OPT_NO_DBUS);
        assert("--bind"@.len() != "--no-websocket"@.len() || id == OPT_NO_WEBSOCKET);
    } else if id == OPT_NO_DBUS {
        assert("--no-dbus"@.len() != "--no-dbus"@.len() || "--no-dbus"@[2] != "--no-dbus"@[2] || id == OPT_NO_DBUS);
        assert("--no-dbus"@.len() != "--no-websocket"@.len() || id == OPT_NO_WEBSOCKET);
    } else if id == OPT_NO_WEBSOCKET {
        assert("--no-websocket"@.len() != "--no-dbus"@.len() || "--no-websocket"@[2] != "--no-dbus"@[2] || id == OPT_NO_DBUS);
        assert("--no-websocket"@.len() != "--no-websocket"@.len() || id == OPT_NO_WEBSOCKET);
    } else if id == OPT_API_KEY {
        assert("--api-key"@.len() != "--no-dbus"@.len() || "--api-key"@[2] != "--no-dbus"@[2] || id == OPT_NO_DBUS);
        assert("--api-key"@.len() != "--no-websocket"@.len() || id == OPT_NO_WEBSOCKET);
    } else if id == OPT_ALLOWED_ORIGIN {
        assert("--allowed-origin"@.len() != "--no-dbus"@.len() || "--allowed-origin"@[2] != "--no-dbus"@[2] || id == OPT_NO_DBUS);
        assert("--allowed-origin"@.len() != "--no-websocket"@.len() || id == OPT_NO_WEBSOCKET);
    } else if id == OPT_PIPELINE {
        assert("--pipeline"@.len() != "--no-dbus"@.len() || "--pipeline"@[2] != "--no-dbus"@[2] || id == OPT_NO_DBUS);
        assert("--pipeline"@.len() != "--no-websocket"@.len() || id == OPT_NO_WEBSOCKET);
    } else if id == OPT_VIDEO_SINK {
        assert("--video-sink"@.len() != "--no-dbus"@.len() || "--video-sink"@[2] != "--no-dbus"@[2] || id == OPT_NO_DBUS);
        assert("--video-sink"@.len() != "--no-websocket"@.len() || id == OPT_NO_WEBSOCKET);
    } else if id == OPT_AUDIO_SINK {
        assert("--audio-sink"@.len() != "--no-dbus"@.len() || "--audio-sink"@[2] != "--no-dbus"@[2] || id == OPT_NO_DBUS);
        assert("--audio-sink"@.len() != "--no-websocket"@.len() || id == OPT_NO_WEBSOCKET);
    } else if id == OPT_PLAYBIN2 {
        assert("--playbin2"@.len() != "--no-dbus"@.len() || "--playbin2"@[2] != "--no-dbus"@[2] || id == OPT_NO_DBUS);
        assert("--playbin2"@.len() != "--no-websocket"@.len() || id == OPT_NO_WEBSOCKET);
    } else if id == OPT_DETAIL {
        assert("--detail"@.len() != "--no-dbus"@.len() || "--detail"@[2] != "--no-dbus"@[2] || id == OPT_NO_DBUS);
        assert("--detail"@.len() != "--no-websocket"@.len() || id == OPT_NO_WEBSOCKET);
    } else if id == OPT_FORMAT {
        assert("--format"@.len() != "--no-dbus"@.len() || "--format"@[2] != "--no-dbus"@[2] || id == OPT_NO_DBUS);
        assert("--format"@.len() != "--no-websocket"@.len() || id == OPT_NO_WEBSOCKET);
    } else if id == OPT_URL {
        assert("--url"@.len() != "--no-dbus"@.len() || "--url"@[2] != "--no-dbus"@[2] || id == OPT_NO_DBUS);
        assert("--url"@.len() != "--no-websocket"@.len() || id == OPT_NO_WEBSOCKET);
    } else if id == OPT_DETAILS {
        assert("--details"@.len() != "--no-dbus"@.len() || "--details"@[2] != "--no-dbus"@[2] || id == OPT_NO_DBUS);
        assert("--details"@.len() != "--no-websocket"@.len() || id == OPT_NO_WEBSOCKET);
    } else {
        assert("--timeout"@[2] != "--no-dbus"@[2]);
        assert("--timeout"@.len() != "--no-websocket"@.len());
    }
}

/// The first positional argument, if any.
pub open spec fn first_positional(s: ScanView) -> Option<Seq<char>> {
    if s.positionals.len() > 0 { Some(s.positionals[0]) } else { None }
}

/// `c` holds what a scan of subcommand `sub` found.
pub open spec fn command_matches(c: Commands, sub: SubcommandKind, s: ScanView, env: Option<Seq<char>>) -> bool {
    match c {
        Commands::Daemon(a) => {
            &&& sub is Daemon
            &&& strings_view(a.pipelines@) == all_values(s.values, OPT_PIPELINE)
            &&& server_args_match(a.server, s, env)
        },
        Commands::Launch(a) => {
            &&& sub is Launch
            &&& strings_view(a.pipelines@) == all_values(s.values, OPT_PIPELINE)
            &&& opt_view(a.pipeline) == (if s.positionals.len() == 0 {
                None
            } else {
                Some(join_words(s.positionals))
            })
            &&& server_args_match(a.server, s, env)
        },
        Commands::Inspect(a) => {
            &&& sub is Inspect
            &&& opt_view(a.element) == first_positional(s)
            &&& a.detail@ == value_or(s, OPT_DETAIL, "summary"@)
            &&& a.format@ == value_or(s, OPT_FORMAT, "text"@)
        },
        Commands::Discover(a) => {
            &&& sub is Discover
            &&& Some(a.uri@) == first_positional(s)
            &&& a.timeout as nat == number_or(s, OPT_TIMEOUT, 0xFFFF_FFFF, DEFAULT_TIMEOUT_SECS as nat)
        },
        Commands::Play(a) => {
            &&& sub is Play
            &&& Some(a.uri@) == first_positional(s)
            &&& opt_view(a.video_sink) == first_value(s.values, OPT_VIDEO_SINK)
            &&& opt_view(a.audio_sink) == first_value(s.values, OPT_AUDIO_SINK)
            &&& a.playbin2 == s.flags.contains(OPT_PLAYBIN2)
            &&& server_args_match(a.server, s, env)
        },
    }
}

/// Why a subcommand's arguments are refused, if they are.
pub open spec fn subcommand_error(sub: SubcommandKind, s: ScanView) -> Option<CliErrorView> {
    if s.error is Some {
        s.error
    } else if (sub is Discover || sub is Play) && s.positionals.len() == 0 {
        Some(CliErrorView::MissingArgument("<URI>"@))
    } else {
        None
    }
}

/// Why a command line (program name first) is refused, if it is.
pub open spec fn cli_error(args: Seq<Seq<char>>) -> Option<CliErrorView> {
    if args.len() <= 1 {
        None
    } else {
        match subcommand_named(args[1]) {
            Some(sub) => subcommand_error(sub, scanned(Grammar::Pop(sub), args.skip(2))),
            None => if args[1] == "--help"@ || args[1] == "-h"@ || args[1] == "help"@ {
                Some(CliErrorView::Help)
            } else if args[1] == "--version"@ || args[1] == "-V"@ {
                Some(CliErrorView::Version)
            } else {
                None
            },
        }
    }
}

/// `cli` holds what the command line says; `env` is the `GSTPOP_API_KEY` variable.
pub open spec fn cli_matches(cli: Cli, args: Seq<Seq<char>>, env: Option<Seq<char>>) -> bool {
    if args.len() <= 1 {
        cli.command is None && cli.pipeline@.len() == 0
    } else {
        match subcommand_named(args[1]) {
            Some(sub) => {
                &&& cli.pipeline@.len() == 0
                &&& cli.command matches Some(c) && command_matches(c, sub, scanned(Grammar::Pop(sub), args.skip(2)), env)
            },
            None => {
                &&& cli.command is None
                &&& strings_view(cli.pipeline@) == (if args[1] == "--"@ { args.skip(2) } else { args.skip(1) })
            },
        }
    }
}

fn subcommand_named_exec(w: &str) -> (r: Option<SubcommandKind>)
    ensures
        r == subcommand_named(w@),
{
    if str_eq(w, "daemon") {
        Some(SubcommandKind::Daemon)
    } else if str_eq(w, "launch") {
        Some(SubcommandKind::Launch)
    } else if str_eq(w, "inspect") {
        Some(SubcommandKind::Inspect)
    } else if str_eq(w, "discover") {
        Some(SubcommandKind::Discover)
    } else if str_eq(w, "play") {
        Some(SubcommandKind::Play)
    } else {
        None
    }
}

/// Joins words with single spaces.
pub fn join_words_exec(ws: &Vec<String>) -> (r: String)
    ensures
        r@ == join_words(strings_view(ws@)),
{
    let mut r = String::new();
    let mut i: usize = 0;
    proof {
        assert(strings_view(ws@).take(0) =~= Seq::empty());
    }
    while i < ws.len()
        invariant
            i <= ws@.len(),
            r@ == join_words(strings_view(ws@).take(i as int)),
        decreases ws@.len() - i,
    {
        let ghost before = r@;
        let ghost t = strings_view(ws@).take(i + 1);
        proof {
            assert(t.drop_last() =~= strings_view(ws@).take(i as int));
            assert(t.last() == ws@[i as int]@);
        }
        if i > 0 {
            push_char(&mut r, ' ');
        }
        let w = chars_of(ws[i].as_str());
        push_chars(&mut r, &w, 0, w.len());
        proof {
            assert(w@.subrange(0, w@.len() as int) =~= w@);
            if i == 0 {
                assert(before =~= Seq::<char>::empty());
                assert(r@ =~= t[0]);
            } else {
                assert(r@ =~= before + seq![' '] + t.last());
            }
        }
        i = i + 1;
    }
    proof {
        assert(strings_view(ws@).take(i as int) =~= strings_view(ws@));
    }
    r
}

fn server_args_from(st: &ScanState, api_key_env: &Option<String>) -> (a: ServerArgs)
    requires
        st@.error is None,
    ensures
        server_args_match(a, st@, opt_view(*api_key_env)),
{
    let port: u16 = match first_value_exec(&st.values, OPT_PORT) {
        Some(v) => match parse_number(v.as_str(), 0xFFFF) {
            Some(n) => n as u16,
            None => 0,
        },
        None => DEFAULT_WEBSOCKET_PORT,
    };
    let bind = match first_value_exec(&st.values, OPT_BIND) {
        Some(v) => v,
        None => string_from(DEFAULT_BIND_ADDRESS),
    };
    let api_key = match first_value_exec(&st.values, OPT_API_KEY) {
        Some(v) => Some(v),
        None => crate::text::clone_opt_string(api_key_env),
    };
    ServerArgs {
        port,
        bind,
        no_dbus: has_flag_exec(&st.flags, OPT_NO_DBUS),
        no_websocket: has_flag_exec(&st.flags, OPT_NO_WEBSOCKET),
        api_key,
        allowed_origins: all_values_exec(&st.values, OPT_ALLOWED_ORIGIN),
    }
}

fn value_or_exec(st: &ScanState, id: u8, default: &str) -> (r: String)
    ensures
        r@ == value_or(st@, id, default@),
{
    match first_value_exec(&st.values, id) {
        Some(v) => v,
        None => string_from(default),
    }
}

fn first_positional_exec(st: &ScanState) -> (r: Option<String>)
    ensures
        opt_view(r) == first_positional(st@),
{
    if st.positionals.len() > 0 {
        Some(st.positionals[0].clone())
    } else {
        None
    }
}

fn command_from(sub: SubcommandKind, st: &ScanState, api_key_env: &Option<String>) -> (r: Result<Commands, CliError>)
    ensures
        match r {
            Ok(c) => subcommand_error(sub, st@) is None && command_matches(c, sub, st@, opt_view(*api_key_env)),
            Err(e) => subcommand_error(sub, st@) == Some(e@),
        },
{
    match &st.error {
        Some(e) => {
            return Err(e.copy());
        },
        None => {},
    }
    match sub {
        SubcommandKind::Daemon => Ok(Commands::Daemon(DaemonArgs {
            pipelines: all_values_exec(&st.values, OPT_PIPELINE),
            server: server_args_from(st, api_key_env),
        })),
        SubcommandKind::Launch => {
            let pipeline = if st.positionals.len() == 0 {
                None
            } else {
                Some(join_words_exec(&st.positionals))
            };
            Ok(Commands::Launch(LaunchArgs {
                pipelines: all_values_exec(&st.values, OPT_PIPELINE),
                pipeline,
                server: server_args_from(st, api_key_env),
            }))
        },
        SubcommandKind::Inspect => Ok(Commands::Inspect(InspectArgs {
            element: first_positional_exec(st),
            detail: value_or_exec(st, OPT_DETAIL, "summary"),
            format: value_or_exec(st, OPT_FORMAT, "text"),
        })),
        SubcommandKind::Discover => {
            if st.positionals.len() == 0 {
                return Err(CliError::MissingArgument(string_from("<URI>")));
            }
            let timeout: u32 = match first_value_exec(&st.values, OPT_TIMEOUT) {
                Some(v) => match parse_number(v.as_str(), 0xFFFF_FFFF) {
                    Some(n) => n as u32,
                    None => 0,
                },
                None => DEFAULT_TIMEOUT_SECS,
            };
            Ok(Commands::Discover(DiscoverArgs { uri: st.positionals[0].clone(), timeout }))
        },
        SubcommandKind::Play => {
            if st.positionals.len() == 0 {
                return Err(CliError::MissingArgument(string_from("<URI>")));
            }
            Ok(Commands::Play(PlayArgs {
                uri: st.positionals[0].clone(),
                video_sink: first_value_exec(&st.values, OPT_VIDEO_SINK),
                audio_sink: first_value_exec(&st.values, OPT_AUDIO_SINK),
                playbin2: has_flag_exec(&st.flags, OPT_PLAYBIN2),
                server: server_args_from(st, api_key_env),
            }))
        },
    }
}

impl Cli {
    /// Parses a command line, program name first. `api_key_env` is the value of the
    /// `GSTPOP_API_KEY` environment variable, used where `--api-key` is not given.
    pub fn parse_args(args: &Vec<String>, api_key_env: Option<String>) -> (r: Result<Cli, CliError>)
        ensures
            match r {
                Ok(cli) => cli_error(strings_view(args@)) is None
                    && cli_matches(cli, strings_view(args@), opt_view(api_key_env)),
                Err(e) => cli_error(strings_view(args@)) == Some(e@),
            },
    {
        let ghost a = strings_view(args@);
        if args.len() <= 1 {
            return Ok(Cli { command: None, pipeline: Vec::new() });
        }
        let first = args[1].as_str();
        proof {
            assert(a[1] == first@);
        }
        match subcommand_named_exec(first) {
            Some(sub) => {
                let st = scan_tokens(Grammar::Pop(sub), args, 2);
                match command_from(sub, &st, &api_key_env) {
                    Ok(c) => Ok(Cli { command: Some(c), pipeline: Vec::new() }),
                    Err(e) => Err(e),
                }
            },
            None => {
                if str_eq(first, "--help") || str_eq(first, "-h") || str_eq(first, "help") {
                    return Err(CliError::Help);
                }
                if str_eq(first, "--version") || str_eq(first, "-V") {
                    return Err(CliError::Version);
                }
                let from: usize = if str_eq(first, "--") { 2 } else { 1 };
                let mut pipeline: Vec<String> = Vec::new();
                let mut i = from;
                proof {
                    assert(strings_view(pipeline@) =~= a.subrange(from as int, from as int));
                }
                while i < args.len()
                    invariant
                        from <= i <= args@.len(),
                        a == strings_view(args@),
                        strings_view(pipeline@) =~= a.subrange(from as int, i as int),
                    decreases args@.len() - i,
                {
                    let ghost before = pipeline@;
                    pipeline.push(args[i].clone());
                    proof {
                        assert(strings_view(pipeline@) =~= strings_view(before).push(a[i as int]));
                    }
                    i = i + 1;
                }
                proof {
                    assert(a.subrange(from as int, i as int) =~= a.skip(from as int));
                }
                Ok(Cli { command: None, pipeline })
            },
        }
    }
}

} // verus!

verus! {

/// Running `gst-pop` on a pipeline description is running `gst-pop launch` on it: the words
/// it keeps, joined by spaces, are the pipeline `launch` runs, and neither command line is
/// refused.
pub proof fn lemma_default_command_is_launch(ws: Seq<Seq<char>>, env: Option<Seq<char>>, a: Cli, b: Cli)
    requires
        ws.len() > 0,
        plain_words(ws),
        subcommand_named(ws[0]) is None,
        ws[0] != "help"@,
        cli_matches(a, seq!["gst-pop"@] + ws, env),
        cli_matches(b, seq!["gst-pop"@, "launch"@] + ws, env),
    ensures
        cli_error(seq!["gst-pop"@] + ws) is None,
        cli_error(seq!["gst-pop"@, "launch"@] + ws) is None,
        a.command is None,
        b.command matches Some(Commands::Launch(l)) && opt_view(l.pipeline) == Some(join_words(strings_view(a.pipeline@))),
{
    let args_a = seq!["gst-pop"@] + ws;
    let args_b = seq!["gst-pop"@, "launch"@] + ws;
    assert(args_a[1] == ws[0]);
    assert(args_a.skip(1) =~= ws);
    assert(args_b[1] == "launch"@);
    assert(args_b.skip(2) =~= ws);
    assert(ws[0].len() == 0 || ws[0][0] != '-');
    reveal_strlit("--help");
    reveal_strlit("-h");
    reveal_strlit("--version");
    reveal_strlit("-V");
    reveal_strlit("--");
    reveal_strlit("daemon");
    reveal_strlit("launch");
    assert("launch"@[0] != "daemon"@[0]);
    assert(subcommand_named(args_b[1]) == Some(SubcommandKind::Launch));
    assert(ws[0] != "--help"@);
    assert(ws[0] != "-h"@);
    assert(ws[0] != "--version"@);
    assert(ws[0] != "-V"@);
    assert(ws[0] != "--"@);
    lemma_launch_scans_plain_words(ws);
    assert(scanned(Grammar::Pop(SubcommandKind::Launch), args_b.skip(2)) == crate::cli::scan::scan(Grammar::Pop(SubcommandKind::Launch), ws));
    assert(strings_view(a.pipeline@) == ws);
}

} // verus!

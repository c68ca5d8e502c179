//! The requests `gst-popctl` sends to the daemon: one JSON-RPC request per command.

use vstd::prelude::*;
use crate::cli::{
    first_positional, flag_opt, value_opt, value_or, CliError, CliErrorView, Grammar, OptSpec, OPT_DETAIL,
    OPT_DETAILS, OPT_PLAYBIN2, OPT_TIMEOUT, OPT_URL,
};
use crate::cli::scan::{
    first_value, first_value_exec, has_flag_exec, lemma_first_value_in, lemma_scan_values_accepted, parse_bounded, value_ok,
    parse_number, scan_tokens, scanned, values_accepted, ScanState, ScanView,
};
use crate::job_manager::{is_uuid_v4_text, new_uuid};
use crate::text::{contains_sub, occurs_at, opt_view, str_eq, string_from, strings_view};

verus! {

/// A command of `gst-popctl`.
#[derive(Debug, Clone)]
pub enum ClientCommand {
    /// List all pipelines.
    List,
    /// Create a new pipeline.
    Create { description: String },
    /// Update an existing pipeline description.
    Update { id: String, description: String },
    /// Remove a pipeline.
    Remove { id: String },
    /// Get pipeline info.
    Info { id: String },
    /// Play a pipeline (all when no id is given).
    Play { id: Option<String> },
    /// Pause a pipeline (all when no id is given).
    Pause { id: Option<String> },
    /// Stop a pipeline (all when no id is given).
    Stop { id: Option<String> },
    /// Set a pipeline's state (null, ready, paused, playing).
    State { id: String, state: String },
    /// Get a DOT graph snapshot of a pipeline.
    Snapshot { id: String, details: Option<String> },
    /// Get a pipeline's position and duration.
    Position { id: Option<String> },
    /// Get the daemon's version.
    Version,
    /// Get daemon and GStreamer system info.
    Sysinfo,
    /// Get the pipeline count.
    Count,
    /// List GStreamer elements at a detail level.
    Elements { detail: String },
    /// Discover media info for a URI.
    Discover { uri: String, timeout: Option<u32> },
    /// Play a media URI using playbin.
    PlayUri { uri: String, playbin2: bool },
}

/// A request parameter's value, as JSON writes it.
#[derive(Debug, Clone, PartialEq, Eq)]
pub enum ParamValue {
    Str(String),
    Null,
    Number(u32),
    Bool(bool),
}

/// The contents of a parameter value.
pub enum ParamView {
    Str(Seq<char>),
    Null,
    Number(nat),
    Bool(bool),
}

impl View for ParamValue {
    type V = ParamView;

    open spec fn view(&self) -> ParamView {
        match self {
            ParamValue::Str(s) => ParamView::Str(s@),
            ParamValue::Null => ParamView::Null,
            ParamValue::Number(n) => ParamView::Number(*n as nat),
            ParamValue::Bool(b) => ParamView::Bool(*b),
        }
    }
}

/// A JSON-RPC request: its id, method and named parameters.
#[derive(Debug, Clone)]
pub struct RpcRequest {
    pub id: String,
    pub method: String,
    pub params: Vec<(String, ParamValue)>,
}

pub open spec fn params_view(p: Seq<(String, ParamValue)>) -> Seq<(Seq<char>, ParamView)> {
    p.map_values(|x: (String, ParamValue)| (x.0@, x.1@))
}

/// An optional string as a parameter: the string, or null.
pub open spec fn opt_param(o: Option<Seq<char>>) -> ParamView {
    match o {
        Some(s) => ParamView::Str(s),
        None => ParamView::Null,
    }
}

/// The method a command calls.
pub open spec fn request_method(c: ClientCommand) -> Seq<char> {
    match c {
        ClientCommand::List => "list_pipelines"@,
        ClientCommand::Create { .. } => "create_pipeline"@,
        ClientCommand::Update { .. } => "update_pipeline"@,
        ClientCommand::Remove { .. } => "remove_pipeline"@,
        ClientCommand::Info { .. } => "get_pipeline_info"@,
        ClientCommand::Play { .. } => "play"@,
        ClientCommand::Pause { .. } => "pause"@,
        ClientCommand::Stop { .. } => "stop"@,
        ClientCommand::State { .. } => "set_state"@,
        ClientCommand::Snapshot { .. } => "snapshot"@,
        ClientCommand::Position { .. } => "get_position"@,
        ClientCommand::Version => "get_version"@,
        ClientCommand::Sysinfo => "get_info"@,
        ClientCommand::Count => "get_pipeline_count"@,
        ClientCommand::Elements { .. } => "get_elements"@,
        ClientCommand::Discover { .. } => "discover_uri"@,
        ClientCommand::PlayUri { .. } => "play_uri"@,
    }
}

/// The parameters a command sends.
pub open spec fn request_params(c: ClientCommand) -> Seq<(Seq<char>, ParamView)> {
    match c {
        ClientCommand::List | ClientCommand::Version | ClientCommand::Sysinfo | ClientCommand::Count => seq![],
        ClientCommand::Create { description } => seq![("description"@, ParamView::Str(description@))],
        ClientCommand::Update { id, description } => seq![
            ("pipeline_id"@, ParamView::Str(id@)),
            ("description"@, ParamView::Str(description@)),
        ],
        ClientCommand::Remove { id } | ClientCommand::Info { id } => seq![("pipeline_id"@, ParamView::Str(id@))],
        ClientCommand::Play { id } | ClientCommand::Pause { id } | ClientCommand::Stop { id }
        | ClientCommand::Position { id } => seq![("pipeline_id"@, opt_param(opt_view(id)))],
        ClientCommand::State { id, state } => seq![
            ("pipeline_id"@, ParamView::Str(id@)),
            ("state"@, ParamView::Str(state@)),
        ],
        ClientCommand::Snapshot { id, details } => seq![
            ("pipeline_id"@, ParamView::Str(id@)),
            ("details"@, opt_param(opt_view(details))),
        ],
        ClientCommand::Elements { detail } => seq![("detail"@, ParamView::Str(detail@))],
        ClientCommand::Discover { uri, timeout } => seq![
            ("uri"@, ParamView::Str(uri@)),
            ("timeout"@, match timeout {
                Some(t) => ParamView::Number(t as nat),
                None => ParamView::Null,
            }),
        ],
        ClientCommand::PlayUri { uri, playbin2 } => seq![
            ("uri"@, ParamView::Str(uri@)),
            ("use_playbin2"@, ParamView::Bool(playbin2)),
        ],
    }
}

fn str_param(name: &str, value: &String) -> (r: (String, ParamValue))
    ensures
        r.0@ == name@,
        r.1@ == ParamView::Str(value@),
{
    (string_from(name), ParamValue::Str(value.clone()))
}

fn opt_str_param(name: &str, value: &Option<String>) -> (r: (String, ParamValue))
    ensures
        r.0@ == name@,
        r.1@ == opt_param(opt_view(*value)),
{
    match value {
        Some(v) => (string_from(name), ParamValue::Str(v.clone())),
        None => (string_from(name), ParamValue::Null),
    }
}

fn method_of(c: &ClientCommand) -> (r: String)
    ensures
        r@ == request_method(*c),
{
    match c {
        ClientCommand::List => string_from("list_pipelines"),
        ClientCommand::Create { .. } => string_from("create_pipeline"),
        ClientCommand::Update { .. } => string_from("update_pipeline"),
        ClientCommand::Remove { .. } => string_from("remove_pipeline"),
        ClientCommand::Info { .. } => string_from("get_pipeline_info"),
        ClientCommand::Play { .. } => string_from("play"),
        ClientCommand::Pause { .. } => string_from("pause"),
        ClientCommand::Stop { .. } => string_from("stop"),
        ClientCommand::State { .. } => string_from("set_state"),
        ClientCommand::Snapshot { .. } => string_from("snapshot"),
        ClientCommand::Position { .. } => string_from("get_position"),
        ClientCommand::Version => string_from("get_version"),
        ClientCommand::Sysinfo => string_from("get_info"),
        ClientCommand::Count => string_from("get_pipeline_count"),
        ClientCommand::Elements { .. } => string_from("get_elements"),
        ClientCommand::Discover { .. } => string_from("discover_uri"),
        ClientCommand::PlayUri { .. } => string_from("play_uri"),
    }
}

fn params_of(c: &ClientCommand) -> (r: Vec<(String, ParamValue)>)
    ensures
        params_view(r@) == request_params(*c),
{
    let mut p: Vec<(String, ParamValue)> = Vec::new();
    match c {
        ClientCommand::List | ClientCommand::Version | ClientCommand::Sysinfo | ClientCommand::Count => {},
        ClientCommand::Create { description } => {
            p.push(str_param("description", description));
        },
        ClientCommand::Update { id, description } => {
            p.push(str_param("pipeline_id", id));
            p.push(str_param("description", description));
        },
        ClientCommand::Remove { id } | ClientCommand::Info { id } => {
            p.push(str_param("pipeline_id", id));
        },
        ClientCommand::Play { id } | ClientCommand::Pause { id } | ClientCommand::Stop { id }
        | ClientCommand::Position { id } => {
            p.push(opt_str_param("pipeline_id", id));
        },
        ClientCommand::State { id, state } => {
            p.push(str_param("pipeline_id", id));
            p.push(str_param("state", state));
        },
        ClientCommand::Snapshot { id, details } => {
            p.push(str_param("pipeline_id", id));
            p.push(opt_str_param("details", details));
        },
        ClientCommand::Elements { detail } => {
            p.push(str_param("detail", detail));
        },
        ClientCommand::Discover { uri, timeout } => {
            p.push(str_param("uri", uri));
            let t = match timeout {
                Some(t) => ParamValue::Number(*t),
                None => ParamValue::Null,
            };
            p.push((string_from("timeout"), t));
        },
        ClientCommand::PlayUri { uri, playbin2 } => {
            p.push(str_param("uri", uri));
            p.push((string_from("use_playbin2"), ParamValue::Bool(*playbin2)));
        },
    }
    proof {
        assert(params_view(p@) =~= request_params(*c));
    }
    p
}

/// The request for a command, with the given id.
pub fn request_for(command: &ClientCommand, id: String) -> (r: RpcRequest)
    ensures
        r.id@ == id@,
        r.method@ == request_method(*command),
        params_view(r.params@) == request_params(*command),
{
    RpcRequest { id, method: method_of(command), params: params_of(command) }
}

/// The request for a command, under a fresh random id.
pub fn build_request(command: &ClientCommand) -> (r: RpcRequest)
    ensures
        is_uuid_v4_text(r.id@),
        r.method@ == request_method(*command),
        params_view(r.params@) == request_params(*command),
{
    request_for(command, new_uuid())
}

/// The commands of `gst-popctl`, as its command line names them.
#[derive(Debug, Clone, Copy, PartialEq, Eq, Structural)]
pub enum ClientCommandKind {
    List,
    Create,
    Update,
    Remove,
    Info,
    Play,
    Pause,
    Stop,
    State,
    Snapshot,
    Position,
    Version,
    Sysinfo,
    Count,
    Elements,
    Discover,
    PlayUri,
}

/// Which command a parsed command is.
pub open spec fn command_kind(c: ClientCommand) -> ClientCommandKind {
    match c {
        ClientCommand::List => ClientCommandKind::List,
        ClientCommand::Create { .. } => ClientCommandKind::Create,
        ClientCommand::Update { .. } => ClientCommandKind::Update,
        ClientCommand::Remove { .. } => ClientCommandKind::Remove,
        ClientCommand::Info { .. } => ClientCommandKind::Info,
        ClientCommand::Play { .. } => ClientCommandKind::Play,
        ClientCommand::Pause { .. } => ClientCommandKind::Pause,
        ClientCommand::Stop { .. } => ClientCommandKind::Stop,
        ClientCommand::State { .. } => ClientCommandKind::State,
        ClientCommand::Snapshot { .. } => ClientCommandKind::Snapshot,
        ClientCommand::Position { .. } => ClientCommandKind::Position,
        ClientCommand::Version => ClientCommandKind::Version,
        ClientCommand::Sysinfo => ClientCommandKind::Sysinfo,
        ClientCommand::Count => ClientCommandKind::Count,
        ClientCommand::Elements { .. } => ClientCommandKind::Elements,
        ClientCommand::Discover { .. } => ClientCommandKind::Discover,
        ClientCommand::PlayUri { .. } => ClientCommandKind::PlayUri,
    }
}

/// Each command calls its own daemon method: different commands call different methods,
/// a method that is itself a command word is the word of the command that calls it, and
/// `play`, `pause`, `stop` and `snapshot` call the methods named after them.
pub proof fn lemma_request_methods_name_their_commands(c: ClientCommand, d: ClientCommand)
    ensures
        command_kind(c) != command_kind(d) ==> request_method(c) != request_method(d),
        ctl_command_named(request_method(c)) matches Some(k) ==> k == command_kind(c),
        (command_kind(c) == ClientCommandKind::Play || command_kind(c) == ClientCommandKind::Pause
            || command_kind(c) == ClientCommandKind::Stop || command_kind(c) == ClientCommandKind::Snapshot)
            ==> ctl_command_named(request_method(c)) == Some(command_kind(c)),
{
    reveal_strlit("list_pipelines");
    reveal_strlit("create_pipeline");
    reveal_strlit("update_pipeline");
    reveal_strlit("remove_pipeline");
    reveal_strlit("get_pipeline_info");
    reveal_strlit("play");
    reveal_strlit("pause");
    reveal_strlit("stop");
    reveal_strlit("set_state");
    reveal_strlit("snapshot");
    reveal_strlit("get_position");
    reveal_strlit("get_version");
    reveal_strlit("get_info");
    reveal_strlit("get_pipeline_count");
    reveal_strlit("get_elements");
    reveal_strlit("discover_uri");
    reveal_strlit("play_uri");
    reveal_strlit("list");
    reveal_strlit("create");
    reveal_strlit("update");
    reveal_strlit("remove");
    reveal_strlit("info");
    reveal_strlit("state");
    reveal_strlit("position");
    reveal_strlit("version");
    reveal_strlit("sysinfo");
    reveal_strlit("count");
    reveal_strlit("elements");
    reveal_strlit("discover");
    reveal_strlit("play-uri");
    let m = request_method(c);
    let n = request_method(d);
    assert(command_kind(c) != command_kind(d) ==> m.len() != n.len() || m[0] != n[0] || m[4] != n[4]);
    assert(m == "list"@ || m.len() != "list"@.len() || m[0] != "list"@[0] || m[1] != "list"@[1] || m[4] != "list"@[4]);
    assert(m == "create"@ || m.len() != "create"@.len() || m[0] != "create"@[0] || m[1] != "create"@[1] || m[4] != "create"@[4]);
    assert(m == "update"@ || m.len() != "update"@.len() || m[0] != "update"@[0] || m[1] != "update"@[1] || m[4] != "update"@[4]);
    assert(m == "remove"@ || m.len() != "remove"@.len() || m[0] != "remove"@[0] || m[1] != "remove"@[1] || m[4] != "remove"@[4]);
    assert(m == "info"@ || m.len() != "info"@.len() || m[0] != "info"@[0] || m[1] != "info"@[1] || m[4] != "info"@[4]);
    assert(m == "play"@ || m.len() != "play"@.len() || m[0] != "play"@[0] || m[1] != "play"@[1] || m[4] != "play"@[4]);
    assert(m == "pause"@ || m.len() != "pause"@.len() || m[0] != "pause"@[0] || m[1] != "pause"@[1] || m[4] != "pause"@[4]);
    assert(m == "stop"@ || m.len() != "stop"@.len() || m[0] != "stop"@[0] || m[1] != "stop"@[1] || m[4] != "stop"@[4]);
    assert(m == "state"@ || m.len() != "state"@.len() || m[0] != "state"@[0] || m[1] != "state"@[1] || m[4] != "state"@[4]);
    assert(m == "snapshot"@ || m.len() != "snapshot"@.len() || m[0] != "snapshot"@[0] || m[1] != "snapshot"@[1] || m[4] != "snapshot"@[4]);
    assert(m == "position"@ || m.len() != "position"@.len() || m[0] != "position"@[0] || m[1] != "position"@[1] || m[4] != "position"@[4]);
    assert(m == "version"@ || m.len() != "version"@.len() || m[0] != "version"@[0] || m[1] != "version"@[1] || m[4] != "version"@[4]);
    assert(m == "sysinfo"@ || m.len() != "sysinfo"@.len() || m[0] != "sysinfo"@[0] || m[1] != "sysinfo"@[1] || m[4] != "sysinfo"@[4]);
    assert(m == "count"@ || m.len() != "count"@.len() || m[0] != "count"@[0] || m[1] != "count"@[1] || m[4] != "count"@[4]);
    assert(m == "elements"@ || m.len() != "elements"@.len() || m[0] != "elements"@[0] || m[1] != "elements"@[1] || m[4] != "elements"@[4]);
    assert(m == "discover"@ || m.len() != "discover"@.len() || m[0] != "discover"@[0] || m[1] != "discover"@[1] || m[4] != "discover"@[4]);
    assert(m == "play-uri"@ || m.len() != "play-uri"@.len() || m[0] != "play-uri"@[0] || m[1] != "play-uri"@[1] || m[4] != "play-uri"@[4]);
}

/// A command word as it appears inside a daemon method name (`-` written as `_`).
pub open spec fn method_word(w: Seq<char>) -> Seq<char> {
    w.map_values(|ch: char| if ch == '-' { '_' } else { ch })
}

/// The daemon method a command calls is named after the command: the word that selects
/// the command on the command line occurs in its method's name (`sysinfo` aside, which
/// calls `get_info`).
pub proof fn lemma_request_method_holds_command_word(w: Seq<char>, c: ClientCommand)
    requires
        ctl_command_named(w) == Some(command_kind(c)),
        command_kind(c) != ClientCommandKind::Sysinfo,
    ensures
        contains_sub(request_method(c), method_word(w)),
{
    reveal_strlit("count");
    reveal_strlit("create");
    reveal_strlit("create_pipeline");
    reveal_strlit("discover");
    reveal_strlit("discover_uri");
    reveal_strlit("elements");
    reveal_strlit("get_elements");
    reveal_strlit("get_pipeline_count");
    reveal_strlit("get_pipeline_info");
    reveal_strlit("get_position");
    reveal_strlit("get_version");
    reveal_strlit("info");
    reveal_strlit("list");
    reveal_strlit("list_pipelines");
    reveal_strlit("pause");
    reveal_strlit("play");
    reveal_strlit("play-uri");
    reveal_strlit("play_uri");
    reveal_strlit("position");
    reveal_strlit("remove");
    reveal_strlit("remove_pipeline");
    reveal_strlit("set_state");
    reveal_strlit("snapshot");
    reveal_strlit("state");
    reveal_strlit("stop");
    reveal_strlit("update");
    reveal_strlit("update_pipeline");
    reveal_strlit("version");
    reveal_strlit("sysinfo");
    reveal_strlit("version");
    match command_kind(c) {
        ClientCommandKind::List => {
            assert(w == "list"@);
            assert(method_word(w) =~= "list"@);
            assert(request_method(c).subrange(0, 4) =~= "list"@);
            assert(occurs_at(request_method(c), method_word(w), 0));
        },
        ClientCommandKind::Create => {
            assert(w == "create"@);
            assert(method_word(w) =~= "create"@);
            assert(request_method(c).subrange(0, 6) =~= "create"@);
            assert(occurs_at(request_method(c), method_word(w), 0));
        },
        ClientCommandKind::Update => {
            assert(w == "update"@);
            assert(method_word(w) =~= "update"@);
            assert(request_method(c).subrange(0, 6) =~= "update"@);
            assert(occurs_at(request_method(c), method_word(w), 0));
        },
        ClientCommandKind::Remove => {
            assert(w == "remove"@);
            assert(method_word(w) =~= "remove"@);
            assert(request_method(c).subrange(0, 6) =~= "remove"@);
            assert(occurs_at(request_method(c), method_word(w), 0));
        },
        ClientCommandKind::Info => {
            assert(w == "info"@);
            assert(method_word(w) =~= "info"@);
            assert(request_method(c).subrange(13, 17) =~= "info"@);
            assert(occurs_at(request_method(c), method_word(w), 13));
        },
        ClientCommandKind::Play => {
            assert(w == "play"@);
            assert(method_word(w) =~= "play"@);
            assert(request_method(c).subrange(0, 4) =~= "play"@);
            assert(occurs_at(request_method(c), method_word(w), 0));
        },
        ClientCommandKind::Pause => {
            assert(w == "pause"@);
            assert(method_word(w) =~= "pause"@);
            assert(request_method(c).subrange(0, 5) =~= "pause"@);
            assert(occurs_at(request_method(c), method_word(w), 0));
        },
        ClientCommandKind::Stop => {
            assert(w == "stop"@);
            assert(method_word(w) =~= "stop"@);
            assert(request_method(c).subrange(0, 4) =~= "stop"@);
            assert(occurs_at(request_method(c), method_word(w), 0));
        },
        ClientCommandKind::State => {
            assert(w == "state"@);
            assert(method_word(w) =~= "state"@);
            assert(request_method(c).subrange(4, 9) =~= "state"@);
            assert(occurs_at(request_method(c), method_word(w), 4));
        },
        ClientCommandKind::Snapshot => {
            assert(w == "snapshot"@);
            assert(method_word(w) =~= "snapshot"@);
            assert(request_method(c).subrange(0, 8) =~= "snapshot"@);
            assert(occurs_at(request_method(c), method_word(w), 0));
        },
        ClientCommandKind::Position => {
            assert(w == "position"@);
            assert(method_word(w) =~= "position"@);
            assert(request_method(c).subrange(4, 12) =~= "position"@);
            assert(occurs_at(request_method(c), method_word(w), 4));
        },
        ClientCommandKind::Version => {
            assert(w == "version"@);
            assert(method_word(w) =~= "version"@);
            assert(request_method(c).subrange(4, 11) =~= "version"@);
            assert(occurs_at(request_method(c), method_word(w), 4));
        },
        ClientCommandKind::Count => {
            assert(w == "count"@);
            assert(method_word(w) =~= "count"@);
            assert(request_method(c).subrange(13, 18) =~= "count"@);
            assert(occurs_at(request_method(c), method_word(w), 13));
        },
        ClientCommandKind::Elements => {
            assert(w == "elements"@);
            assert(method_word(w) =~= "elements"@);
            assert(request_method(c).subrange(4, 12) =~= "elements"@);
            assert(occurs_at(request_method(c), method_word(w), 4));
        },
        ClientCommandKind::Discover => {
            assert(w == "discover"@);
            assert(method_word(w) =~= "discover"@);
            assert(request_method(c).subrange(0, 8) =~= "discover"@);
            assert(occurs_at(request_method(c), method_word(w), 0));
        },
        ClientCommandKind::PlayUri => {
            assert(w == "play-uri"@);
            assert(method_word(w) =~= "play_uri"@);
            assert(request_method(c).subrange(0, 8) =~= "play_uri"@);
            assert(occurs_at(request_method(c), method_word(w), 0));
        },
        ClientCommandKind::Sysinfo => {},
    }
}

/// The command a word names.
pub open spec fn ctl_command_named(w: Seq<char>) -> Option<ClientCommandKind> {
    if w == "list"@ {
        Some(ClientCommandKind::List)
    } else if w == "create"@ {
        Some(ClientCommandKind::Create)
    } else if w == "update"@ {
        Some(ClientCommandKind::Update)
    } else if w == "remove"@ {
        Some(ClientCommandKind::Remove)
    } else if w == "info"@ {
        Some(ClientCommandKind::Info)
    } else if w == "play"@ {
        Some(ClientCommandKind::Play)
    } else if w == "pause"@ {
        Some(ClientCommandKind::Pause)
    } else if w == "stop"@ {
        Some(ClientCommandKind::Stop)
    } else if w == "state"@ {
        Some(ClientCommandKind::State)
    } else if w == "snapshot"@ {
        Some(ClientCommandKind::Snapshot)
    } else if w == "position"@ {
        Some(ClientCommandKind::Position)
    } else if w == "version"@ {
        Some(ClientCommandKind::Version)
    } else if w == "sysinfo"@ {
        Some(ClientCommandKind::Sysinfo)
    } else if w == "count"@ {
        Some(ClientCommandKind::Count)
    } else if w == "elements"@ {
        Some(ClientCommandKind::Elements)
    } else if w == "discover"@ {
        Some(ClientCommandKind::Discover)
    } else if w == "play-uri"@ {
        Some(ClientCommandKind::PlayUri)
    } else {
        None
    }
}

fn ctl_command_named_exec(w: &str) -> (r: Option<ClientCommandKind>)
    ensures
        r == ctl_command_named(w@),
{
    if str_eq(w, "list") {
        Some(ClientCommandKind::List)
    } else if str_eq(w, "create") {
        Some(ClientCommandKind::Create)
    } else if str_eq(w, "update") {
        Some(ClientCommandKind::Update)
    } else if str_eq(w, "remove") {
        Some(ClientCommandKind::Remove)
    } else if str_eq(w, "info") {
        Some(ClientCommandKind::Info)
    } else if str_eq(w, "play") {
        Some(ClientCommandKind::Play)
    } else if str_eq(w, "pause") {
        Some(ClientCommandKind::Pause)
    } else if str_eq(w, "stop") {
        Some(ClientCommandKind::Stop)
    } else if str_eq(w, "state") {
        Some(ClientCommandKind::State)
    } else if str_eq(w, "snapshot") {
        Some(ClientCommandKind::Snapshot)
    } else if str_eq(w, "position") {
        Some(ClientCommandKind::Position)
    } else if str_eq(w, "version") {
        Some(ClientCommandKind::Version)
    } else if str_eq(w, "sysinfo") {
        Some(ClientCommandKind::Sysinfo)
    } else if str_eq(w, "count") {
        Some(ClientCommandKind::Count)
    } else if str_eq(w, "elements") {
        Some(ClientCommandKind::Elements)
    } else if str_eq(w, "discover") {
        Some(ClientCommandKind::Discover)
    } else if str_eq(w, "play-uri") {
        Some(ClientCommandKind::PlayUri)
    } else {
        None
    }
}

/// The long options of a command; `--url` belongs to every one.
pub open spec fn ctl_long(k: ClientCommandKind, name: Seq<char>) -> Option<OptSpec> {
    if name == "url"@ {
        Some(value_opt(OPT_URL))
    } else {
        match k {
            ClientCommandKind::Snapshot => if name == "details"@ { Some(value_opt(OPT_DETAILS)) } else { None },
            ClientCommandKind::Elements => if name == "detail"@ { Some(value_opt(OPT_DETAIL)) } else { None },
            ClientCommandKind::Discover => if name == "timeout"@ { Some(value_opt(OPT_TIMEOUT)) } else { None },
            ClientCommandKind::PlayUri => if name == "playbin2"@ { Some(flag_opt(OPT_PLAYBIN2)) } else { None },
            _ => None,
        }
    }
}

/// The long options of a command.
pub fn lookup_ctl_long(k: ClientCommandKind, name: &str) -> (r: Option<OptSpec>)
    ensures
        r == ctl_long(k, name@),
{
    if str_eq(name, "url") {
        return Some(OptSpec { id: OPT_URL, takes_value: true, multiple: false });
    }
    match k {
        ClientCommandKind::Snapshot => if str_eq(name, "details") {
            Some(OptSpec { id: OPT_DETAILS, takes_value: true, multiple: false })
        } else {
            None
        },
        ClientCommandKind::Elements => if str_eq(name, "detail") {
            Some(OptSpec { id: OPT_DETAIL, takes_value: true, multiple: false })
        } else {
            None
        },
        ClientCommandKind::Discover => if str_eq(name, "timeout") {
            Some(OptSpec { id: OPT_TIMEOUT, takes_value: true, multiple: false })
        } else {
            None
        },
        ClientCommandKind::PlayUri => if str_eq(name, "playbin2") {
            Some(OptSpec { id: OPT_PLAYBIN2, takes_value: false, multiple: false })
        } else {
            None
        },
        _ => None,
    }
}

/// The names of a command's required positional arguments, in order.
pub open spec fn ctl_positional_names(k: ClientCommandKind) -> Seq<Seq<char>> {
    match k {
        ClientCommandKind::Create => seq!["<DESCRIPTION>"@],
        ClientCommandKind::Update => seq!["<ID>"@, "<DESCRIPTION>"@],
        ClientCommandKind::Remove | ClientCommandKind::Info | ClientCommandKind::Snapshot => seq!["<ID>"@],
        ClientCommandKind::State => seq!["<ID>"@, "<STATE>"@],
        ClientCommandKind::Discover | ClientCommandKind::PlayUri => seq!["<URI>"@],
        _ => seq![],
    }
}

/// How many optional positional arguments a command takes (a pipeline id).
pub open spec fn ctl_optional_positionals(k: ClientCommandKind) -> nat {
    match k {
        ClientCommandKind::Play | ClientCommandKind::Pause | ClientCommandKind::Stop | ClientCommandKind::Position => 1,
        _ => 0,
    }
}

/// How many positional arguments a command takes.
pub fn ctl_positional_count(k: ClientCommandKind) -> (r: usize)
    ensures
        r == ctl_positional_names(k).len() + ctl_optional_positionals(k),
{
    match k {
        ClientCommandKind::Create => 1,
        ClientCommandKind::Update => 2,
        ClientCommandKind::Remove | ClientCommandKind::Info | ClientCommandKind::Snapshot => 1,
        ClientCommandKind::State => 2,
        ClientCommandKind::Discover | ClientCommandKind::PlayUri => 1,
        ClientCommandKind::Play | ClientCommandKind::Pause | ClientCommandKind::Stop | ClientCommandKind::Position => 1,
        _ => 0,
    }
}

fn ctl_positional_name(k: ClientCommandKind, i: usize) -> (r: String)
    requires
        i < ctl_positional_names(k).len(),
    ensures
        r@ == ctl_positional_names(k)[i as int],
{
    match k {
        ClientCommandKind::Update => if i == 0 { string_from("<ID>") } else { string_from("<DESCRIPTION>") },
        ClientCommandKind::State => if i == 0 { string_from("<ID>") } else { string_from("<STATE>") },
        ClientCommandKind::Create => string_from("<DESCRIPTION>"),
        ClientCommandKind::Discover | ClientCommandKind::PlayUri => string_from("<URI>"),
        _ => string_from("<ID>"),
    }
}

/// The default daemon URL.
pub const DEFAULT_DAEMON_URL: &'static str = "ws://127.0.0.1:9000";

/// A parsed `gst-popctl` command line.
#[derive(Debug, Clone)]
pub struct CtlCli {
    /// WebSocket URL of the daemon (`--url`, before or after the command).
    pub url: String,
    pub command: ClientCommand,
}

/// The arguments after the program name.
pub open spec fn ctl_rest(args: Seq<Seq<char>>) -> Seq<Seq<char>> {
    if args.len() > 0 { args.skip(1) } else { args }
}

/// The scan of the arguments before the command (the command and what follows it are its
/// positional arguments).
pub open spec fn ctl_top(args: Seq<Seq<char>>) -> ScanView {
    scanned(Grammar::CtlTop, ctl_rest(args))
}

/// The scan of a command's own arguments.
pub open spec fn ctl_sub(k: ClientCommandKind, top: ScanView) -> ScanView {
    scanned(Grammar::Ctl(k), top.positionals.skip(1))
}

/// Why a `gst-popctl` command line is refused, if it is.
pub open spec fn ctl_error(args: Seq<Seq<char>>) -> Option<CliErrorView> {
    let top = ctl_top(args);
    if top.error is Some {
        top.error
    } else if top.positionals.len() == 0 {
        Some(CliErrorView::MissingArgument("<COMMAND>"@))
    } else {
        match ctl_command_named(top.positionals[0]) {
            None => Some(CliErrorView::UnknownArgument(top.positionals[0])),
            Some(k) => {
                let s = ctl_sub(k, top);
                if s.error is Some {
                    s.error
                } else if s.positionals.len() < ctl_positional_names(k).len() {
                    Some(CliErrorView::MissingArgument(ctl_positional_names(k)[s.positionals.len() as int]))
                } else {
                    None
                }
            },
        }
    }
}

/// The daemon URL: given after the command, else before it, else the default.
pub open spec fn ctl_url(top: ScanView, s: ScanView) -> Seq<char> {
    match first_value(s.values, OPT_URL) {
        Some(u) => u,
        None => value_or(top, OPT_URL, DEFAULT_DAEMON_URL@),
    }
}

/// `c` is the command a scan of command `k` found.
pub open spec fn ctl_command_matches(c: ClientCommand, k: ClientCommandKind, s: ScanView) -> bool {
    match c {
        ClientCommand::List => k is List,
        ClientCommand::Version => k is Version,
        ClientCommand::Sysinfo => k is Sysinfo,
        ClientCommand::Count => k is Count,
        ClientCommand::Create { description } => k is Create && description@ == s.positionals[0],
        ClientCommand::Update { id, description } => k is Update && id@ == s.positionals[0]
            && description@ == s.positionals[1],
        ClientCommand::Remove { id } => k is Remove && id@ == s.positionals[0],
        ClientCommand::Info { id } => k is Info && id@ == s.positionals[0],
        ClientCommand::Play { id } => k is Play && opt_view(id) == first_positional(s),
        ClientCommand::Pause { id } => k is Pause && opt_view(id) == first_positional(s),
        ClientCommand::Stop { id } => k is Stop && opt_view(id) == first_positional(s),
        ClientCommand::Position { id } => k is Position && opt_view(id) == first_positional(s),
        ClientCommand::State { id, state } => k is State && id@ == s.positionals[0] && state@ == s.positionals[1],
        ClientCommand::Snapshot { id, details } => k is Snapshot && id@ == s.positionals[0]
            && opt_view(details) == first_value(s.values, OPT_DETAILS),
        ClientCommand::Elements { detail } => k is Elements && detail@ == value_or(s, OPT_DETAIL, "none"@),
        ClientCommand::Discover { uri, timeout } => k is Discover && uri@ == s.positionals[0]
            && match first_value(s.values, OPT_TIMEOUT) {
                Some(v) => timeout matches Some(t) && parse_bounded(v, 0xFFFF_FFFF) == Some(t as nat),
                None => timeout is None,
            },
        ClientCommand::PlayUri { uri, playbin2 } => k is PlayUri && uri@ == s.positionals[0]
            && playbin2 == s.flags.contains(OPT_PLAYBIN2),
    }
}

/// `cli` holds what a `gst-popctl` command line says.
pub open spec fn ctl_matches(cli: CtlCli, args: Seq<Seq<char>>) -> bool {
    let top = ctl_top(args);
    &&& top.positionals.len() > 0
    &&& ctl_command_named(top.positionals[0]) matches Some(k) && {
        let s = ctl_sub(k, top);
        &&& cli.url@ == ctl_url(top, s)
        &&& ctl_command_matches(cli.command, k, s)
    }
}

fn opt_positional(st: &ScanState) -> (r: Option<String>)
    ensures
        opt_view(r) == first_positional(st@),
{
    if st.positionals.len() > 0 { Some(st.positionals[0].clone()) } else { None }
}

fn ctl_command_from(k: ClientCommandKind, st: &ScanState) -> (r: ClientCommand)
    requires
        st@.error is None,
        st@.positionals.len() >= ctl_positional_names(k).len(),
        values_accepted(st@.values),
    ensures
        ctl_command_matches(r, k, st@),
{
    match k {
        ClientCommandKind::List => ClientCommand::List,
        ClientCommandKind::Version => ClientCommand::Version,
        ClientCommandKind::Sysinfo => ClientCommand::Sysinfo,
        ClientCommandKind::Count => ClientCommand::Count,
        ClientCommandKind::Create => ClientCommand::Create { description: st.positionals[0].clone() },
        ClientCommandKind::Update => ClientCommand::Update {
            id: st.positionals[0].clone(),
            description: st.positionals[1].clone(),
        },
        ClientCommandKind::Remove => ClientCommand::Remove { id: st.positionals[0].clone() },
        ClientCommandKind::Info => ClientCommand::Info { id: st.positionals[0].clone() },
        ClientCommandKind::Play => ClientCommand::Play { id: opt_positional(st) },
        ClientCommandKind::Pause => ClientCommand::Pause { id: opt_positional(st) },
        ClientCommandKind::Stop => ClientCommand::Stop { id: opt_positional(st) },
        ClientCommandKind::Position => ClientCommand::Position { id: opt_positional(st) },
        ClientCommandKind::State => ClientCommand::State {
            id: st.positionals[0].clone(),
            state: st.positionals[1].clone(),
        },
        ClientCommandKind::Snapshot => ClientCommand::Snapshot {
            id: st.positionals[0].clone(),
            details: first_value_exec(&st.values, OPT_DETAILS),
        },
        ClientCommandKind::Elements => ClientCommand::Elements {
            detail: match first_value_exec(&st.values, OPT_DETAIL) {
                Some(v) => v,
                None => string_from("none"),
            },
        },
        ClientCommandKind::Discover => {
            proof {
                lemma_first_value_in(st@.values, OPT_TIMEOUT);
            }
            let timeout = match first_value_exec(&st.values, OPT_TIMEOUT) {
                Some(v) => {
                    proof {
                        let kk = choose|k: int| 0 <= k < st@.values.len() && #[trigger] st@.values[k] == (OPT_TIMEOUT, v@);
                        assert(value_ok(st@.values[kk].0, st@.values[kk].1));
                    }
                    match parse_number(v.as_str(), 0xFFFF_FFFF) {
                        Some(n) => Some(n as u32),
                        None => None,
                    }
                },
                None => None,
            };
            ClientCommand::Discover { uri: st.positionals[0].clone(), timeout }
        },
        ClientCommandKind::PlayUri => ClientCommand::PlayUri {
            uri: st.positionals[0].clone(),
            playbin2: has_flag_exec(&st.flags, OPT_PLAYBIN2),
        },
    }
}

/// Parses a `gst-popctl` command line, program name first.
pub fn parse_ctl_args(args: &Vec<String>) -> (r: Result<CtlCli, CliError>)
    ensures
        match r {
            Ok(cli) => ctl_error(strings_view(args@)) is None && ctl_matches(cli, strings_view(args@)),
            Err(e) => ctl_error(strings_view(args@)) == Some(e@),
        },
{
    let from: usize = if args.len() > 0 { 1 } else { 0 };
    proof {
        assert(strings_view(args@).skip(from as int) == ctl_rest(strings_view(args@)));
    }
    let top = scan_tokens(Grammar::CtlTop, args, from);
    match &top.error {
        Some(e) => {
            return Err(e.copy());
        },
        None => {},
    }
    if top.positionals.len() == 0 {
        return Err(CliError::MissingArgument(string_from("<COMMAND>")));
    }
    let k = match ctl_command_named_exec(top.positionals[0].as_str()) {
        Some(k) => k,
        None => {
            return Err(CliError::UnknownArgument(top.positionals[0].clone()));
        },
    };
    let st = scan_tokens(Grammar::Ctl(k), &top.positionals, 1);
    proof {
        lemma_scan_values_accepted(Grammar::Ctl(k), strings_view(top.positionals@).skip(1));
    }
    match &st.error {
        Some(e) => {
            return Err(e.copy());
        },
        None => {},
    }
    if st.positionals.len() < ctl_positional_count(k) - if ctl_optional_count(k) { 1 } else { 0 } {
        return Err(CliError::MissingArgument(ctl_positional_name(k, st.positionals.len())));
    }
    let url = match first_value_exec(&st.values, OPT_URL) {
        Some(u) => u,
        None => match first_value_exec(&top.values, OPT_URL) {
            Some(u) => u,
            None => string_from(DEFAULT_DAEMON_URL),
        },
    };
    Ok(CtlCli { url, command: ctl_command_from(k, &st) })
}

fn ctl_optional_count(k: ClientCommandKind) -> (r: bool)
    ensures
        r == (ctl_optional_positionals(k) == 1),
{
    match k {
        ClientCommandKind::Play | ClientCommandKind::Pause | ClientCommandKind::Stop | ClientCommandKind::Position => true,
        _ => false,
    }
}

} // verus!

//! What the subcommands decide before and after their outside work: the server
//! configuration, which interfaces may start, which pipelines `launch` runs and with what exit
//! code it ends, what `inspect` lists, and how a `gst-pop-<subcommand>` program name is read.

use vstd::prelude::*;
use vstd::string::*;
use crate::cli::{join_words, join_words_exec, Cli, Commands, DaemonArgs, InspectArgs, LaunchArgs, ServerArgs};
use crate::paths::{file_name, file_name_of};
use crate::registry::DetailLevel;
use crate::text::{chars_of, has_prefix, opt_view, str_eq, str_starts_with, string_from, string_of_chars, strings_view};
use crate::websocket::{DEFAULT_BIND_ADDRESS, DEFAULT_WEBSOCKET_PORT};

verus! {

/// What the WebSocket and DBus servers are started with.
#[derive(Debug, Clone)]
pub struct ServerConfig {
    pub bind: String,
    pub port: u16,
    pub no_websocket: bool,
    pub no_dbus: bool,
    pub api_key: Option<String>,
    pub allowed_origins: Vec<String>,
}

impl ServerArgs {
    /// The server configuration the options give. Where the platform has no DBus
    /// (`dbus_available` false: every target but Linux), the DBus interface is always off.
    pub fn into_config(self, dbus_available: bool) -> (c: ServerConfig)
        ensures
            c.bind == self.bind,
            c.port == self.port,
            c.no_websocket == self.no_websocket,
            c.no_dbus == (self.no_dbus || !dbus_available),
            c.api_key == self.api_key,
            c.allowed_origins == self.allowed_origins,
    {
        ServerConfig {
            bind: self.bind,
            port: self.port,
            no_websocket: self.no_websocket,
            no_dbus: self.no_dbus || !dbus_available,
            api_key: self.api_key,
            allowed_origins: self.allowed_origins,
        }
    }
}

impl Default for ServerArgs {
    /// Port 9000 on 127.0.0.1, both interfaces, no API key, no origin restriction.
    fn default() -> (r: Self)
        ensures
            r.port == DEFAULT_WEBSOCKET_PORT,
            r.bind@ == DEFAULT_BIND_ADDRESS@,
            !r.no_dbus,
            !r.no_websocket,
            r.api_key is None,
            r.allowed_origins@.len() == 0,
    {
        ServerArgs {
            port: DEFAULT_WEBSOCKET_PORT,
            bind: string_from(DEFAULT_BIND_ADDRESS),
            no_dbus: false,
            no_websocket: false,
            api_key: None,
            allowed_origins: Vec::new(),
        }
    }
}

impl Default for DaemonArgs {
    /// The daemon without initial pipelines and with the default server options.
    fn default() -> (r: Self)
        ensures
            r.pipelines@.len() == 0,
            r.server.port == DEFAULT_WEBSOCKET_PORT,
            r.server.bind@ == DEFAULT_BIND_ADDRESS@,
            !r.server.no_dbus,
            !r.server.no_websocket,
            r.server.api_key is None,
            r.server.allowed_origins@.len() == 0,
    {
        DaemonArgs { pipelines: Vec::new(), server: ServerArgs::default() }
    }
}

/// The daemon needs at least one interface. Where the platform has DBus, one of DBus and
/// WebSocket must be on; elsewhere WebSocket is the only interface and must be on.
pub fn check_interfaces(config: &ServerConfig, dbus_available: bool) -> (r: Result<(), String>)
    ensures
        dbus_available ==> (r is Err <==> (config.no_dbus && config.no_websocket)),
        dbus_available && r is Err ==> r->Err_0@ == "At least one interface (DBus or WebSocket) must be enabled"@,
        !dbus_available ==> (r is Err <==> config.no_websocket),
        !dbus_available && r is Err ==> r->Err_0@ == "WebSocket is the only available interface on this platform"@,
{
    if dbus_available {
        if config.no_dbus && config.no_websocket {
            Err(string_from("At least one interface (DBus or WebSocket) must be enabled"))
        } else {
            Ok(())
        }
    } else if config.no_websocket {
        Err(string_from("WebSocket is the only available interface on this platform"))
    } else {
        Ok(())
    }
}

/// The pipelines `launch` runs: the positional description first, then those given with
/// `--pipeline`, in order.
pub open spec fn launch_pipelines(positional: Option<Seq<char>>, pipelines: Seq<Seq<char>>) -> Seq<Seq<char>> {
    match positional {
        Some(p) => seq![p] + pipelines,
        None => pipelines,
    }
}

/// The pipeline descriptions `launch` runs; refused when there is none.
pub fn launch_descriptions(args: &LaunchArgs) -> (r: Result<Vec<String>, String>)
    ensures
        match r {
            Ok(all) => strings_view(all@) == launch_pipelines(opt_view(args.pipeline), strings_view(args.pipelines@))
                && all@.len() > 0,
            Err(m) => launch_pipelines(opt_view(args.pipeline), strings_view(args.pipelines@)).len() == 0
                && m@ == "No pipeline description provided"@,
        },
{
    let mut all: Vec<String> = Vec::new();
    let ghost expected = launch_pipelines(opt_view(args.pipeline), strings_view(args.pipelines@));
    let ghost first: Seq<Seq<char>> = match opt_view(args.pipeline) {
        Some(p) => seq![p],
        None => Seq::empty(),
    };
    match &args.pipeline {
        Some(p) => {
            all.push(p.clone());
        },
        None => {},
    }
    proof {
        assert(strings_view(all@) =~= first);
        assert(expected =~= first + strings_view(args.pipelines@));
    }
    let mut i: usize = 0;
    while i < args.pipelines.len()
        invariant
            i <= args.pipelines@.len(),
            expected =~= first + strings_view(args.pipelines@),
            strings_view(all@) =~= first + strings_view(args.pipelines@).take(i as int),
        decreases args.pipelines@.len() - i,
    {
        let ghost before = all@;
        all.push(args.pipelines[i].clone());
        proof {
            assert(strings_view(all@) =~= strings_view(before).push(args.pipelines@[i as int]@));
            assert(strings_view(args.pipelines@).take(i + 1) =~= strings_view(args.pipelines@).take(i as int).push(args.pipelines@[i as int]@));
        }
        i = i + 1;
    }
    proof {
        assert(strings_view(args.pipelines@).take(i as int) =~= strings_view(args.pipelines@));
    }
    if all.len() == 0 {
        return Err(string_from("No pipeline description provided"));
    }
    Ok(all)
}

/// The exit code of `launch`: that of the playback, except that a pipeline that could not be
/// created turns a success into a failure.
pub fn launch_exit_code(playback_code: i32, creation_failures: usize) -> (r: i32)
    ensures
        r == (if playback_code == 0 && creation_failures > 0 { 1 } else { playback_code }),
{
    if playback_code == 0 && creation_failures > 0 { 1 } else { playback_code }
}

/// What `inspect` shows.
#[derive(Debug, Clone, PartialEq, Eq)]
pub enum InspectTarget {
    /// One element, at the given detail.
    Element { name: String, detail: DetailLevel },
    /// Every element, at the given detail.
    List { detail: DetailLevel },
}

/// How `inspect` answers.
#[derive(Debug, Clone)]
pub struct InspectPlan {
    /// JSON output; text otherwise.
    pub use_json: bool,
    pub target: InspectTarget,
}

/// The message for an output format that is neither `text` nor `json`.
pub open spec fn invalid_format_message(f: Seq<char>) -> Seq<char> {
    "Invalid format: '"@ + f + "'. Expected 'text' or 'json'"@
}

/// The message for an unknown detail level.
pub open spec fn invalid_detail_message(d: Seq<char>) -> Seq<char> {
    "Invalid detail level: '"@ + d + "'. Expected 'none', 'summary', or 'full'"@
}

/// What `inspect` does with its arguments. Text output of one element is always at full
/// detail (as `gst-inspect-1.0` prints it); a text listing is at least at summary detail.
pub fn plan_inspect(args: &InspectArgs) -> (r: Result<InspectPlan, String>)
    ensures
        match r {
            Ok(plan) => {
                &&& exists|d: DetailLevel| #[trigger] d.name() == args.detail@ && {
                    let json = args.format@ == "json"@;
                    &&& plan.use_json == json
                    &&& (json || args.format@ == "text"@)
                    &&& match args.element {
                        Some(name) => plan.target matches InspectTarget::Element { name: n, detail }
                            && n@ == name@
                            && detail == (if json { d } else { DetailLevel::Full }),
                        None => plan.target matches InspectTarget::List { detail }
                            && detail == (if json || d.rank() >= 1 { d } else { DetailLevel::Summary }),
                    }
                }
            },
            Err(m) => if forall|d: DetailLevel| #[trigger] d.name() != args.detail@ {
                m@ == invalid_detail_message(args.detail@)
            } else {
                args.format@ != "json"@ && args.format@ != "text"@ && m@ == invalid_format_message(args.format@)
            },
        },
{
    let detail = match DetailLevel::parse(args.detail.as_str()) {
        Ok(d) => d,
        Err(e) => {
            return Err(e);
        },
    };
    let use_json = if str_eq(args.format.as_str(), "json") {
        true
    } else if str_eq(args.format.as_str(), "text") {
        false
    } else {
        let mut m = string_from("Invalid format: '");
        m.append(args.format.as_str());
        m.append("'. Expected 'text' or 'json'");
        return Err(m);
    };
    let target = match &args.element {
        Some(name) => InspectTarget::Element {
            name: name.clone(),
            detail: if use_json { detail } else { DetailLevel::Full },
        },
        None => InspectTarget::List {
            detail: if use_json { detail } else { detail.max_level(DetailLevel::Summary) },
        },
    };
    proof {
        assert(detail.name() == args.detail@);
    }
    Ok(InspectPlan { use_json, target })
}

/// The command line as `gst-pop` reads it when started under another name: `gst-popd` is
/// `gst-pop daemon`, and `gst-pop-<subcommand>` is `gst-pop <subcommand>`.
pub open spec fn argv_for_program(args: Seq<Seq<char>>) -> Seq<Seq<char>> {
    if args.len() == 0 {
        args
    } else {
        let name = match file_name(args[0]) {
            Some(n) => n,
            None => Seq::empty(),
        };
        if name == "gst-popd"@ {
            seq!["gst-pop"@, "daemon"@] + args.skip(1)
        } else if has_prefix(name, "gst-pop-"@) {
            seq!["gst-pop"@, name.skip("gst-pop-"@.len() as int)] + args.skip(1)
        } else {
            args
        }
    }
}

/// Reads the program name as `argv_for_program` says.
pub fn argv_for_program_exec(args: Vec<String>) -> (r: Vec<String>)
    ensures
        strings_view(r@) == argv_for_program(strings_view(args@)),
{
    if args.len() == 0 {
        return args;
    }
    let name = match file_name_of(args[0].as_str()) {
        Some(n) => n,
        None => String::new(),
    };
    let head: String;
    if str_eq(name.as_str(), "gst-popd") {
        head = string_from("daemon");
    } else if str_starts_with(name.as_str(), "gst-pop-") {
        let v = chars_of(name.as_str());
        proof {
            reveal_strlit("gst-pop-");
        }
        head = string_of_chars(&v, 8, v.len());
        proof {
            assert(name@.skip("gst-pop-"@.len() as int) =~= v@.subrange(8, v@.len() as int));
        }
    } else {
        return args;
    }
    let mut r: Vec<String> = Vec::new();
    r.push(string_from("gst-pop"));
    r.push(head);
    let ghost prefix = strings_view(r@);
    let mut i: usize = 1;
    while i < args.len()
        invariant
            1 <= i <= args@.len(),
            strings_view(r@) =~= prefix + strings_view(args@).subrange(1, i as int),
        decreases args@.len() - i,
    {
        let ghost before = r@;
        r.push(args[i].clone());
        proof {
            assert(strings_view(r@) =~= strings_view(before).push(args@[i as int]@));
        }
        i = i + 1;
    }
    proof {
        assert(strings_view(args@).subrange(1, i as int) =~= strings_view(args@).skip(1));
    }
    r
}

} // verus!

verus! {

/// The server options when none is given: port 9000 on 127.0.0.1, both interfaces, no API
/// key, no origin restriction.
pub open spec fn is_default_server(s: ServerArgs) -> bool {
    &&& s.port == DEFAULT_WEBSOCKET_PORT
    &&& s.bind@ == DEFAULT_BIND_ADDRESS@
    &&& !s.no_dbus
    &&& !s.no_websocket
    &&& s.api_key is None
    &&& s.allowed_origins@.len() == 0
}

impl Cli {
    /// The command to run: the subcommand given; without one, `launch` of the pipeline
    /// description when one is given, else the daemon with default options.
    pub fn into_command(self) -> (r: Commands)
        ensures
            self.command is Some ==> r == self.command->0,
            self.command is None && self.pipeline@.len() > 0 ==> (r matches Commands::Launch(l)
                && l.pipelines@.len() == 0
                && opt_view(l.pipeline) == Some(join_words(strings_view(self.pipeline@)))
                && is_default_server(l.server)),
            self.command is None && self.pipeline@.len() == 0 ==> (r matches Commands::Daemon(d)
                && d.pipelines@.len() == 0
                && is_default_server(d.server)),
    {
        match self.command {
            Some(c) => c,
            None => {
                if self.pipeline.len() > 0 {
                    Commands::Launch(LaunchArgs {
                        pipelines: Vec::new(),
                        pipeline: Some(join_words_exec(&self.pipeline)),
                        server: ServerArgs::default(),
                    })
                } else {
                    Commands::Daemon(DaemonArgs::default())
                }
            },
        }
    }
}

} // verus!

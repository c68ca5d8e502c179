//! Rules of the pipeline daemon: which pipeline descriptions are accepted, which GStreamer
//! errors mean unsupported media, what a bus message is reported as, and how state changes
//! and graph snapshots are requested.

use vstd::prelude::*;
use vstd::string::*;
use crate::text::{chars_contain, chars_of, contains_sub, decimal, lowercase, push_decimal, string_from, to_lowercase, trim, trimmed};

verus! {

/// Maximum length for pipeline descriptions, in bytes, to prevent memory exhaustion.
pub const MAX_PIPELINE_DESCRIPTION_LENGTH: usize = 65536;

/// Timeout for state changes in seconds.
pub const STATE_CHANGE_TIMEOUT_SECS: u64 = 30;

/// Errors of the pipeline daemon.
#[derive(Debug)]
pub enum GpopError {
    InvalidPipeline(String),
    MediaNotSupported(String),
    StateChangeFailed(String),
    PipelineNotFound(String),
    DiscoveryFailed(String),
    GStreamer(String),
}

/// The contents of a daemon error.
pub enum GpopErrorView {
    InvalidPipeline(Seq<char>),
    MediaNotSupported(Seq<char>),
    StateChangeFailed(Seq<char>),
    PipelineNotFound(Seq<char>),
    DiscoveryFailed(Seq<char>),
    GStreamer(Seq<char>),
}

impl View for GpopError {
    type V = GpopErrorView;

    open spec fn view(&self) -> GpopErrorView {
        match self {
            GpopError::InvalidPipeline(s) => GpopErrorView::InvalidPipeline(s@),
            GpopError::MediaNotSupported(s) => GpopErrorView::MediaNotSupported(s@),
            GpopError::StateChangeFailed(s) => GpopErrorView::StateChangeFailed(s@),
            GpopError::PipelineNotFound(s) => GpopErrorView::PipelineNotFound(s@),
            GpopError::DiscoveryFailed(s) => GpopErrorView::DiscoveryFailed(s@),
            GpopError::GStreamer(s) => GpopErrorView::GStreamer(s@),
        }
    }
}

/// Phrases of GStreamer error messages that indicate unsupported media: missing codecs,
/// unsupported formats, hardware limitations.
pub open spec fn media_patterns() -> Seq<Seq<char>> {
    seq![
        "no suitable"@, "missing plugin"@, "missing element"@, "codec not found"@, "could not determine type"@,
        "unhandled"@, "not supported"@, "unsupported"@, "no decoder"@, "no encoder"@, "no demuxer"@, "no muxer"@,
        "format not supported"@, "caps not supported"@, "not negotiated"@, "stream type not supported"@,
    ]
}

/// The message, lowercased, holds one of the media phrases.
pub open spec fn is_media_error_text(message: Seq<char>) -> bool {
    exists|i: int| 0 <= i < media_patterns().len() && contains_sub(lowercase(message), #[trigger] media_patterns()[i])
}

fn media_pattern_list() -> (r: Vec<&'static str>)
    ensures
        r@.map_values(|s: &str| s@) == media_patterns(),
{
    let r = vec![
        "no suitable", "missing plugin", "missing element", "codec not found", "could not determine type", "unhandled",
        "not supported", "unsupported", "no decoder", "no encoder", "no demuxer", "no muxer", "format not supported",
        "caps not supported", "not negotiated", "stream type not supported",
    ];
    proof {
        assert(r@.map_values(|s: &str| s@) =~= media_patterns());
    }
    r
}

/// Check if a GStreamer error message indicates unsupported media (missing codec, format,
/// etc.). Returns the message if so.
pub fn is_media_not_supported_error(message: &str) -> (r: Option<String>)
    ensures
        r is Some <==> is_media_error_text(message@),
        r is Some ==> r->0@ == message@,
{
    let lower = to_lowercase(message);
    let text = chars_of(lower.as_str());
    let patterns = media_pattern_list();
    let mut i: usize = 0;
    while i < patterns.len()
        invariant
            patterns@.map_values(|s: &str| s@) == media_patterns(),
            text@ == lowercase(message@),
            i <= patterns@.len(),
            forall|k: int| 0 <= k < i ==> !contains_sub(lowercase(message@), #[trigger] media_patterns()[k]),
        decreases patterns@.len() - i,
    {
        let p = chars_of(patterns[i]);
        proof {
            assert(media_patterns()[i as int] == patterns@[i as int]@);
        }
        if chars_contain(&text, &p) {
            return Some(string_from(message));
        }
        i = i + 1;
    }
    None
}

/// The error for a description that GStreamer could not parse.
pub fn launch_error(message: &str) -> (r: GpopError)
    ensures
        is_media_error_text(message@) ==> r@ == GpopErrorView::MediaNotSupported(message@),
        !is_media_error_text(message@) ==> r@ == GpopErrorView::InvalidPipeline(message@),
{
    match is_media_not_supported_error(message) {
        Some(msg) => GpopError::MediaNotSupported(msg),
        None => GpopError::InvalidPipeline(string_from(message)),
    }
}

/// Validate a pipeline description before handing it to GStreamer: it must not be blank and
/// must fit the length limit (its length in bytes).
pub fn validate_description(description: &str) -> (r: Result<(), GpopError>)
    ensures
        trimmed(description@).len() == 0 ==> r is Err
            && r->Err_0@ == GpopErrorView::InvalidPipeline("Pipeline description cannot be empty"@),
        trimmed(description@).len() > 0 && description.len() > MAX_PIPELINE_DESCRIPTION_LENGTH ==> r is Err
            && r->Err_0@ == GpopErrorView::InvalidPipeline(
                "Pipeline description too long: "@ + decimal(description.len() as nat) + " bytes (max: 65536 bytes)"@,
            ),
        r is Ok <==> trimmed(description@).len() > 0 && description.len() <= MAX_PIPELINE_DESCRIPTION_LENGTH,
{
    let t = trim(description);
    if t.as_str().is_empty() {
        return Err(GpopError::InvalidPipeline(string_from("Pipeline description cannot be empty")));
    }
    let len = description.len();
    if len > MAX_PIPELINE_DESCRIPTION_LENGTH {
        let mut msg = string_from("Pipeline description too long: ");
        push_decimal(&mut msg, len as u64);
        msg.append(" bytes (max: 65536 bytes)");
        return Err(GpopError::InvalidPipeline(msg));
    }
    Ok(())
}

/// Pipeline states.
#[derive(Debug, Clone, Copy, PartialEq, Eq, Structural)]
pub enum PipelineState {
    Null,
    Ready,
    Paused,
    Playing,
}

impl PipelineState {
    pub open spec fn name(self) -> Seq<char> {
        match self {
            PipelineState::Null => "null"@,
            PipelineState::Ready => "ready"@,
            PipelineState::Paused => "paused"@,
            PipelineState::Playing => "playing"@,
        }
    }

    /// The state's name as the protocol writes it.
    pub fn as_str(&self) -> (r: &'static str)
        ensures
            r@ == self.name(),
    {
        match self {
            PipelineState::Null => "null",
            PipelineState::Ready => "ready",
            PipelineState::Paused => "paused",
            PipelineState::Playing => "playing",
        }
    }

    /// Parses a state name.
    pub fn parse(s: &str) -> (r: Option<PipelineState>)
        ensures
            r is Some ==> r->0.name() == s@,
            r is None ==> forall|p: PipelineState| #[trigger] p.name() != s@,
    {
        let v = string_from(s);
        if v == string_from("null") {
            Some(PipelineState::Null)
        } else if v == string_from("ready") {
            Some(PipelineState::Ready)
        } else if v == string_from("paused") {
            Some(PipelineState::Paused)
        } else if v == string_from("playing") {
            Some(PipelineState::Playing)
        } else {
            proof {
                assert forall|p: PipelineState| #[trigger] p.name() != s@ by {
                    match p {
                        PipelineState::Null => {},
                        PipelineState::Ready => {},
                        PipelineState::Paused => {},
                        PipelineState::Playing => {},
                    }
                }
            }
            None
        }
    }

    /// Whether the pipeline is streaming in this state.
    pub fn is_streaming(&self) -> (r: bool)
        ensures
            r == (*self == PipelineState::Playing),
    {
        match self {
            PipelineState::Playing => true,
            _ => false,
        }
    }
}

/// Events a pipeline sends to subscribers.
#[derive(Debug)]
pub enum PipelineEvent {
    StateChanged { pipeline_id: String, old_state: PipelineState, new_state: PipelineState },
    Error { pipeline_id: String, message: String },
    Unsupported { pipeline_id: String, message: String },
    Eos { pipeline_id: String },
    PipelineAdded { pipeline_id: String, description: String },
    PipelineUpdated { pipeline_id: String, description: String },
    PipelineRemoved { pipeline_id: String },
}

/// The contents of a pipeline event.
pub enum PipelineEventView {
    StateChanged { pipeline_id: Seq<char>, old_state: PipelineState, new_state: PipelineState },
    Error { pipeline_id: Seq<char>, message: Seq<char> },
    Unsupported { pipeline_id: Seq<char>, message: Seq<char> },
    Eos { pipeline_id: Seq<char> },
    PipelineAdded { pipeline_id: Seq<char>, description: Seq<char> },
    PipelineUpdated { pipeline_id: Seq<char>, description: Seq<char> },
    PipelineRemoved { pipeline_id: Seq<char> },
}

impl View for PipelineEvent {
    type V = PipelineEventView;

    open spec fn view(&self) -> PipelineEventView {
        match self {
            PipelineEvent::StateChanged { pipeline_id, old_state, new_state } => PipelineEventView::StateChanged {
                pipeline_id: pipeline_id@,
                old_state: *old_state,
                new_state: *new_state,
            },
            PipelineEvent::Error { pipeline_id, message } => PipelineEventView::Error { pipeline_id: pipeline_id@, message: message@ },
            PipelineEvent::Unsupported { pipeline_id, message } => PipelineEventView::Unsupported {
                pipeline_id: pipeline_id@,
                message: message@,
            },
            PipelineEvent::Eos { pipeline_id } => PipelineEventView::Eos { pipeline_id: pipeline_id@ },
            PipelineEvent::PipelineAdded { pipeline_id, description } => PipelineEventView::PipelineAdded {
                pipeline_id: pipeline_id@,
                description: description@,
            },
            PipelineEvent::PipelineUpdated { pipeline_id, description } => PipelineEventView::PipelineUpdated {
                pipeline_id: pipeline_id@,
                description: description@,
            },
            PipelineEvent::PipelineRemoved { pipeline_id } => PipelineEventView::PipelineRemoved { pipeline_id: pipeline_id@ },
        }
    }
}

/// A message popped from a pipeline's bus, reduced to what the bus watcher reads of it.
#[derive(Debug)]
pub enum BusMessage {
    /// An error, with the GError's message.
    Error { message: String },
    Warning,
    EndOfStream,
    /// A state change, and whether the pipeline itself (not one of its elements) changed.
    StateChanged { from_pipeline: bool, old_state: PipelineState, new_state: PipelineState },
    Other,
}

/// The event, if any, that the bus watcher of pipeline `id` sends for a bus message:
/// errors become unsupported-media or error events, end of stream an EOS event, and state
/// changes of the pipeline itself a state event.
pub open spec fn bus_event_for(id: Seq<char>, msg: BusMessage) -> Option<PipelineEventView> {
    match msg {
        BusMessage::Error { message } => if is_media_error_text(message@) {
            Some(PipelineEventView::Unsupported { pipeline_id: id, message: message@ })
        } else {
            Some(PipelineEventView::Error { pipeline_id: id, message: message@ })
        },
        BusMessage::EndOfStream => Some(PipelineEventView::Eos { pipeline_id: id }),
        BusMessage::StateChanged { from_pipeline, old_state, new_state } => if from_pipeline {
            Some(PipelineEventView::StateChanged { pipeline_id: id, old_state, new_state })
        } else {
            None
        },
        _ => None,
    }
}

/// A bus message reports on the watched pipeline only: every event it gives carries the
/// watcher's pipeline id. A state change of the pipeline itself is reported as the
/// transition it was, from the message's old state to its new one (so the reports of two
/// successive changes chain: the first one's new state is the second one's old state);
/// state changes of its elements are not reported.
pub proof fn lemma_bus_events_report_the_transition(id: Seq<char>, msg: BusMessage)
    ensures
        bus_event_for(id, msg) matches Some(e) ==> match e {
            PipelineEventView::StateChanged { pipeline_id, .. } => pipeline_id == id,
            PipelineEventView::Error { pipeline_id, .. } => pipeline_id == id,
            PipelineEventView::Unsupported { pipeline_id, .. } => pipeline_id == id,
            PipelineEventView::Eos { pipeline_id } => pipeline_id == id,
            _ => false,
        },
        msg matches BusMessage::StateChanged { from_pipeline, old_state: before, new_state: after } ==> (
            if from_pipeline {
                bus_event_for(id, msg) matches Some(PipelineEventView::StateChanged { old_state, new_state, .. })
                    && old_state == before && new_state == after
            } else {
                bus_event_for(id, msg) is None
            }
        ),
        msg matches BusMessage::Error { message: text } ==> match bus_event_for(id, msg) {
            Some(PipelineEventView::Unsupported { message, .. }) => message == text@ && is_media_error_text(text@),
            Some(PipelineEventView::Error { message, .. }) => message == text@ && !is_media_error_text(text@),
            _ => false,
        },
        msg is EndOfStream ==> bus_event_for(id, msg) matches Some(PipelineEventView::Eos { .. }),
        msg is Warning || msg is Other ==> bus_event_for(id, msg) is None,
{
}

/// Decides what the bus watcher of pipeline `id` reports for one bus message.
pub fn bus_event(id: &str, msg: BusMessage) -> (r: Option<PipelineEvent>)
    ensures
        match r {
            Some(e) => bus_event_for(id@, msg) == Some(e@),
            None => bus_event_for(id@, msg) is None,
        },
{
    match msg {
        BusMessage::Error { message } => {
            if is_media_not_supported_error(message.as_str()).is_some() {
                Some(PipelineEvent::Unsupported { pipeline_id: string_from(id), message })
            } else {
                Some(PipelineEvent::Error { pipeline_id: string_from(id), message })
            }
        },
        BusMessage::EndOfStream => Some(PipelineEvent::Eos { pipeline_id: string_from(id) }),
        BusMessage::StateChanged { from_pipeline, old_state, new_state } => {
            if from_pipeline {
                Some(PipelineEvent::StateChanged { pipeline_id: string_from(id), old_state, new_state })
            } else {
                None
            }
        },
        _ => None,
    }
}

/// How a state change request went, as GStreamer reports it after waiting.
#[derive(Debug, Clone, Copy, PartialEq, Eq, Structural)]
pub enum StateChangeOutcome {
    Success,
    NoPreroll,
    /// Accepted, still in progress.
    Async,
    Failure,
}

/// The result of setting pipeline `id` to `state`: success unless the wait reports a failure.
pub fn state_change_result(id: &str, state: PipelineState, outcome: StateChangeOutcome) -> (r: Result<(), GpopError>)
    ensures
        r is Ok <==> outcome != StateChangeOutcome::Failure,
        r is Err ==> r->Err_0@ == GpopErrorView::StateChangeFailed(
            "Failed to change state to "@ + state.name() + " for pipeline '"@ + id@ + "'"@,
        ),
{
    match outcome {
        StateChangeOutcome::Failure => {
            let mut msg = string_from("Failed to change state to ");
            msg.append(state.as_str());
            msg.append(" for pipeline '");
            msg.append(id);
            msg.append("'");
            Err(GpopError::StateChangeFailed(msg))
        },
        _ => Ok(()),
    }
}

/// Detail of a pipeline graph snapshot.
#[derive(Debug, Clone, Copy, PartialEq, Eq, Structural)]
pub enum DotDetail {
    MediaType,
    CapsDetails,
    NonDefaultParams,
    States,
    All,
}

/// The snapshot detail a request names: `media`, `caps`, `non-default`, `states`; anything
/// else, or nothing, means all.
pub open spec fn dot_detail_for(details: Option<Seq<char>>) -> DotDetail {
    match details {
        Some(d) => if d == "media"@ {
            DotDetail::MediaType
        } else if d == "caps"@ {
            DotDetail::CapsDetails
        } else if d == "non-default"@ {
            DotDetail::NonDefaultParams
        } else if d == "states"@ {
            DotDetail::States
        } else {
            DotDetail::All
        },
        None => DotDetail::All,
    }
}

/// The snapshot detail for a request.
pub fn dot_detail(details: Option<&str>) -> (r: DotDetail)
    ensures
        r == dot_detail_for(match details { Some(d) => Some(d@), None => None }),
{
    match details {
        Some(d) => {
            let s = string_from(d);
            if s == string_from("media") {
                DotDetail::MediaType
            } else if s == string_from("caps") {
                DotDetail::CapsDetails
            } else if s == string_from("non-default") {
                DotDetail::NonDefaultParams
            } else if s == string_from("states") {
                DotDetail::States
            } else {
                DotDetail::All
            }
        },
        None => DotDetail::All,
    }
}

} // verus!

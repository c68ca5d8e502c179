//! The front end's connection to the pipeline daemon: how connecting is retried, and what a
//! request answers for each way it can end.

use vstd::prelude::*;
use vstd::string::*;
use crate::error::{AppError, AppErrorView};
use crate::text::string_from;

verus! {

/// Number of connection attempts before giving up.
pub const CONNECT_ATTEMPTS: usize = 6;

/// Seconds a request waits for its reply.
pub const REQUEST_TIMEOUT_SECS: u64 = 30;

/// The wait before connection attempt `k` (counted from 0), in milliseconds: none before the
/// first, then 100, 200, 400, 800 and 1600.
pub open spec fn retry_delay_ms(k: nat) -> nat {
    if k == 0 { 0 } else if k == 1 { 100 } else if k == 2 { 200 } else if k == 3 { 400 } else if k == 4 { 800 } else { 1600 }
}

/// The message when every attempt failed.
pub open spec fn connect_failure_message(last_error: Seq<char>) -> Seq<char> {
    "Failed to connect after 6 attempts: "@ + last_error
}

/// What to do next while connecting.
#[derive(Debug)]
pub enum ConnectStep {
    /// Wait this long, then try to connect.
    Try { delay_ms: u64 },
    /// Stop with this error.
    GiveUp(AppError),
}

/// Connection attempts so far and the last failure.
#[derive(Debug)]
pub struct ConnectRetry {
    attempts: usize,
    last_error: String,
}

impl ConnectRetry {
    /// Attempts made so far.
    pub closed spec fn attempts(&self) -> nat {
        self.attempts as nat
    }

    /// The error of the last failed attempt.
    pub closed spec fn last_error(&self) -> Seq<char> {
        self.last_error@
    }

    pub closed spec fn wf(&self) -> bool {
        self.attempts <= CONNECT_ATTEMPTS
    }

    /// No attempt made yet.
    pub fn new() -> (r: ConnectRetry)
        ensures
            r.wf(),
            r.attempts() == 0,
            r.last_error() == Seq::<char>::empty(),
    {
        ConnectRetry { attempts: 0, last_error: String::new() }
    }

    /// The next step: another attempt after its delay, or giving up after the last.
    pub fn next_step(&self) -> (r: ConnectStep)
        requires
            self.wf(),
        ensures
            self.attempts() < CONNECT_ATTEMPTS ==> (r matches ConnectStep::Try { delay_ms }
                && delay_ms as nat == retry_delay_ms(self.attempts())),
            self.attempts() >= CONNECT_ATTEMPTS ==> (r matches ConnectStep::GiveUp(e)
                && e@ == AppErrorView::GpopConnection(connect_failure_message(self.last_error()))),
    {
        let delay: u64 = match self.attempts {
            0 => 0,
            1 => 100,
            2 => 200,
            3 => 400,
            4 => 800,
            5 => 1600,
            _ => {
                let mut m = string_from("Failed to connect after 6 attempts: ");
                m.append(self.last_error.as_str());
                return ConnectStep::GiveUp(AppError::GpopConnection(m));
            },
        };
        ConnectStep::Try { delay_ms: delay }
    }

    /// An attempt failed with the given error.
    pub fn record_failure(&mut self, error: String)
        requires
            old(self).wf(),
            old(self).attempts() < CONNECT_ATTEMPTS,
        ensures
            final(self).wf(),
            final(self).attempts() == old(self).attempts() + 1,
            final(self).last_error() == error@,
    {
        self.attempts = self.attempts + 1;
        self.last_error = error;
    }
}

/// The error message of a request that had no reply in time.
pub open spec fn timeout_message(method: Seq<char>) -> Seq<char> {
    "Request '"@ + method + "' timed out after 30s"@
}

/// How waiting for a request's reply ended.
pub enum RequestOutcome<R> {
    /// The request could not be handed to the connection.
    SendFailed,
    /// The connection dropped the request before replying.
    ChannelClosed,
    /// No reply within the timeout.
    TimedOut,
    /// The daemon replied: its result, or its error message.
    Replied(Result<R, String>),
}

/// What a request answers for each way it ends.
pub fn request_result<R>(method: &str, outcome: RequestOutcome<R>) -> (r: Result<R, AppError>)
    ensures
        match outcome {
            RequestOutcome::SendFailed => r matches Err(e) && e@ == AppErrorView::GpopConnection("Connection closed"@),
            RequestOutcome::ChannelClosed => r matches Err(e)
                && e@ == AppErrorView::GpopConnection("Response channel closed"@),
            RequestOutcome::TimedOut => r matches Err(e) && e@ == AppErrorView::GpopConnection(timeout_message(method@)),
            RequestOutcome::Replied(Ok(v)) => r == Ok::<R, AppError>(v),
            RequestOutcome::Replied(Err(m)) => r matches Err(e) && e@ == AppErrorView::GpopProtocol(m@),
        },
{
    match outcome {
        RequestOutcome::SendFailed => Err(AppError::GpopConnection(string_from("Connection closed"))),
        RequestOutcome::ChannelClosed => Err(AppError::GpopConnection(string_from("Response channel closed"))),
        RequestOutcome::TimedOut => {
            let mut m = string_from("Request '");
            m.append(method);
            m.append("' timed out after 30s");
            Err(AppError::GpopConnection(m))
        },
        RequestOutcome::Replied(Ok(v)) => Ok(v),
        RequestOutcome::Replied(Err(m)) => Err(AppError::GpopProtocol(m)),
    }
}

/// The outcome of a reply from the daemon: its error message if it has one, else its result,
/// with `null` standing for a missing result.
pub fn reply_result<R>(result: Option<R>, error_message: Option<String>, null: R) -> (r: Result<R, String>)
    ensures
        match error_message {
            Some(m) => r == Err::<R, String>(m),
            None => r == Ok::<R, String>(match result {
                Some(v) => v,
                None => null,
            }),
        },
{
    match error_message {
        Some(m) => Err(m),
        None => match result {
            Some(v) => Ok(v),
            None => Ok(null),
        },
    }
}

/// What a message from the daemon is: an event (it has an `event` key), else a reply to a
/// request (it has an `id` key), else unknown.
#[derive(Debug, Clone, Copy, PartialEq, Eq, Structural)]
pub enum IncomingMessage {
    Event,
    Reply,
    Unknown,
}

/// Routes a message from the daemon by the keys it has: `event` first, then `id`.
pub fn classify_incoming(has_event_key: bool, has_id_key: bool) -> (r: IncomingMessage)
    ensures
        r == (if has_event_key {
            IncomingMessage::Event
        } else if has_id_key {
            IncomingMessage::Reply
        } else {
            IncomingMessage::Unknown
        }),
{
    if has_event_key {
        IncomingMessage::Event
    } else if has_id_key {
        IncomingMessage::Reply
    } else {
        IncomingMessage::Unknown
    }
}

/// The daemon's reply to `create_pipeline`.
#[derive(Debug, Clone)]
pub struct PipelineCreatedResult {
    pub pipeline_id: String,
}

} // verus!

//! The WebSocket interface of the daemon: its limits, and who may connect.

pub mod protocol;

use vstd::prelude::*;
use crate::text::{str_eq, strings_view};

verus! {

/// Default WebSocket port.
pub const DEFAULT_WEBSOCKET_PORT: u16 = 9000;

/// Default bind address of the WebSocket server.
pub const DEFAULT_BIND_ADDRESS: &'static str = "127.0.0.1";

/// Capacity of each client's outgoing message queue (matches the event channel).
pub const CLIENT_MESSAGE_BUFFER: usize = 256;

/// Maximum number of clients connected at once.
pub const MAX_CONCURRENT_CLIENTS: usize = 1000;

/// Whether `origin` is one of the allowed origins (exact match).
pub fn origin_matches(allowed_origins: &Vec<String>, origin: &str) -> (r: bool)
    ensures
        r == strings_view(allowed_origins@).contains(origin@),
{
    crate::text::strings_contain(allowed_origins, origin)
}

/// No origin matches an empty list.
pub proof fn lemma_empty_origins_match_nothing(allowed: Seq<Seq<char>>, origin: Seq<char>)
    requires
        allowed.len() == 0,
    ensures
        !allowed.contains(origin),
{
}

/// Whether a connection is accepted as far as its origin goes: without configured origins
/// every connection is; a client that sends no `Origin` header (not a browser) is; otherwise
/// the origin must be allowed.
pub fn origin_accepted(allowed_origins: &Vec<String>, origin: Option<&str>) -> (r: bool)
    ensures
        r == (allowed_origins@.len() == 0 || origin is None || strings_view(allowed_origins@).contains(origin->0@)),
{
    if allowed_origins.len() == 0 {
        return true;
    }
    match origin {
        None => true,
        Some(o) => origin_matches(allowed_origins, o),
    }
}

/// The answer to a WebSocket handshake as far as authentication goes.
#[derive(Debug, Clone, Copy, PartialEq, Eq, Structural)]
pub enum HandshakeAuth {
    Accept,
    /// 401: the `Authorization` header is missing.
    Unauthorized,
    /// 403: the key is wrong.
    Forbidden,
}

/// Authenticates a handshake: without a configured key every client is accepted; otherwise
/// the `Authorization` header must hold the key.
pub fn authenticate_handshake(api_key: Option<&str>, authorization: Option<&str>) -> (r: HandshakeAuth)
    ensures
        api_key is None ==> r == HandshakeAuth::Accept,
        api_key is Some && authorization is None ==> r == HandshakeAuth::Unauthorized,
        api_key is Some && authorization is Some ==> r == if authorization->0@ == api_key->0@ {
            HandshakeAuth::Accept
        } else {
            HandshakeAuth::Forbidden
        },
{
    match api_key {
        None => HandshakeAuth::Accept,
        Some(key) => match authorization {
            None => HandshakeAuth::Unauthorized,
            Some(given) => if str_eq(given, key) { HandshakeAuth::Accept } else { HandshakeAuth::Forbidden },
        },
    }
}

} // verus!

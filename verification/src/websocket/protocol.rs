//! The JSON-RPC 2.0 protocol of the WebSocket interface.

pub mod error_codes;

use vstd::prelude::*;

verus! {

/// The JSON-RPC version spoken.
pub const JSONRPC_VERSION: &'static str = "2.0";

} // verus!

//! JSON-RPC error codes: the standard ones, and the server errors in -32099..=-32000.

use vstd::prelude::*;

verus! {

pub const PARSE_ERROR: i32 = -32700;
pub const INVALID_REQUEST: i32 = -32600;
pub const METHOD_NOT_FOUND: i32 = -32601;
pub const INVALID_PARAMS: i32 = -32602;
pub const INTERNAL_ERROR: i32 = -32603;
pub const PIPELINE_NOT_FOUND: i32 = -32000;
pub const PIPELINE_CREATION_FAILED: i32 = -32001;
pub const STATE_CHANGE_FAILED: i32 = -32002;
pub const GSTREAMER_ERROR: i32 = -32003;
pub const DESCRIPTION_TOO_LONG: i32 = -32004;
pub const MEDIA_NOT_SUPPORTED: i32 = -32005;

/// A server error code lies in the range JSON-RPC reserves for them.
pub open spec fn is_server_error_code(code: i32) -> bool {
    -32099 <= code <= -32000
}

/// Every error code is negative, and the daemon's own codes are server error codes.
pub proof fn lemma_error_codes_in_range()
    ensures
        PARSE_ERROR < 0,
        INVALID_REQUEST < 0,
        METHOD_NOT_FOUND < 0,
        INVALID_PARAMS < 0,
        INTERNAL_ERROR < 0,
        is_server_error_code(PIPELINE_NOT_FOUND),
        is_server_error_code(PIPELINE_CREATION_FAILED),
        is_server_error_code(STATE_CHANGE_FAILED),
        is_server_error_code(GSTREAMER_ERROR),
        is_server_error_code(DESCRIPTION_TOO_LONG),
        is_server_error_code(MEDIA_NOT_SUPPORTED),
{
}

} // verus!

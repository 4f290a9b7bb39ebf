//! How requests are refused over HTTP.

use vstd::prelude::*;
use crate::error::{error_text, SunderError};
use crate::hex_codec::{decode_hex, hex_decode, hex_valid};
use crate::text::concat2;

verus! {

/// The status of a request that could not be read.
pub const BAD_REQUEST: u16 = 400;

/// The status of a request that failed inside the service.
pub const INTERNAL_SERVER_ERROR: u16 = 500;

/// Reads a hex-encoded message from a request body; a message that is not
/// hexadecimal is refused with `BAD_REQUEST`.
pub fn decode_message(message_hex: &str) -> (r: Result<Vec<u8>, (u16, String)>)
    ensures
        r is Ok <==> hex_valid(message_hex@),
        r matches Ok(m) ==> m@ == hex_decode(message_hex@),
        r matches Err((status, body)) ==> status == BAD_REQUEST
            && exists|detail: Seq<char>| body@ == "invalid message hex: "@ + detail,
{
    match decode_hex(message_hex) {
        Ok(m) => Ok(m),
        Err(detail) => Err((BAD_REQUEST, concat2("invalid message hex: ", detail.as_str()))),
    }
}

/// The answer to a request that failed inside the service: the error's
/// description, with `INTERNAL_SERVER_ERROR`.
pub fn error_response(e: &SunderError) -> (r: (u16, String))
    ensures
        r.0 == INTERNAL_SERVER_ERROR,
        r.1@ == error_text(*e),
{
    (INTERNAL_SERVER_ERROR, e.message())
}

} // verus!

//! Command responses: the device's acknowledgment of a command.
//!
//! A response body is a little-endian 32-bit result code followed by a
//! free-text ASCII description from the device.

use vstd::prelude::*;
use vstd::bytes::*;
use vstd::slice::slice_subrange;
use crate::text::all_ascii_from;
use crate::text::ascii_chars;
use crate::text::ascii_to_string;

verus! {

/// Result codes the device returns in a command response.
#[derive(Clone, Copy, Debug, PartialEq, Eq, Structural)]
pub enum ResponseID {
    /// The command was accepted.
    Accepted,
    /// The command named a message the device does not know.
    InvalidMessageId,
    /// A field of the command was out of range.
    InvalidParameter,
    /// Any result code this driver does not model.
    Unknown,
}

impl ResponseID {
    /// The result code a wire value names.
    pub open spec fn spec_from_u32(v: u32) -> ResponseID {
        if v == 1 {
            ResponseID::Accepted
        } else if v == 2 {
            ResponseID::InvalidMessageId
        } else if v == 3 {
            ResponseID::InvalidParameter
        } else {
            ResponseID::Unknown
        }
    }

    /// The result code a wire value names.
    pub fn from_u32(v: u32) -> (r: ResponseID)
        ensures
            r == ResponseID::spec_from_u32(v),
    {
        if v == 1 {
            ResponseID::Accepted
        } else if v == 2 {
            ResponseID::InvalidMessageId
        } else if v == 3 {
            ResponseID::InvalidParameter
        } else {
            ResponseID::Unknown
        }
    }
}

/// What a response body parses to: a body of at least four bytes whose text
/// is ASCII yields its result code and description; anything else yields no
/// value.
pub open spec fn spec_parse_response(b: Seq<u8>) -> Option<(ResponseID, Seq<char>)> {
    if b.len() >= 4 && (forall|i: int| 4 <= i < b.len() ==> b[i] < 0x80) {
        Some(
            (
                ResponseID::spec_from_u32(spec_u32_from_le_bytes(b.subrange(0, 4))),
                ascii_chars(b.skip(4)),
            ),
        )
    } else {
        None
    }
}

/// A parsed command response.
pub struct Response {
    /// Result code: `Ok`, or the error the device reported.
    pub resp_id: ResponseID,
    /// Human-readable description supplied by the device.
    pub resp_string: String,
}

impl Response {
    /// Parse a response body. A malformed body yields no value.
    pub fn new(body: Vec<u8>) -> (r: Option<Response>)
        ensures
            match r {
                Some(resp) => {
                    &&& spec_parse_response(body@) matches Some(p)
                    &&& resp.resp_id == p.0
                    &&& resp.resp_string@ == p.1
                },
                None => spec_parse_response(body@) is None,
            },
    {
        if body.len() < 4 {
            return None;
        }
        let code = u32_from_le_bytes(slice_subrange(body.as_slice(), 0, 4));
        if !all_ascii_from(body.as_slice(), 4) {
            return None;
        }
        let text = ascii_to_string(slice_subrange(body.as_slice(), 4, body.len()));
        proof {
            assert(body@.subrange(4, body@.len() as int) =~= body@.skip(4));
        }
        Some(Response { resp_id: ResponseID::from_u32(code), resp_string: text })
    }
}

} // verus!

//! Unsolicited log messages the device emits.
//!
//! A log body is decoded according to the message identifier in its frame's
//! header. The driver models the representative subset: version
//! information, the best-available Cartesian position, and receiver status
//! events. Unrecognized identifiers yield no value and the frame is
//! skipped.

use vstd::prelude::*;
use vstd::bytes::*;
use vstd::slice::slice_subrange;
use crate::commands::MessageID;
use crate::text::all_ascii_from;
use crate::text::ascii_chars;
use crate::text::ascii_to_string;

verus! {

/// Version information reported by the device.
#[derive(Clone, Copy, Debug, PartialEq, Eq, Structural)]
pub struct VersionLog {
    /// Number of hardware components the device reports on.
    pub num_components: u32,
}

/// Best-available Cartesian position fix.
///
/// The coordinates travel on the wire as 8-byte little-endian IEEE-754
/// values; this driver carries them as their bit patterns.
#[derive(Clone, Copy, Debug, PartialEq, Eq, Structural)]
pub struct BestXYZLog {
    /// Solution status of the position fix.
    pub pos_status: u32,
    /// Kind of position solution.
    pub pos_type: u32,
    /// Bit pattern of the X coordinate in meters.
    pub x_bits: u64,
    /// Bit pattern of the Y coordinate in meters.
    pub y_bits: u64,
    /// Bit pattern of the Z coordinate in meters.
    pub z_bits: u64,
}

/// A receiver status event.
pub struct RxStatusEventLog {
    /// Status word the event refers to.
    pub word: u32,
    /// Bit of the status word that changed.
    pub bit: u32,
    /// Whether the bit was set or cleared.
    pub event: u32,
    /// Human-readable description supplied by the device.
    pub description: String,
}

/// A parsed log message.
pub enum Log {
    /// Version information.
    Version(VersionLog),
    /// Position fix.
    BestXYZ(BestXYZLog),
    /// Receiver status event.
    RxStatusEvent(RxStatusEventLog),
}

/// The mathematical value of a log message.
pub enum LogView {
    /// Version information.
    Version { num_components: u32 },
    /// Position fix.
    BestXYZ { pos_status: u32, pos_type: u32, x_bits: u64, y_bits: u64, z_bits: u64 },
    /// Receiver status event.
    RxStatusEvent { word: u32, bit: u32, event: u32, description: Seq<char> },
}

impl View for Log {
    type V = LogView;

    open spec fn view(&self) -> LogView {
        match self {
            Log::Version(v) => LogView::Version { num_components: v.num_components },
            Log::BestXYZ(p) => LogView::BestXYZ {
                pos_status: p.pos_status,
                pos_type: p.pos_type,
                x_bits: p.x_bits,
                y_bits: p.y_bits,
                z_bits: p.z_bits,
            },
            Log::RxStatusEvent(e) => LogView::RxStatusEvent {
                word: e.word,
                bit: e.bit,
                event: e.event,
                description: e.description@,
            },
        }
    }
}

/// What a log body parses to, keyed by the message identifier of its frame.
pub open spec fn spec_parse_log(msg_id: u16, b: Seq<u8>) -> Option<LogView> {
    if msg_id == MessageID::Version.spec_value() {
        if b.len() >= 4 {
            Some(LogView::Version { num_components: spec_u32_from_le_bytes(b.subrange(0, 4)) })
        } else {
            None
        }
    } else if msg_id == MessageID::BestXYZ.spec_value() {
        if b.len() >= 32 {
            Some(
                LogView::BestXYZ {
                    pos_status: spec_u32_from_le_bytes(b.subrange(0, 4)),
                    pos_type: spec_u32_from_le_bytes(b.subrange(4, 8)),
                    x_bits: spec_u64_from_le_bytes(b.subrange(8, 16)),
                    y_bits: spec_u64_from_le_bytes(b.subrange(16, 24)),
                    z_bits: spec_u64_from_le_bytes(b.subrange(24, 32)),
                },
            )
        } else {
            None
        }
    } else if msg_id == MessageID::RxStatusEvent.spec_value() {
        if b.len() >= 12 && (forall|i: int| 12 <= i < b.len() ==> b[i] < 0x80) {
            Some(
                LogView::RxStatusEvent {
                    word: spec_u32_from_le_bytes(b.subrange(0, 4)),
                    bit: spec_u32_from_le_bytes(b.subrange(4, 8)),
                    event: spec_u32_from_le_bytes(b.subrange(8, 12)),
                    description: ascii_chars(b.skip(12)),
                },
            )
        } else {
            None
        }
    } else {
        None
    }
}

impl Log {
    /// Parse a log body according to the message identifier of its frame.
    /// An unrecognized identifier or a malformed body yields no value.
    pub fn new(msg_id: u16, body: Vec<u8>) -> (r: Option<Log>)
        ensures
            match r {
                Some(log) => spec_parse_log(msg_id, body@) == Some(log@),
                None => spec_parse_log(msg_id, body@) is None,
            },
    {
        if msg_id == MessageID::Version.value() {
            if body.len() < 4 {
                return None;
            }
            let num_components = u32_from_le_bytes(slice_subrange(body.as_slice(), 0, 4));
            Some(Log::Version(VersionLog { num_components }))
        } else if msg_id == MessageID::BestXYZ.value() {
            if body.len() < 32 {
                return None;
            }
            let pos_status = u32_from_le_bytes(slice_subrange(body.as_slice(), 0, 4));
            let pos_type = u32_from_le_bytes(slice_subrange(body.as_slice(), 4, 8));
            let x_bits = u64_from_le_bytes(slice_subrange(body.as_slice(), 8, 16));
            let y_bits = u64_from_le_bytes(slice_subrange(body.as_slice(), 16, 24));
            let z_bits = u64_from_le_bytes(slice_subrange(body.as_slice(), 24, 32));
            Some(Log::BestXYZ(BestXYZLog { pos_status, pos_type, x_bits, y_bits, z_bits }))
        } else if msg_id == MessageID::RxStatusEvent.value() {
            if body.len() < 12 {
                return None;
            }
            let word = u32_from_le_bytes(slice_subrange(body.as_slice(), 0, 4));
            let bit = u32_from_le_bytes(slice_subrange(body.as_slice(), 4, 8));
            let event = u32_from_le_bytes(slice_subrange(body.as_slice(), 8, 12));
            if !all_ascii_from(body.as_slice(), 12) {
                return None;
            }
            let description = ascii_to_string(slice_subrange(body.as_slice(), 12, body.len()));
            proof {
                assert(body@.subrange(12, body@.len() as int) =~= body@.skip(12));
            }
            Some(Log::RxStatusEvent(RxStatusEventLog { word, bit, event, description }))
        } else {
            None
        }
    }
}

} // verus!

//! Outbound command messages and their serialization.
//!
//! Every command is a frame: synchronization marker, 25-byte header, a
//! command-specific body, and a trailing CRC over header and body. The
//! commands modeled here are the log request, the unlog of one log, and the
//! unlog of all logs; the serializer yields the frame without its CRC and
//! `frame_message` appends the checksum.

use vstd::prelude::*;
use vstd::bytes::*;
use vstd::slice::slice_subrange;
use crate::crc::crc_of;
use crate::crc::compute_crc;
use crate::header::Header;
use crate::header::spec_command_header;
use crate::header::spec_header_bytes;

verus! {

/// Identifier of the default communication port all commands target.
pub const PORT_COM1: u32 = 32;

/// Identifiers of the messages this driver knows.
#[derive(Clone, Copy, Debug, PartialEq, Eq, Structural)]
pub enum MessageID {
    /// The log-request command, and the response acknowledging one.
    Log,
    /// The command cancelling one log.
    Unlog,
    /// The command cancelling all logs.
    UnlogAll,
    /// The version-information log.
    Version,
    /// The receiver status event log.
    RxStatusEvent,
    /// The best-available Cartesian position log.
    BestXYZ,
}

impl MessageID {
    /// The identifier's value on the wire.
    pub open spec fn spec_value(self) -> u16 {
        match self {
            MessageID::Log => 1,
            MessageID::Unlog => 36,
            MessageID::Version => 37,
            MessageID::UnlogAll => 38,
            MessageID::RxStatusEvent => 94,
            MessageID::BestXYZ => 241,
        }
    }

    /// The identifier's value on the wire.
    #[verifier::when_used_as_spec(spec_value)]
    pub fn value(self) -> (v: u16)
        ensures
            v == self.spec_value(),
    {
        match self {
            MessageID::Log => 1,
            MessageID::Unlog => 36,
            MessageID::Version => 37,
            MessageID::UnlogAll => 38,
            MessageID::RxStatusEvent => 94,
            MessageID::BestXYZ => 241,
        }
    }
}

/// The condition under which a requested log is emitted.
#[derive(Clone, Copy, Debug, PartialEq, Eq, Structural)]
pub enum LogTrigger {
    /// Emitted whenever the logged quantity changes.
    OnChanged,
    /// Emitted periodically, on the requested interval and offset.
    OnTime,
    /// Emitted once, immediately.
    Once,
}

impl LogTrigger {
    /// The trigger's value on the wire.
    pub open spec fn spec_value(self) -> u32 {
        match self {
            LogTrigger::OnChanged => 1,
            LogTrigger::OnTime => 2,
            LogTrigger::Once => 4,
        }
    }

    /// The trigger's value on the wire.
    #[verifier::when_used_as_spec(spec_value)]
    pub fn value(self) -> (v: u32)
        ensures
            v == self.spec_value(),
    {
        match self {
            LogTrigger::OnChanged => 1,
            LogTrigger::OnTime => 2,
            LogTrigger::Once => 4,
        }
    }
}

/// The capability every outbound command shares: serializing itself to the
/// wire bytes of its frame, CRC not yet appended.
pub trait Message {
    /// The frame bytes, marker and header included, without the CRC.
    spec fn wire(&self) -> Seq<u8>;

    /// Every wire image opens with the 28 marker-and-header bytes.
    proof fn wire_longer_than_header(&self)
        ensures
            self.wire().len() >= 28,
    ;

    /// Produce the wire bytes; the caller appends the CRC separately.
    fn serialize(&self) -> (r: Vec<u8>)
        ensures
            r@ == self.wire(),
    ;
}

/// Request that the device emit a log.
///
/// The interval and offset travel on the wire as 8-byte little-endian
/// IEEE-754 values; this driver carries them as their bit patterns, so the
/// fields hold `f64::to_bits` of the number of seconds.
#[derive(Clone, Copy, Debug, PartialEq, Eq, Structural)]
pub struct LogCmd {
    /// Port the requested log should be emitted on.
    pub port: u32,
    /// Identifier of the log being requested.
    pub msg_id: u16,
    /// When the log should be emitted.
    pub trigger: LogTrigger,
    /// Bit pattern of the emission interval in seconds.
    pub interval_bits: u64,
    /// Bit pattern of the emission offset in seconds.
    pub offset_bits: u64,
    /// Whether the log survives an unlog-all request.
    pub hold: bool,
}

/// The 32 body bytes of a log request.
pub open spec fn spec_log_cmd_body(c: LogCmd) -> Seq<u8> {
    spec_u32_to_le_bytes(c.port) + spec_u16_to_le_bytes(c.msg_id) + seq![0u8, 0u8]
        + spec_u32_to_le_bytes(c.trigger.spec_value()) + spec_u64_to_le_bytes(c.interval_bits)
        + spec_u64_to_le_bytes(c.offset_bits) + spec_u32_to_le_bytes(
        if c.hold {
            1u32
        } else {
            0u32
        },
    )
}

impl LogCmd {
    /// Build a log request.
    pub fn new(port: u32, msg_id: u16, trigger: LogTrigger, interval_bits: u64, offset_bits: u64, hold: bool) -> (c: LogCmd)
        ensures
            c == (LogCmd { port, msg_id, trigger, interval_bits, offset_bits, hold }),
    {
        LogCmd { port, msg_id, trigger, interval_bits, offset_bits, hold }
    }
}

impl Message for LogCmd {
    open spec fn wire(&self) -> Seq<u8> {
        spec_header_bytes(spec_command_header(MessageID::Log.spec_value(), 32)) + spec_log_cmd_body(*self)
    }

    proof fn wire_longer_than_header(&self) {
        lemma_auto_spec_u16_to_from_le_bytes();
        lemma_auto_spec_u32_to_from_le_bytes();
    }

    fn serialize(&self) -> (r: Vec<u8>) {
        let mut out: Vec<u8> = Vec::new();
        let hdr = Header::new(MessageID::Log.value(), 32);
        hdr.serialize_to(&mut out);
        let mut piece = u32_to_le_bytes(self.port);
        out.append(&mut piece);
        let mut piece = u16_to_le_bytes(self.msg_id);
        out.append(&mut piece);
        out.push(0);
        out.push(0);
        let mut piece = u32_to_le_bytes(self.trigger.value());
        out.append(&mut piece);
        let mut piece = u64_to_le_bytes(self.interval_bits);
        out.append(&mut piece);
        let mut piece = u64_to_le_bytes(self.offset_bits);
        out.append(&mut piece);
        let mut piece = u32_to_le_bytes(if self.hold { 1 } else { 0 });
        out.append(&mut piece);
        proof {
            assert(out@ =~= self.wire());
        }
        out
    }
}

/// Cancel one previously requested log.
#[derive(Clone, Copy, Debug, PartialEq, Eq, Structural)]
pub struct UnlogCmd {
    /// Port the cancellation applies to.
    pub port: u32,
    /// Identifier of the log being cancelled.
    pub msg_id: u16,
}

/// The 8 body bytes of an unlog request.
pub open spec fn spec_unlog_cmd_body(c: UnlogCmd) -> Seq<u8> {
    spec_u32_to_le_bytes(c.port) + spec_u16_to_le_bytes(c.msg_id) + seq![0u8, 0u8]
}

impl UnlogCmd {
    /// Build an unlog request.
    pub fn new(port: u32, msg_id: u16) -> (c: UnlogCmd)
        ensures
            c == (UnlogCmd { port, msg_id }),
    {
        UnlogCmd { port, msg_id }
    }
}

impl Message for UnlogCmd {
    open spec fn wire(&self) -> Seq<u8> {
        spec_header_bytes(spec_command_header(MessageID::Unlog.spec_value(), 8)) + spec_unlog_cmd_body(*self)
    }

    proof fn wire_longer_than_header(&self) {
        lemma_auto_spec_u16_to_from_le_bytes();
        lemma_auto_spec_u32_to_from_le_bytes();
    }

    fn serialize(&self) -> (r: Vec<u8>) {
        let mut out: Vec<u8> = Vec::new();
        let hdr = Header::new(MessageID::Unlog.value(), 8);
        hdr.serialize_to(&mut out);
        let mut piece = u32_to_le_bytes(self.port);
        out.append(&mut piece);
        let mut piece = u16_to_le_bytes(self.msg_id);
        out.append(&mut piece);
        out.push(0);
        out.push(0);
        proof {
            assert(out@ =~= self.wire());
        }
        out
    }
}

/// Cancel all previously requested logs.
#[derive(Clone, Copy, Debug, PartialEq, Eq, Structural)]
pub struct UnlogAllCmd {
    /// Port the cancellation applies to.
    pub port: u32,
    /// Whether hold-marked logs are preserved.
    pub hold: bool,
}

/// The 8 body bytes of an unlog-all request.
pub open spec fn spec_unlog_all_cmd_body(c: UnlogAllCmd) -> Seq<u8> {
    spec_u32_to_le_bytes(c.port) + spec_u32_to_le_bytes(
        if c.hold {
            1u32
        } else {
            0u32
        },
    )
}

impl UnlogAllCmd {
    /// Build an unlog-all request.
    pub fn new(port: u32, hold: bool) -> (c: UnlogAllCmd)
        ensures
            c == (UnlogAllCmd { port, hold }),
    {
        UnlogAllCmd { port, hold }
    }
}

impl Message for UnlogAllCmd {
    open spec fn wire(&self) -> Seq<u8> {
        spec_header_bytes(spec_command_header(MessageID::UnlogAll.spec_value(), 8)) + spec_unlog_all_cmd_body(*self)
    }

    proof fn wire_longer_than_header(&self) {
        lemma_auto_spec_u16_to_from_le_bytes();
        lemma_auto_spec_u32_to_from_le_bytes();
    }

    fn serialize(&self) -> (r: Vec<u8>) {
        let mut out: Vec<u8> = Vec::new();
        let hdr = Header::new(MessageID::UnlogAll.value(), 8);
        hdr.serialize_to(&mut out);
        let mut piece = u32_to_le_bytes(self.port);
        out.append(&mut piece);
        let mut piece = u32_to_le_bytes(if self.hold { 1 } else { 0 });
        out.append(&mut piece);
        proof {
            assert(out@ =~= self.wire());
        }
        out
    }
}

/// A complete frame for `wire` bytes: the bytes themselves followed by the
/// little-endian CRC over everything past the synchronization marker.
pub open spec fn spec_frame(wire: Seq<u8>) -> Seq<u8>
    recommends
        wire.len() >= 3,
{
    wire + spec_u32_to_le_bytes(crc_of(wire.skip(3)))
}

/// Serialize a command and append its CRC: the exact bytes written to the
/// transport when the command is sent.
pub fn frame_message<T: Message>(msg: &T) -> (r: Vec<u8>)
    ensures
        r@ == spec_frame(msg.wire()),
{
    proof {
        msg.wire_longer_than_header();
    }
    let mut raw = msg.serialize();
    let crc = compute_crc(slice_subrange(raw.as_slice(), 3, raw.len()));
    proof {
        assert(raw@.subrange(3, raw@.len() as int) =~= msg.wire().skip(3));
    }
    let mut piece = u32_to_le_bytes(crc);
    raw.append(&mut piece);
    raw
}

} // verus!

//! Frame header: the fixed-layout record at the start of every frame.
//!
//! A frame opens with a 3-byte synchronization marker followed by a 25-byte
//! header. The header carries the message identifier, the message-type byte
//! (whose top bit marks a command response), the body length, and several
//! housekeeping fields the device fills in on its own messages. All scalars
//! are little-endian.

use vstd::prelude::*;
use vstd::bytes::*;
use vstd::slice::slice_subrange;

verus! {

/// Length of the full header on the wire, synchronization marker included.
pub const HDR_LEN: usize = 28;

/// Bit of the message-type byte that marks a message as a command response.
pub const RESPONSE_BIT: u8 = 0x80;

/// The fixed 3-byte constant that opens every frame.
pub open spec fn sync_bytes() -> Seq<u8> {
    seq![0xAAu8, 0x44u8, 0x12u8]
}

/// Header fields, as decoded from the 28 bytes that open a frame.
#[derive(Clone, Copy, Debug, PartialEq, Eq, Structural)]
pub struct Header {
    /// Numeric identifier of the message the frame carries.
    pub msg_id: u16,
    /// Message-type byte; bit 0x80 set means the frame is a command response.
    pub msg_type: u8,
    /// Port address the device reports the message on.
    pub port_addr: u8,
    /// Length in bytes of the body that follows the header.
    pub msg_len: u16,
    /// Sequence count for multi-part logs.
    pub sequence: u16,
    /// Processor idle time reported by the device.
    pub idle_time: u8,
    /// Quality indicator for the time fields.
    pub time_status: u8,
    /// GPS week number.
    pub week: u16,
    /// Milliseconds into the GPS week.
    pub ms: u32,
    /// Receiver status word.
    pub recv_status: u32,
    /// Reserved field.
    pub reserved: u16,
    /// Receiver software build number.
    pub recv_ver: u16,
}

/// The 25 header bytes that follow the synchronization marker.
pub open spec fn spec_serialize_header(h: Header) -> Seq<u8> {
    seq![HDR_LEN as u8] + spec_u16_to_le_bytes(h.msg_id) + seq![h.msg_type, h.port_addr]
        + spec_u16_to_le_bytes(h.msg_len) + spec_u16_to_le_bytes(h.sequence)
        + seq![h.idle_time, h.time_status] + spec_u16_to_le_bytes(h.week)
        + spec_u32_to_le_bytes(h.ms) + spec_u32_to_le_bytes(h.recv_status)
        + spec_u16_to_le_bytes(h.reserved) + spec_u16_to_le_bytes(h.recv_ver)
}

/// A whole 28-byte header as it stands on the wire, marker included.
pub open spec fn spec_header_bytes(h: Header) -> Seq<u8> {
    sync_bytes() + spec_serialize_header(h)
}

/// The header an outbound command carries: the message identifier and body
/// length, with every housekeeping field zero.
pub open spec fn spec_command_header(msg_id: u16, msg_len: u16) -> Header {
    Header {
        msg_id,
        msg_type: 0,
        port_addr: 0,
        msg_len,
        sequence: 0,
        idle_time: 0,
        time_status: 0,
        week: 0,
        ms: 0,
        recv_status: 0,
        reserved: 0,
        recv_ver: 0,
    }
}

/// What `Header::parse` yields: a header exactly when the input is 28 bytes
/// that open with the synchronization marker and the fixed header length.
pub open spec fn spec_parse_header(s: Seq<u8>) -> Option<Header> {
    if s.len() == HDR_LEN && s.subrange(0, 3) == sync_bytes() && s[3] == HDR_LEN as u8 {
        Some(
            Header {
                msg_id: spec_u16_from_le_bytes(s.subrange(4, 6)),
                msg_type: s[6],
                port_addr: s[7],
                msg_len: spec_u16_from_le_bytes(s.subrange(8, 10)),
                sequence: spec_u16_from_le_bytes(s.subrange(10, 12)),
                idle_time: s[12],
                time_status: s[13],
                week: spec_u16_from_le_bytes(s.subrange(14, 16)),
                ms: spec_u32_from_le_bytes(s.subrange(16, 20)),
                recv_status: spec_u32_from_le_bytes(s.subrange(20, 24)),
                reserved: spec_u16_from_le_bytes(s.subrange(24, 26)),
                recv_ver: spec_u16_from_le_bytes(s.subrange(26, 28)),
            },
        )
    } else {
        None
    }
}

impl Header {
    /// A header for an outbound command carrying `msg_id` and a body of
    /// `msg_len` bytes; the housekeeping fields are zero on commands.
    pub fn new(msg_id: u16, msg_len: u16) -> (h: Header)
        ensures
            h == spec_command_header(msg_id, msg_len),
    {
        Header {
            msg_id,
            msg_type: 0,
            port_addr: 0,
            msg_len,
            sequence: 0,
            idle_time: 0,
            time_status: 0,
            week: 0,
            ms: 0,
            recv_status: 0,
            reserved: 0,
            recv_ver: 0,
        }
    }

    /// Decode a header from the first 28 bytes of a frame. A malformed
    /// layout yields no value: the frame is discarded, never a fault.
    pub fn parse(bytes: &[u8]) -> (r: Option<Header>)
        ensures
            r == spec_parse_header(bytes@),
    {
        if bytes.len() != HDR_LEN {
            return None;
        }
        if bytes[0] != 0xAA || bytes[1] != 0x44 || bytes[2] != 0x12 {
            proof {
                assert(bytes@.subrange(0, 3)[0] == bytes@[0]);
                assert(bytes@.subrange(0, 3)[1] == bytes@[1]);
                assert(bytes@.subrange(0, 3)[2] == bytes@[2]);
            }
            return None;
        }
        if bytes[3] != HDR_LEN as u8 {
            return None;
        }
        proof {
            assert(bytes@.subrange(0, 3) =~= sync_bytes());
        }
        Some(
            Header {
                msg_id: u16_from_le_bytes(slice_subrange(bytes, 4, 6)),
                msg_type: bytes[6],
                port_addr: bytes[7],
                msg_len: u16_from_le_bytes(slice_subrange(bytes, 8, 10)),
                sequence: u16_from_le_bytes(slice_subrange(bytes, 10, 12)),
                idle_time: bytes[12],
                time_status: bytes[13],
                week: u16_from_le_bytes(slice_subrange(bytes, 14, 16)),
                ms: u32_from_le_bytes(slice_subrange(bytes, 16, 20)),
                recv_status: u32_from_le_bytes(slice_subrange(bytes, 20, 24)),
                reserved: u16_from_le_bytes(slice_subrange(bytes, 24, 26)),
                recv_ver: u16_from_le_bytes(slice_subrange(bytes, 26, 28)),
            },
        )
    }

    /// Append the 28 wire bytes of this header, marker included, to `out`.
    pub fn serialize_to(&self, out: &mut Vec<u8>)
        ensures
            final(out)@ == old(out)@ + spec_header_bytes(*self),
    {
        out.push(0xAA);
        out.push(0x44);
        out.push(0x12);
        out.push(HDR_LEN as u8);
        let mut piece = u16_to_le_bytes(self.msg_id);
        out.append(&mut piece);
        out.push(self.msg_type);
        out.push(self.port_addr);
        let mut piece = u16_to_le_bytes(self.msg_len);
        out.append(&mut piece);
        let mut piece = u16_to_le_bytes(self.sequence);
        out.append(&mut piece);
        out.push(self.idle_time);
        out.push(self.time_status);
        let mut piece = u16_to_le_bytes(self.week);
        out.append(&mut piece);
        let mut piece = u32_to_le_bytes(self.ms);
        out.append(&mut piece);
        let mut piece = u32_to_le_bytes(self.recv_status);
        out.append(&mut piece);
        let mut piece = u16_to_le_bytes(self.reserved);
        out.append(&mut piece);
        let mut piece = u16_to_le_bytes(self.recv_ver);
        out.append(&mut piece);
        proof {
            assert(out@ =~= old(out)@ + spec_header_bytes(*self));
        }
    }
}

/// Law: a header built by the codec and re-parsed from its own serialized
/// bytes yields an identical logical header.
pub proof fn lemma_header_round_trip(h: Header)
    ensures
        spec_parse_header(spec_header_bytes(h)) == Some(h),
{
    lemma_auto_spec_u16_to_from_le_bytes();
    lemma_auto_spec_u32_to_from_le_bytes();
    let s = spec_header_bytes(h);
    assert(s.len() == HDR_LEN);
    assert(s.subrange(0, 3) =~= sync_bytes());
    assert(s[3] == HDR_LEN as u8);
    assert(s.subrange(4, 6) =~= spec_u16_to_le_bytes(h.msg_id));
    assert(s[6] == h.msg_type);
    assert(s[7] == h.port_addr);
    assert(s.subrange(8, 10) =~= spec_u16_to_le_bytes(h.msg_len));
    assert(s.subrange(10, 12) =~= spec_u16_to_le_bytes(h.sequence));
    assert(s[12] == h.idle_time);
    assert(s[13] == h.time_status);
    assert(s.subrange(14, 16) =~= spec_u16_to_le_bytes(h.week));
    assert(s.subrange(16, 20) =~= spec_u32_to_le_bytes(h.ms));
    assert(s.subrange(20, 24) =~= spec_u32_to_le_bytes(h.recv_status));
    assert(s.subrange(24, 26) =~= spec_u16_to_le_bytes(h.reserved));
    assert(s.subrange(26, 28) =~= spec_u16_to_le_bytes(h.recv_ver));
}

} // verus!

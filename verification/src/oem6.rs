//! The driver core: frame dispatch, command building, and response
//! correlation.
//!
//! A background reader owned by the caller pulls one frame at a time off the
//! transport and hands its bytes to [`OEM6::process_frame`], which validates
//! the frame and routes it to one of two bounded delivery queues according
//! to the response bit of its message-type byte. The foreground command
//! path builds a framed command with one of the `request_*` methods, writes
//! the bytes to the transport, and then awaits the correlated
//! acknowledgment with [`OEM6::get_response`]; unsolicited logs are drained
//! with [`OEM6::get_log`].

use vstd::prelude::*;
use vstd::bytes::*;
use vstd::slice::slice_subrange;
use vstd::slice::slice_to_vec;
use crate::crc::crc_of;
use crate::crc::compute_crc;
use crate::header::HDR_LEN;
use crate::header::Header;
use crate::header::spec_command_header;
use crate::header::spec_header_bytes;
use crate::header::spec_parse_header;
use crate::commands::LogCmd;
use crate::commands::LogTrigger;
use crate::commands::Message;
use crate::commands::MessageID;
use crate::commands::PORT_COM1;
use crate::commands::UnlogAllCmd;
use crate::commands::UnlogCmd;
use crate::commands::frame_message;
use crate::commands::spec_frame;
use crate::commands::spec_log_cmd_body;
use crate::commands::spec_unlog_all_cmd_body;
use crate::commands::spec_unlog_cmd_body;
use crate::logs::Log;
use crate::logs::LogView;
use crate::logs::spec_parse_log;
use crate::response::Response;
use crate::response::ResponseID;
use crate::response::spec_parse_response;

verus! {

/// Common error for driver operations.
#[derive(Clone, Debug)]
pub enum OEMError {
    /// Catch-all error, reserved for edge paths.
    GenericError,
    /// A response message was received, but its identifier does not match
    /// the command that was sent.
    ResponseMismatch,
    /// No valid, matching response arrived within the wait, or validation
    /// of the received item failed.
    NoResponse,
    /// The device explicitly rejected the command.
    CommandError {
        /// The result code the device reported.
        id: ResponseID,
        /// Description of the error, supplied by the device.
        description: String,
    },
    /// A recognized frame carried an unrecognized message identifier.
    UnknownMessage {
        /// Identifier of the message received.
        id: u16,
    },
    /// The underlying transport failed; any failure other than a timeout.
    TransportError {
        /// Description of the transport failure.
        description: String,
    },
}

/// Result type for driver operations.
pub type OEMResult<T> = Result<T, OEMError>;

/// How many entries each delivery queue holds; sized so that delivery never
/// legitimately fails under the expected command cadence.
pub const QUEUE_CAPACITY: usize = 5;

/// Whether a header's message-type byte marks the frame as a command
/// response rather than a log.
pub open spec fn spec_is_response(h: Header) -> bool {
    h.msg_type & 0x80 == 0x80
}

/// A bounded, order-preserving delivery queue of validated frames. The
/// reader enqueues without blocking; a full queue makes delivery fail
/// loudly rather than drop the frame silently.
pub struct DeliveryQueue {
    items: Vec<(Header, Vec<u8>)>,
}

impl View for DeliveryQueue {
    type V = Seq<(Header, Seq<u8>)>;

    closed spec fn view(&self) -> Seq<(Header, Seq<u8>)> {
        self.items@.map_values(|p: (Header, Vec<u8>)| (p.0, p.1@))
    }
}

impl DeliveryQueue {
    /// An empty queue.
    pub fn new() -> (q: DeliveryQueue)
        ensures
            q@ == Seq::<(Header, Seq<u8>)>::empty(),
    {
        let q = DeliveryQueue { items: Vec::new() };
        proof {
            assert(q@ =~= Seq::<(Header, Seq<u8>)>::empty());
        }
        q
    }

    /// How many entries the queue currently holds.
    pub fn len(&self) -> (n: usize)
        ensures
            n == self@.len(),
    {
        self.items.len()
    }

    /// Non-blocking enqueue: fails, leaving the queue unchanged, exactly
    /// when the queue is full.
    pub fn try_send(&mut self, hdr: Header, body: Vec<u8>) -> (ok: bool)
        ensures
            ok == (old(self)@.len() < QUEUE_CAPACITY),
            ok ==> final(self)@ == old(self)@.push((hdr, body@)),
            !ok ==> final(self)@ == old(self)@,
    {
        if self.items.len() < QUEUE_CAPACITY {
            let ghost before = self@;
            self.items.push((hdr, body));
            proof {
                assert(self@ =~= before.push((hdr, body@)));
            }
            true
        } else {
            false
        }
    }

    /// Dequeue the oldest entry, if any.
    pub fn try_recv(&mut self) -> (r: Option<(Header, Vec<u8>)>)
        ensures
            old(self)@.len() == 0 ==> r is None && final(self)@ == old(self)@,
            old(self)@.len() > 0 ==> {
                &&& r matches Some(p)
                &&& (p.0, p.1@) == old(self)@[0]
                &&& final(self)@ == old(self)@.drop_first()
            },
    {
        if self.items.len() == 0 {
            None
        } else {
            let ghost before = self@;
            let entry = self.items.remove(0);
            proof {
                assert(self@ =~= before.drop_first());
            }
            Some(entry)
        }
    }
}

/// What a frame reader delivers: the outcome of validating and routing one
/// frame image.
#[derive(Clone, Copy, Debug, PartialEq, Eq, Structural)]
pub enum FrameOutcome {
    /// The frame was valid and response-flagged; it went to the response
    /// queue.
    DeliveredResponse,
    /// The frame was valid and not response-flagged; it went to the log
    /// queue.
    DeliveredLog,
    /// The first 28 bytes were not a well-formed marker and header; the
    /// frame was discarded.
    BadHeader,
    /// The image's length does not match the header's body length; the
    /// frame was discarded.
    BadLength,
    /// The trailing checksum does not match the computed one; the frame was
    /// discarded.
    BadCrc,
    /// The frame was valid but its destination queue is full; delivery
    /// failed loudly and the frame was not enqueued.
    QueueFull,
}

/// The header of a frame image, decoded from its first 28 bytes.
pub open spec fn spec_frame_header(s: Seq<u8>) -> Option<Header> {
    if s.len() >= HDR_LEN {
        spec_parse_header(s.subrange(0, HDR_LEN as int))
    } else {
        None
    }
}

/// Whether the trailing four bytes hold the little-endian CRC computed over
/// header and body, the synchronization marker excluded.
pub open spec fn spec_frame_crc_ok(s: Seq<u8>) -> bool
    recommends
        s.len() >= 7,
{
    spec_u32_from_le_bytes(s.subrange(s.len() - 4, s.len() as int)) == crc_of(
        s.subrange(3, s.len() - 4),
    )
}

/// The body of a frame image: what stands between header and CRC.
pub open spec fn spec_frame_body(s: Seq<u8>) -> Seq<u8>
    recommends
        s.len() >= HDR_LEN + 4,
{
    s.subrange(HDR_LEN as int, s.len() - 4)
}

/// Whether a frame image is well-formed: its header parses, its length
/// matches the header's body length, and its trailing checksum matches.
pub open spec fn spec_frame_valid(s: Seq<u8>) -> bool {
    &&& spec_frame_header(s) is Some
    &&& s.len() == HDR_LEN + spec_frame_header(s)->Some_0.msg_len + 4
    &&& spec_frame_crc_ok(s)
}

/// The dispatcher's whole behavior on one frame image, as a function of the
/// two queues and the bytes: the outcome, the response queue after, and the
/// log queue after.
pub open spec fn spec_process_frame(
    rq: Seq<(Header, Seq<u8>)>,
    lq: Seq<(Header, Seq<u8>)>,
    s: Seq<u8>,
) -> (FrameOutcome, Seq<(Header, Seq<u8>)>, Seq<(Header, Seq<u8>)>) {
    match spec_frame_header(s) {
        None => (FrameOutcome::BadHeader, rq, lq),
        Some(h) => {
            if s.len() != HDR_LEN + h.msg_len + 4 {
                (FrameOutcome::BadLength, rq, lq)
            } else if !spec_frame_crc_ok(s) {
                (FrameOutcome::BadCrc, rq, lq)
            } else if spec_is_response(h) {
                if rq.len() < QUEUE_CAPACITY {
                    (FrameOutcome::DeliveredResponse, rq.push((h, spec_frame_body(s))), lq)
                } else {
                    (FrameOutcome::QueueFull, rq, lq)
                }
            } else {
                if lq.len() < QUEUE_CAPACITY {
                    (FrameOutcome::DeliveredLog, rq, lq.push((h, spec_frame_body(s))))
                } else {
                    (FrameOutcome::QueueFull, rq, lq)
                }
            }
        },
    }
}

/// Driver instance: the two delivery queues the reader fills and the
/// command path drains. The transport itself stays outside the engine; the
/// caller moves raw bytes between it and these methods.
pub struct OEM6 {
    /// Queue of validated log frames.
    pub log_queue: DeliveryQueue,
    /// Queue of validated response frames.
    pub response_queue: DeliveryQueue,
}

impl OEM6 {
    /// A driver instance with empty queues.
    pub fn new() -> (oem: OEM6)
        ensures
            oem.log_queue@ == Seq::<(Header, Seq<u8>)>::empty(),
            oem.response_queue@ == Seq::<(Header, Seq<u8>)>::empty(),
    {
        OEM6 { log_queue: DeliveryQueue::new(), response_queue: DeliveryQueue::new() }
    }

    /// Validate one frame image and route it.
    ///
    /// `message` holds the bytes of one candidate frame as read off the
    /// transport: marker, header, body, and trailing CRC. A malformed image
    /// is discarded without touching either queue — framing noise is
    /// recovered locally, never surfaced. A valid image is delivered to the
    /// response queue when its message-type byte carries the response bit,
    /// to the log queue otherwise; a full destination queue fails the
    /// delivery loudly.
    pub fn process_frame(&mut self, message: &Vec<u8>) -> (outcome: FrameOutcome)
        ensures
            ({
                let effect = spec_process_frame(
                    old(self).response_queue@,
                    old(self).log_queue@,
                    message@,
                );
                &&& outcome == effect.0
                &&& final(self).response_queue@ == effect.1
                &&& final(self).log_queue@ == effect.2
            }),
    {
        if message.len() < HDR_LEN {
            return FrameOutcome::BadHeader;
        }
        let h = match Header::parse(slice_subrange(message.as_slice(), 0, HDR_LEN)) {
            Some(h) => h,
            None => {
                return FrameOutcome::BadHeader;
            },
        };
        let total: usize = HDR_LEN + h.msg_len as usize + 4;
        if message.len() != total {
            return FrameOutcome::BadLength;
        }
        let crc_rx = u32_from_le_bytes(slice_subrange(message.as_slice(), total - 4, total));
        let crc_calc = compute_crc(slice_subrange(message.as_slice(), 3, total - 4));
        if crc_rx != crc_calc {
            return FrameOutcome::BadCrc;
        }
        let body = slice_to_vec(slice_subrange(message.as_slice(), HDR_LEN, total - 4));
        if h.msg_type & 0x80 == 0x80 {
            if self.response_queue.try_send(h, body) {
                FrameOutcome::DeliveredResponse
            } else {
                FrameOutcome::QueueFull
            }
        } else {
            if self.log_queue.try_send(h, body) {
                FrameOutcome::DeliveredLog
            } else {
                FrameOutcome::QueueFull
            }
        }
    }

    /// The framed one-shot version-information request. The caller writes
    /// the returned bytes to the transport and awaits the acknowledgment
    /// with `get_response(MessageID::Log)`.
    pub fn request_version(&self) -> (r: Vec<u8>)
        ensures
            r@ == spec_frame(
                (LogCmd {
                    port: PORT_COM1,
                    msg_id: MessageID::Version.spec_value(),
                    trigger: LogTrigger::Once,
                    interval_bits: 0,
                    offset_bits: 0,
                    hold: false,
                }).wire(),
            ),
    {
        let request = LogCmd::new(
            PORT_COM1,
            MessageID::Version.value(),
            LogTrigger::Once,
            0,
            0,
            false,
        );
        frame_message(&request)
    }

    /// The framed request for best-available position logs.
    ///
    /// `interval_bits` and `offset_bits` are IEEE-754 bit patterns of the
    /// interval and offset in seconds. An interval equal to zero (of either
    /// sign) requests a one-shot log; any other requests periodic emission
    /// on the given interval and offset. `hold` controls whether the log
    /// survives an unlog-all request. The caller writes the returned bytes
    /// to the transport and awaits the acknowledgment with
    /// `get_response(MessageID::Log)`.
    pub fn request_position(&self, interval_bits: u64, offset_bits: u64, hold: bool) -> (r: Vec<
        u8,
    >)
        ensures
            ({
                let trigger = if interval_bits & 0x7FFF_FFFF_FFFF_FFFF == 0 {
                    LogTrigger::Once
                } else {
                    LogTrigger::OnTime
                };
                r@ == spec_frame(
                    (LogCmd {
                        port: PORT_COM1,
                        msg_id: MessageID::BestXYZ.spec_value(),
                        trigger,
                        interval_bits,
                        offset_bits,
                        hold,
                    }).wire(),
                )
            }),
    {
        let trigger = if interval_bits & 0x7FFF_FFFF_FFFF_FFFF == 0 {
            LogTrigger::Once
        } else {
            LogTrigger::OnTime
        };
        let request = LogCmd::new(
            PORT_COM1,
            MessageID::BestXYZ.value(),
            trigger,
            interval_bits,
            offset_bits,
            hold,
        );
        frame_message(&request)
    }

    /// The framed request for receiver status events, emitted when the
    /// device's status changes. The caller writes the returned bytes to the
    /// transport and awaits the acknowledgment with
    /// `get_response(MessageID::Log)`.
    pub fn request_errors(&self) -> (r: Vec<u8>)
        ensures
            r@ == spec_frame(
                (LogCmd {
                    port: PORT_COM1,
                    msg_id: MessageID::RxStatusEvent.spec_value(),
                    trigger: LogTrigger::OnChanged,
                    interval_bits: 0,
                    offset_bits: 0,
                    hold: false,
                }).wire(),
            ),
    {
        let request = LogCmd::new(
            PORT_COM1,
            MessageID::RxStatusEvent.value(),
            LogTrigger::OnChanged,
            0,
            0,
            false,
        );
        frame_message(&request)
    }

    /// The framed request cancelling the log named by `id`. The caller
    /// writes the returned bytes to the transport and awaits the
    /// acknowledgment with `get_response(MessageID::Unlog)`.
    pub fn request_unlog(&self, id: MessageID) -> (r: Vec<u8>)
        ensures
            r@ == spec_frame((UnlogCmd { port: PORT_COM1, msg_id: id.spec_value() }).wire()),
    {
        let request = UnlogCmd::new(PORT_COM1, id.value());
        frame_message(&request)
    }

    /// The framed request cancelling all logs; `hold`-marked logs may be
    /// preserved by the device. The caller writes the returned bytes to the
    /// transport and awaits the acknowledgment with
    /// `get_response(MessageID::UnlogAll)`.
    pub fn request_unlog_all(&self, hold: bool) -> (r: Vec<u8>)
        ensures
            r@ == spec_frame((UnlogAllCmd { port: PORT_COM1, hold }).wire()),
    {
        let request = UnlogAllCmd::new(PORT_COM1, hold);
        frame_message(&request)
    }

    /// Consume the oldest delivered response and correlate it with the
    /// command identified by `id`.
    ///
    /// An empty queue models the bounded wait expiring with nothing
    /// delivered and yields `NoResponse`, as does a delivered item that is
    /// not response-flagged or whose body fails to parse. A response for a
    /// different message yields `ResponseMismatch`; a parsed result code
    /// other than accepted yields `CommandError` with the device's own
    /// description. Otherwise the command is acknowledged and nothing is
    /// returned.
    pub fn get_response(&mut self, id: MessageID) -> (r: OEMResult<()>)
        ensures
            final(self).log_queue@ == old(self).log_queue@,
            old(self).response_queue@.len() == 0 ==> final(self).response_queue@
                == old(self).response_queue@ && r == Err::<(), OEMError>(OEMError::NoResponse),
            old(self).response_queue@.len() > 0 ==> {
                let h = old(self).response_queue@[0].0;
                let b = old(self).response_queue@[0].1;
                &&& final(self).response_queue@ == old(self).response_queue@.drop_first()
                &&& !spec_is_response(h) ==> r == Err::<(), OEMError>(OEMError::NoResponse)
                &&& spec_is_response(h) ==> match spec_parse_response(b) {
                    None => r == Err::<(), OEMError>(OEMError::NoResponse),
                    Some(p) => {
                        if h.msg_id != id.spec_value() {
                            r == Err::<(), OEMError>(OEMError::ResponseMismatch)
                        } else if p.0 != ResponseID::Accepted {
                            &&& r matches Err(e)
                            &&& e matches OEMError::CommandError { id: eid, description }
                            &&& eid == p.0
                            &&& description@ == p.1
                        } else {
                            r == Ok::<(), OEMError>(())
                        }
                    },
                }
            },
    {
        let (hdr, body) = match self.response_queue.try_recv() {
            Some(entry) => entry,
            None => {
                return Err(OEMError::NoResponse);
            },
        };
        if hdr.msg_type & 0x80 != 0x80 {
            return Err(OEMError::NoResponse);
        }
        let resp = match Response::new(body) {
            Some(v) => v,
            None => {
                return Err(OEMError::NoResponse);
            },
        };
        if hdr.msg_id != id.value() {
            return Err(OEMError::ResponseMismatch);
        }
        if resp.resp_id != ResponseID::Accepted {
            return Err(
                OEMError::CommandError { id: resp.resp_id, description: resp.resp_string },
            );
        }
        Ok(())
    }

    /// Consume delivered log frames until one parses.
    ///
    /// Any dequeued item that unexpectedly carries the response flag is
    /// skipped, as is any body that fails to parse into a known log
    /// variant; the first successfully parsed log is returned. An exhausted
    /// queue models the bounded wait expiring and reports failure rather
    /// than hanging.
    pub fn get_log(&mut self) -> (r: OEMResult<Log>)
        ensures
            final(self).response_queue@ == old(self).response_queue@,
            match spec_next_log(old(self).log_queue@) {
                None => r == Err::<Log, OEMError>(OEMError::NoResponse)
                    && final(self).log_queue@.len() == 0,
                Some(p) => {
                    &&& r matches Ok(log)
                    &&& log@ == p.0
                    &&& final(self).log_queue@ == p.1
                },
            },
    {
        loop
            invariant
                self.response_queue@ == old(self).response_queue@,
                spec_next_log(self.log_queue@) == spec_next_log(old(self).log_queue@),
            decreases self.log_queue@.len(),
        {
            let (hdr, body) = match self.log_queue.try_recv() {
                Some(entry) => entry,
                None => {
                    return Err(OEMError::NoResponse);
                },
            };
            if hdr.msg_type & 0x80 == 0x80 {
                continue ;
            }
            match Log::new(hdr.msg_id, body) {
                Some(log) => {
                    return Ok(log);
                },
                None => {
                    continue ;
                },
            }
        }
    }
}

/// The first entry of `q` that parses as a log, with the entries left
/// behind it: response-flagged or unparsable entries are skipped, and an
/// exhausted queue yields nothing.
pub open spec fn spec_next_log(q: Seq<(Header, Seq<u8>)>) -> Option<
    (LogView, Seq<(Header, Seq<u8>)>),
>
    decreases q.len(),
{
    if q.len() == 0 {
        None
    } else {
        let h = q[0].0;
        let b = q[0].1;
        if !spec_is_response(h) && spec_parse_log(h.msg_id, b) is Some {
            Some((spec_parse_log(h.msg_id, b)->Some_0, q.drop_first()))
        } else {
            spec_next_log(q.drop_first())
        }
    }
}

/// Route one validated frame: a response-flagged frame is appended to the
/// response queue, any other to the log queue.
pub open spec fn spec_dispatch(
    rq: Seq<(Header, Seq<u8>)>,
    lq: Seq<(Header, Seq<u8>)>,
    f: (Header, Seq<u8>),
) -> (Seq<(Header, Seq<u8>)>, Seq<(Header, Seq<u8>)>) {
    if spec_is_response(f.0) {
        (rq.push(f), lq)
    } else {
        (rq, lq.push(f))
    }
}

/// Route a sequence of validated frames in arrival order.
pub open spec fn spec_dispatch_all(
    rq: Seq<(Header, Seq<u8>)>,
    lq: Seq<(Header, Seq<u8>)>,
    frames: Seq<(Header, Seq<u8>)>,
) -> (Seq<(Header, Seq<u8>)>, Seq<(Header, Seq<u8>)>)
    decreases frames.len(),
{
    if frames.len() == 0 {
        (rq, lq)
    } else {
        let p = spec_dispatch(rq, lq, frames[0]);
        spec_dispatch_all(p.0, p.1, frames.drop_first())
    }
}

/// The response-flagged frames of `frames`, in arrival order.
pub open spec fn spec_responses_in(frames: Seq<(Header, Seq<u8>)>) -> Seq<(Header, Seq<u8>)>
    decreases frames.len(),
{
    if frames.len() == 0 {
        Seq::empty()
    } else if spec_is_response(frames[0].0) {
        seq![frames[0]] + spec_responses_in(frames.drop_first())
    } else {
        spec_responses_in(frames.drop_first())
    }
}

/// The frames of `frames` without the response flag, in arrival order.
pub open spec fn spec_logs_in(frames: Seq<(Header, Seq<u8>)>) -> Seq<(Header, Seq<u8>)>
    decreases frames.len(),
{
    if frames.len() == 0 {
        Seq::empty()
    } else if !spec_is_response(frames[0].0) {
        seq![frames[0]] + spec_logs_in(frames.drop_first())
    } else {
        spec_logs_in(frames.drop_first())
    }
}

/// Law: malformed-frame resilience. A frame image with a corrupted CRC, a
/// truncated or malformed header, or a length that does not match its
/// header is dropped with both queues unchanged, and any later frame is
/// then processed exactly as if the malformed one had never arrived.
pub proof fn lemma_malformed_frame_resilience(
    rq: Seq<(Header, Seq<u8>)>,
    lq: Seq<(Header, Seq<u8>)>,
    bad: Seq<u8>,
    later: Seq<u8>,
)
    requires
        !spec_frame_valid(bad),
    ensures
        spec_process_frame(rq, lq, bad).1 == rq,
        spec_process_frame(rq, lq, bad).2 == lq,
        spec_process_frame(
            spec_process_frame(rq, lq, bad).1,
            spec_process_frame(rq, lq, bad).2,
            later,
        ) == spec_process_frame(rq, lq, later),
{
}

/// Law: a well-formed frame that finds room is delivered by routing alone:
/// processing it appends its header and body to exactly the queue its
/// response bit names, leaving the other queue untouched.
pub proof fn lemma_valid_frame_routed(
    rq: Seq<(Header, Seq<u8>)>,
    lq: Seq<(Header, Seq<u8>)>,
    s: Seq<u8>,
)
    requires
        spec_frame_valid(s),
        rq.len() < QUEUE_CAPACITY,
        lq.len() < QUEUE_CAPACITY,
    ensures
        ({
            let h = spec_frame_header(s)->Some_0;
            let effect = spec_process_frame(rq, lq, s);
            &&& (effect.1, effect.2) == spec_dispatch(rq, lq, (h, spec_frame_body(s)))
            &&& effect.0 == if spec_is_response(h) {
                FrameOutcome::DeliveredResponse
            } else {
                FrameOutcome::DeliveredLog
            }
        }),
{
}

/// Law: framing any message whose header names its body length yields a
/// well-formed frame: the header re-parses, the length matches, and the
/// trailing CRC verifies.
pub proof fn lemma_frame_of_message_valid(h: Header, body: Seq<u8>)
    requires
        h.msg_len == body.len(),
    ensures
        spec_frame_valid(spec_frame(spec_header_bytes(h) + body)),
{
    lemma_auto_spec_u16_to_from_le_bytes();
    lemma_auto_spec_u32_to_from_le_bytes();
    let w = spec_header_bytes(h) + body;
    let f = spec_frame(w);
    assert(w.len() == HDR_LEN + body.len());
    assert(f.len() == w.len() + 4);
    assert(f.subrange(0, HDR_LEN as int) =~= spec_header_bytes(h));
    crate::header::lemma_header_round_trip(h);
    assert(spec_frame_header(f) == Some(h));
    assert(f.subrange(f.len() - 4, f.len() as int) =~= spec_u32_to_le_bytes(crc_of(w.skip(3))));
    assert(f.subrange(3, f.len() - 4) =~= w.skip(3));
}

/// Law: every command this driver frames is a well-formed frame, so the
/// dispatcher itself would accept and route it.
pub proof fn lemma_framed_log_cmd_valid(c: LogCmd)
    ensures
        spec_frame_valid(spec_frame(c.wire())),
        !spec_is_response(spec_frame_header(spec_frame(c.wire()))->Some_0),
{
    lemma_auto_spec_u16_to_from_le_bytes();
    lemma_auto_spec_u32_to_from_le_bytes();
    vstd::bytes::lemma_auto_spec_u64_to_from_le_bytes();
    let h = spec_command_header(MessageID::Log.spec_value(), 32);
    assert(spec_log_cmd_body(c).len() == 32);
    lemma_frame_of_message_valid(h, spec_log_cmd_body(c));
    assert(0u8 & 0x80 != 0x80) by (bit_vector);
}

/// Law: an unlog command frames to a well-formed frame.
pub proof fn lemma_framed_unlog_cmd_valid(c: UnlogCmd)
    ensures
        spec_frame_valid(spec_frame(c.wire())),
{
    lemma_auto_spec_u16_to_from_le_bytes();
    lemma_auto_spec_u32_to_from_le_bytes();
    let h = spec_command_header(MessageID::Unlog.spec_value(), 8);
    assert(spec_unlog_cmd_body(c).len() == 8);
    lemma_frame_of_message_valid(h, spec_unlog_cmd_body(c));
}

/// Law: an unlog-all command frames to a well-formed frame.
pub proof fn lemma_framed_unlog_all_cmd_valid(c: UnlogAllCmd)
    ensures
        spec_frame_valid(spec_frame(c.wire())),
{
    lemma_auto_spec_u16_to_from_le_bytes();
    lemma_auto_spec_u32_to_from_le_bytes();
    let h = spec_command_header(MessageID::UnlogAll.spec_value(), 8);
    assert(spec_unlog_all_cmd_body(c).len() == 8);
    lemma_frame_of_message_valid(h, spec_unlog_all_cmd_body(c));
}

/// Law: dispatch routing. Routing any sequence of validated frames
/// delivers exactly the response-flagged ones to the response queue and
/// exactly the others to the log queue, each appended in arrival order, so
/// both queues preserve arrival order independently however the two kinds
/// interleave.
pub proof fn lemma_dispatch_routing(
    rq: Seq<(Header, Seq<u8>)>,
    lq: Seq<(Header, Seq<u8>)>,
    frames: Seq<(Header, Seq<u8>)>,
)
    ensures
        spec_dispatch_all(rq, lq, frames).0 == rq + spec_responses_in(frames),
        spec_dispatch_all(rq, lq, frames).1 == lq + spec_logs_in(frames),
    decreases frames.len(),
{
    if frames.len() == 0 {
        assert(rq + spec_responses_in(frames) =~= rq);
        assert(lq + spec_logs_in(frames) =~= lq);
    } else {
        let f = frames[0];
        let rest = frames.drop_first();
        let p = spec_dispatch(rq, lq, f);
        lemma_dispatch_routing(p.0, p.1, rest);
        if spec_is_response(f.0) {
            assert(rq.push(f) + spec_responses_in(rest) =~= rq + spec_responses_in(frames));
        } else {
            assert(lq.push(f) + spec_logs_in(rest) =~= lq + spec_logs_in(frames));
        }
    }
}

} // verus!

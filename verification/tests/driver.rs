//! Tests of the driver core: dispatch routing, malformed-frame resilience,
//! command correlation, and log consumption.

use novatel_oem6_api::compute_crc;
use novatel_oem6_api::FrameOutcome;
use novatel_oem6_api::Header;
use novatel_oem6_api::Log;
use novatel_oem6_api::MessageID;
use novatel_oem6_api::OEM6;
use novatel_oem6_api::OEMError;
use novatel_oem6_api::QUEUE_CAPACITY;
use novatel_oem6_api::ResponseID;

fn sample_header(msg_id: u16, msg_type: u8, msg_len: u16, sequence: u16) -> Header {
    Header {
        msg_id,
        msg_type,
        port_addr: 0,
        msg_len,
        sequence,
        idle_time: 0,
        time_status: 0,
        week: 0,
        ms: 0,
        recv_status: 0,
        reserved: 0,
        recv_ver: 0,
    }
}

fn make_frame_seq(msg_id: u16, msg_type: u8, body: &[u8], sequence: u16) -> Vec<u8> {
    let h = sample_header(msg_id, msg_type, body.len() as u16, sequence);
    let mut v: Vec<u8> = Vec::new();
    h.serialize_to(&mut v);
    v.extend_from_slice(body);
    let crc = compute_crc(&v[3..]);
    v.extend_from_slice(&crc.to_le_bytes());
    v
}

fn make_frame(msg_id: u16, msg_type: u8, body: &[u8]) -> Vec<u8> {
    make_frame_seq(msg_id, msg_type, body, 0)
}

fn ok_response_body() -> Vec<u8> {
    let mut body = 1u32.to_le_bytes().to_vec();
    body.extend_from_slice(b"OK");
    body
}

fn version_body(n: u32) -> Vec<u8> {
    n.to_le_bytes().to_vec()
}

#[test]
fn dispatch_routes_by_response_bit() {
    let mut oem = OEM6::new();
    let response = make_frame(1, 0x80, &ok_response_body());
    let log = make_frame(MessageID::Version.value(), 0, &version_body(2));

    assert_eq!(oem.process_frame(&response), FrameOutcome::DeliveredResponse);
    assert_eq!(oem.response_queue.len(), 1);
    assert_eq!(oem.log_queue.len(), 0);

    assert_eq!(oem.process_frame(&log), FrameOutcome::DeliveredLog);
    assert_eq!(oem.response_queue.len(), 1);
    assert_eq!(oem.log_queue.len(), 1);
}

#[test]
fn dispatch_preserves_order_interleaved() {
    let mut oem = OEM6::new();
    let r1 = make_frame_seq(1, 0x80, &ok_response_body(), 1);
    let l1 = make_frame_seq(MessageID::Version.value(), 0, &version_body(1), 2);
    let r2 = make_frame_seq(38, 0x80, &ok_response_body(), 3);
    let l2 = make_frame_seq(MessageID::Version.value(), 0, &version_body(4), 4);

    assert_eq!(oem.process_frame(&r1), FrameOutcome::DeliveredResponse);
    assert_eq!(oem.process_frame(&l1), FrameOutcome::DeliveredLog);
    assert_eq!(oem.process_frame(&r2), FrameOutcome::DeliveredResponse);
    assert_eq!(oem.process_frame(&l2), FrameOutcome::DeliveredLog);

    let (h, _) = oem.response_queue.try_recv().expect("first response present");
    assert_eq!(h.sequence, 1);
    let (h, _) = oem.response_queue.try_recv().expect("second response present");
    assert_eq!(h.sequence, 3);
    assert!(oem.response_queue.try_recv().is_none());

    let (h, _) = oem.log_queue.try_recv().expect("first log present");
    assert_eq!(h.sequence, 2);
    let (h, _) = oem.log_queue.try_recv().expect("second log present");
    assert_eq!(h.sequence, 4);
    assert!(oem.log_queue.try_recv().is_none());
}

#[test]
fn malformed_frames_dropped_without_disrupting_later_ones() {
    let mut oem = OEM6::new();

    // Corrupted CRC.
    let mut bad_crc = make_frame(MessageID::Version.value(), 0, &version_body(1));
    let last = bad_crc.len() - 1;
    bad_crc[last] ^= 0x01;
    assert_eq!(oem.process_frame(&bad_crc), FrameOutcome::BadCrc);
    assert_eq!(oem.log_queue.len(), 0);
    assert_eq!(oem.response_queue.len(), 0);

    // Truncated header.
    let whole = make_frame(MessageID::Version.value(), 0, &version_body(1));
    assert_eq!(oem.process_frame(&whole[..20].to_vec()), FrameOutcome::BadHeader);

    // A frame cut short after a well-formed header.
    assert_eq!(oem.process_frame(&whole[..30].to_vec()), FrameOutcome::BadLength);

    // A spurious sync sequence followed by garbage.
    let mut spurious = vec![0xAA, 0x44, 0x12];
    spurious.extend_from_slice(&[0x55; 25]);
    assert_eq!(oem.process_frame(&spurious), FrameOutcome::BadHeader);

    // Corrupted payload byte under an intact CRC field.
    let mut bad_body = make_frame(MessageID::Version.value(), 0, &version_body(1));
    bad_body[30] ^= 0x40;
    assert_eq!(oem.process_frame(&bad_body), FrameOutcome::BadCrc);

    assert_eq!(oem.log_queue.len(), 0);
    assert_eq!(oem.response_queue.len(), 0);

    // A subsequent valid frame is still delivered and consumed.
    assert_eq!(oem.process_frame(&whole), FrameOutcome::DeliveredLog);
    match oem.get_log() {
        Ok(Log::Version(v)) => assert_eq!(v.num_components, 1),
        _ => panic!("the valid frame after the noise must still parse"),
    }
}

#[test]
fn full_queue_fails_delivery_loudly() {
    let mut oem = OEM6::new();
    let log = make_frame(MessageID::Version.value(), 0, &version_body(9));
    for _ in 0..QUEUE_CAPACITY {
        assert_eq!(oem.process_frame(&log), FrameOutcome::DeliveredLog);
    }
    assert_eq!(oem.process_frame(&log), FrameOutcome::QueueFull);
    assert_eq!(oem.log_queue.len(), QUEUE_CAPACITY);
    // The response queue is unaffected and still accepts deliveries.
    let response = make_frame(1, 0x80, &ok_response_body());
    assert_eq!(oem.process_frame(&response), FrameOutcome::DeliveredResponse);
}

#[test]
fn correlation_matching_response_succeeds() {
    let mut oem = OEM6::new();
    let request = oem.request_version();
    assert_eq!(&request[..3], &[0xAA, 0x44, 0x12]);
    // The device acknowledges the log request: response bit set, the log
    // command's identifier, and an accepted result code.
    let response = make_frame(MessageID::Log.value(), 0x80, &ok_response_body());
    assert_eq!(oem.process_frame(&response), FrameOutcome::DeliveredResponse);
    assert!(oem.get_response(MessageID::Log).is_ok());
}

#[test]
fn correlation_mismatched_id_reports_mismatch() {
    let mut oem = OEM6::new();
    let _request = oem.request_version();
    let response = make_frame(MessageID::UnlogAll.value(), 0x80, &ok_response_body());
    assert_eq!(oem.process_frame(&response), FrameOutcome::DeliveredResponse);
    match oem.get_response(MessageID::Log) {
        Err(OEMError::ResponseMismatch) => {},
        other => panic!("expected a mismatch report, got {:?}", other),
    }
}

#[test]
fn correlation_nothing_delivered_reports_no_response() {
    let mut oem = OEM6::new();
    let _request = oem.request_version();
    match oem.get_response(MessageID::Log) {
        Err(OEMError::NoResponse) => {},
        other => panic!("expected a no-response report, got {:?}", other),
    }
}

#[test]
fn correlation_device_rejection_reports_command_error() {
    let mut oem = OEM6::new();
    let mut body = 2u32.to_le_bytes().to_vec();
    body.extend_from_slice(b"INVALID MESSAGE ID");
    let response = make_frame(MessageID::Log.value(), 0x80, &body);
    assert_eq!(oem.process_frame(&response), FrameOutcome::DeliveredResponse);
    match oem.get_response(MessageID::Log) {
        Err(OEMError::CommandError { id, description }) => {
            assert_eq!(id, ResponseID::InvalidMessageId);
            assert_eq!(description, "INVALID MESSAGE ID");
        },
        other => panic!("expected a command error, got {:?}", other),
    }
}

#[test]
fn correlation_rejects_unflagged_or_unparsable_items() {
    let mut oem = OEM6::new();
    // Defensive path: an item without the response flag in the response
    // queue yields a no-response report.
    let h = sample_header(MessageID::Log.value(), 0, 6, 0);
    assert!(oem.response_queue.try_send(h, ok_response_body()));
    match oem.get_response(MessageID::Log) {
        Err(OEMError::NoResponse) => {},
        other => panic!("expected a no-response report, got {:?}", other),
    }
    // A response body too short to parse yields the same.
    let h = sample_header(MessageID::Log.value(), 0x80, 2, 0);
    assert!(oem.response_queue.try_send(h, vec![1, 0]));
    match oem.get_response(MessageID::Log) {
        Err(OEMError::NoResponse) => {},
        other => panic!("expected a no-response report, got {:?}", other),
    }
}

#[test]
fn correlation_consumes_one_response_per_call() {
    let mut oem = OEM6::new();
    let stale = make_frame(MessageID::UnlogAll.value(), 0x80, &ok_response_body());
    let fresh = make_frame(MessageID::Log.value(), 0x80, &ok_response_body());
    assert_eq!(oem.process_frame(&stale), FrameOutcome::DeliveredResponse);
    assert_eq!(oem.process_frame(&fresh), FrameOutcome::DeliveredResponse);
    // The stale response is consumed and reported; the next call finds the
    // matching one.
    assert!(matches!(oem.get_response(MessageID::Log), Err(OEMError::ResponseMismatch)));
    assert!(oem.get_response(MessageID::Log).is_ok());
    assert_eq!(oem.response_queue.len(), 0);
}

#[test]
fn end_to_end_position_request() {
    let mut oem = OEM6::new();
    let request = oem.request_position(1.0f64.to_bits(), 0.0f64.to_bits(), false);

    // The serialized log request targets BestXYZ on-time every second.
    let h = Header::parse(&request[..28]).expect("request header must parse");
    assert_eq!(h.msg_id, MessageID::Log.value());
    assert_eq!(h.msg_len, 32);
    assert_eq!(&request[28..32], &32u32.to_le_bytes());
    assert_eq!(&request[32..34], &MessageID::BestXYZ.value().to_le_bytes());
    assert_eq!(&request[36..40], &2u32.to_le_bytes());
    assert_eq!(&request[40..48], &1.0f64.to_le_bytes());
    assert_eq!(&request[48..56], &0.0f64.to_le_bytes());
    assert_eq!(&request[56..60], &0u32.to_le_bytes());
    let crc = compute_crc(&request[3..request.len() - 4]);
    assert_eq!(&request[request.len() - 4..], &crc.to_le_bytes());

    // The device acknowledges; the call completes with no error.
    let response = make_frame(MessageID::Log.value(), 0x80, &ok_response_body());
    assert_eq!(oem.process_frame(&response), FrameOutcome::DeliveredResponse);
    assert!(oem.get_response(MessageID::Log).is_ok());
}

#[test]
fn get_log_returns_first_parsable_log() {
    let mut oem = OEM6::new();
    // An unrecognized log identifier is skipped...
    let unknown = make_frame(999, 0, &[1, 2]);
    assert_eq!(oem.process_frame(&unknown), FrameOutcome::DeliveredLog);
    // ...a misrouted response-flagged item is skipped...
    let h = sample_header(1, 0x80, 6, 0);
    assert!(oem.log_queue.try_send(h, ok_response_body()));
    // ...and the first parsable log is returned.
    let version = make_frame(MessageID::Version.value(), 0, &version_body(7));
    assert_eq!(oem.process_frame(&version), FrameOutcome::DeliveredLog);
    match oem.get_log() {
        Ok(Log::Version(v)) => assert_eq!(v.num_components, 7),
        other => panic!("expected the version log, got {:?}", other.map(|_| ())),
    }
    assert_eq!(oem.log_queue.len(), 0);
}

#[test]
fn get_log_exhausted_queue_reports_failure() {
    let mut oem = OEM6::new();
    match oem.get_log() {
        Err(OEMError::NoResponse) => {},
        _ => panic!("an exhausted log queue must report failure, not hang"),
    }
}

#[test]
fn get_log_consumes_in_arrival_order() {
    let mut oem = OEM6::new();
    let first = make_frame(MessageID::Version.value(), 0, &version_body(1));
    let mut body = 0u32.to_le_bytes().to_vec();
    body.extend_from_slice(&3u32.to_le_bytes());
    body.extend_from_slice(&1u32.to_le_bytes());
    body.extend_from_slice(b"EVENT");
    let second = make_frame(MessageID::RxStatusEvent.value(), 0, &body);
    assert_eq!(oem.process_frame(&first), FrameOutcome::DeliveredLog);
    assert_eq!(oem.process_frame(&second), FrameOutcome::DeliveredLog);
    match oem.get_log() {
        Ok(Log::Version(v)) => assert_eq!(v.num_components, 1),
        _ => panic!("the first delivered log must come out first"),
    }
    match oem.get_log() {
        Ok(Log::RxStatusEvent(e)) => {
            assert_eq!(e.bit, 3);
            assert_eq!(e.description, "EVENT");
        },
        _ => panic!("the second delivered log must come out second"),
    }
}

#[test]
fn error_variants_are_distinct() {
    let errors = vec![
        OEMError::GenericError,
        OEMError::ResponseMismatch,
        OEMError::NoResponse,
        OEMError::CommandError { id: ResponseID::Unknown, description: String::from("rejected") },
        OEMError::UnknownMessage { id: 999 },
        OEMError::TransportError { description: String::from("device unplugged") },
    ];
    assert!(matches!(errors[0], OEMError::GenericError));
    assert!(matches!(errors[1], OEMError::ResponseMismatch));
    assert!(matches!(errors[2], OEMError::NoResponse));
    assert!(matches!(errors[3], OEMError::CommandError { .. }));
    assert!(matches!(errors[4], OEMError::UnknownMessage { id: 999 }));
    assert!(matches!(errors[5], OEMError::TransportError { .. }));
}

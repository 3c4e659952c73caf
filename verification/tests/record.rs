use wasmrs::error::Error;
use wasmrs::frame::Frame;
use wasmrs::header::FLAG_NEXT;
use wasmrs::payload::Payload;
use wasmrs::record::{
    get_records, write_incoming_record, write_outgoing_record, FrameRecord, FrameRecords,
};
use wasmrs::socket::SocketSide;

#[test]
fn records_keep_order_and_drain() {
    let mut records = FrameRecords::new();
    write_outgoing_record(&mut records, SocketSide::Guest, &Frame::new_cancel(3));
    write_incoming_record(&mut records, SocketSide::Host, &Frame::new_request_n(4, 2, 0));
    assert_eq!(records.frames.len(), 2);
    let taken = get_records(&mut records);
    assert!(records.frames.is_empty());
    assert_eq!(taken.len(), 2);
    assert!(taken[0].is_outgoing());
    assert!(!taken[0].is_incoming());
    assert!(taken[1].is_incoming());
    assert_eq!(taken[0].stream_id(), 3);
    assert_eq!(taken[1].stream_id(), 4);
    assert_eq!(taken[0].side(), "guest");
    assert_eq!(taken[1].side(), "host");
    assert_eq!(taken[0].dir(), "out");
    assert_eq!(taken[1].dir(), "in");
    assert_eq!(taken[0].label(), "s3-guest-out");
    assert_eq!(taken[1].label(), "s4-host-in");
}

#[test]
fn record_base64_text_exact() {
    let mut records = FrameRecords::new();
    write_outgoing_record(&mut records, SocketSide::Guest, &Frame::new_cancel(1));
    // Bytes 00 00 00 01 24 00.
    assert_eq!(records.frames[0].encoded(), "AAAAASQA");
}

#[test]
fn record_decodes_back() {
    let mut records = FrameRecords::new();
    let frame = Frame::new_payload(7, Payload::new(vec![9], b"abc".to_vec()), FLAG_NEXT);
    write_outgoing_record(&mut records, SocketSide::Host, &frame);
    match records.frames[0].frame().unwrap() {
        Frame::PayloadFrame(p) => {
            assert_eq!(p.stream_id, 7);
            assert_eq!(p.metadata, vec![9]);
            assert_eq!(p.data, b"abc".to_vec());
            assert!(p.next);
        }
        _ => panic!("expected a payload frame"),
    }
    let error = Frame::new_error(2, 0x201, "failure");
    write_incoming_record(&mut records, SocketSide::Guest, &error);
    match records.frames[1].frame().unwrap() {
        Frame::ErrorFrame(e) => assert_eq!(e.data, "failure"),
        _ => panic!("expected an error frame"),
    }
}

#[test]
fn record_bad_base64() {
    let record = FrameRecord::Incoming {
        side: SocketSide::Guest,
        stream_id: 1,
        frame: "!!!".to_owned(),
    };
    assert!(matches!(record.try_frame(), Some(Err(Error::Record(_)))));
    assert!(matches!(record.frame(), Err(Error::Record(_))));
}

#[test]
fn record_undecodable_bytes() {
    // "AAAA" is the bytes 00 00 00, too short for a header.
    let record = FrameRecord::Outgoing {
        side: SocketSide::Host,
        stream_id: 0,
        frame: "AAAA".to_owned(),
    };
    assert!(record.try_frame().is_none());
}

#[test]
fn record_bad_utf8_error_frame() {
    // 00 00 00 01 2c 00 00 00 00 01 ff: an ERROR frame whose text is not UTF-8.
    let record = FrameRecord::Outgoing {
        side: SocketSide::Host,
        stream_id: 1,
        frame: "AAAAASwAAAAAAf8=".to_owned(),
    };
    match record.try_frame() {
        Some(Err(Error::Record(m))) => assert_eq!(m, "Frame data is not valid UTF-8"),
        _ => panic!("expected a record error"),
    }
}

#[test]
fn record_dump_file_name() {
    let record = FrameRecord::Outgoing { side: SocketSide::Guest, stream_id: 1, frame: String::new() };
    assert_eq!(record.dump_file_name(7), "s1-n007-guest-out.frame");
    let record = FrameRecord::Incoming { side: SocketSide::Host, stream_id: 22, frame: String::new() };
    assert_eq!(record.dump_file_name(42), "s22-n042-host-in.frame");
    assert_eq!(record.dump_file_name(1234), "s22-n1234-host-in.frame");
}

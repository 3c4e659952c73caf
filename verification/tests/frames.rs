use wasmrs::error::Error;
use wasmrs::frame::{ErrorFrame, Frame};
use wasmrs::header::{
    FrameHeader, FLAG_COMPLETE, FLAG_FOLLOW, FLAG_IGNORE, FLAG_METADATA, FLAG_NEXT, REQUEST_MAX,
};
use wasmrs::kinds::{ErrorCode, FrameFlag, FrameType};
use wasmrs::payload::{Metadata, Payload};

fn error_frame_bytes() -> Vec<u8> {
    let mut bytes = vec![0u8, 0, 4, 210, 0x2c, 0];
    bytes.extend_from_slice(&[0, 0, 0, 11]);
    bytes.extend_from_slice(b"errstr");
    bytes
}

#[test]
fn test_new_header() {
    let header = FrameHeader::new(2147483647, FrameType::Payload, FLAG_COMPLETE);
    assert_eq!(header.stream_id(), 2147483647);
    assert_eq!(header.frame_type().into_u32(), FrameType::Payload.into_u32());
    assert!(header.has_complete());
    assert!(!header.has_next());
    assert!(!header.has_metadata());
    assert!(!header.has_follows());
    assert!(!header.has_ignore());
}

#[test]
fn test_header() {
    let header = FrameHeader::from_bytes(vec![0u8, 0, 4, 210, 25, 0]);
    assert!(header.has_metadata());
}

#[test]
fn test_header_no_flags() {
    let header = FrameHeader::new(0, FrameType::RequestStream, 0);
    assert!(!header.has_metadata());
    assert!(!header.has_next());
    assert!(!header.has_complete());
    assert!(!header.has_metadata());
    assert!(!header.has_ignore());
}

#[test]
fn test_header_metadata() {
    let header = FrameHeader::new(0, FrameType::RequestStream, FLAG_METADATA);
    assert!(header.has_metadata());
    assert!(!header.has_next());
    assert!(!header.has_complete());
    assert!(!header.has_follows());
    assert!(!header.has_ignore());
}

#[test]
fn test_header_next() {
    let header = FrameHeader::new(0, FrameType::RequestStream, FLAG_NEXT);
    assert!(!header.has_metadata());
    assert!(header.has_next());
    assert!(!header.has_complete());
    assert!(!header.has_follows());
    assert!(!header.has_ignore());
}

#[test]
fn test_header_complete() {
    let header = FrameHeader::new(0, FrameType::RequestStream, FLAG_COMPLETE);
    assert!(!header.has_metadata());
    assert!(!header.has_next());
    assert!(header.has_complete());
    assert!(!header.has_follows());
    assert!(!header.has_ignore());
}

#[test]
fn test_header_ignore() {
    let header = FrameHeader::new(0, FrameType::RequestStream, FLAG_IGNORE);
    assert!(!header.has_metadata());
    assert!(!header.has_next());
    assert!(!header.has_complete());
    assert!(!header.has_follows());
    assert!(header.has_ignore());
}

#[test]
fn test_header_follows() {
    let header = FrameHeader::new(0, FrameType::RequestStream, FLAG_FOLLOW);
    assert!(!header.has_metadata());
    assert!(!header.has_next());
    assert!(!header.has_complete());
    assert!(header.has_follows());
    assert!(!header.has_ignore());
}

#[test]
fn header_bytes_exact() {
    let header = FrameHeader::new(1234, FrameType::Error, 0);
    assert_eq!(header.encode(), vec![0u8, 0, 4, 210, 0x2c, 0]);
    let header = FrameHeader::new(7, FrameType::Payload, FLAG_NEXT | FLAG_COMPLETE);
    assert_eq!(header.encode(), vec![0u8, 0, 0, 7, 0x28, 0x60]);
}

#[test]
fn header_stream_id_masks_top_bit() {
    let header = FrameHeader::from_bytes(vec![0x80u8, 0, 0, 5, 0x24, 0]);
    assert_eq!(header.stream_id(), 5);
    assert_eq!(header.frame_type(), FrameType::Cancel);
}

#[test]
fn test_decode() {
    let p = ErrorFrame::decode_all(&error_frame_bytes()).unwrap();
    assert_eq!(p.stream_id, 1234);
    assert_eq!(&p.data, "errstr");
    assert_eq!(p.code, 11);
}

#[test]
fn test_encode() {
    let payload = ErrorFrame { stream_id: 1234, data: "errstr".to_owned(), code: 11 };
    let encoded = payload.encode();
    assert_eq!(encoded, error_frame_bytes());
}

#[test]
fn error_frame_wrong_type() {
    let bytes = vec![0u8, 0, 0, 1, 0x24, 0];
    assert!(matches!(ErrorFrame::decode_all(&bytes), Err(Error::WrongType)));
}

#[test]
fn error_frame_invalid_utf8() {
    let mut bytes = vec![0u8, 0, 0, 1, 0x2c, 0, 0, 0, 0, 1];
    bytes.push(0xff);
    assert!(matches!(ErrorFrame::decode_all(&bytes), Err(Error::StringConversion)));
    match Frame::decode(bytes) {
        Err((sid, Error::StringConversion)) => assert_eq!(sid, 1),
        _ => panic!("expected a string conversion error"),
    }
}

fn roundtrip(frame: Frame) -> Frame {
    let bytes = frame.encode();
    assert!(Frame::decodable(&bytes));
    Frame::decode(bytes).unwrap()
}

#[test]
fn frame_roundtrip_payload() {
    let payload = Payload::new(vec![1, 2, 3], b"hello".to_vec());
    let frame = Frame::new_payload(9, payload, FLAG_NEXT | FLAG_COMPLETE);
    match roundtrip(frame) {
        Frame::PayloadFrame(f) => {
            assert_eq!(f.stream_id, 9);
            assert_eq!(f.metadata, vec![1, 2, 3]);
            assert_eq!(f.data, b"hello".to_vec());
            assert!(f.next);
            assert!(f.complete);
            assert!(!f.follows);
        }
        _ => panic!("expected a payload frame"),
    }
}

#[test]
fn frame_payload_encoding_exact() {
    let payload = Payload::new(vec![0xaa], vec![0xbb, 0xcc]);
    let bytes = Frame::new_payload(1, payload, FLAG_NEXT).encode();
    assert_eq!(bytes, vec![0u8, 0, 0, 1, 0x29, 0x20, 0, 0, 1, 0xaa, 0xbb, 0xcc]);
}

#[test]
fn frame_roundtrip_requests() {
    let p = Payload::new(vec![0, 0, 0, 3], b"data".to_vec());
    match roundtrip(Frame::new_request_response(5, p, 0)) {
        Frame::RequestResponse(f) => {
            assert_eq!(f.0.stream_id, 5);
            assert_eq!(f.0.metadata, vec![0, 0, 0, 3]);
            assert_eq!(f.0.data, b"data".to_vec());
        }
        _ => panic!("expected a request/response"),
    }
    let p = Payload::new(vec![], b"x".to_vec());
    match roundtrip(Frame::new_request_channel(11, p, FLAG_NEXT, REQUEST_MAX)) {
        Frame::RequestChannel(f) => {
            assert_eq!(f.0.stream_id, 11);
            assert_eq!(f.0.initial_n, REQUEST_MAX);
            assert_eq!(f.0.data, b"x".to_vec());
            assert!(f.0.metadata.is_empty());
        }
        _ => panic!("expected a request/channel"),
    }
    let p = Payload::new(vec![], b"s".to_vec());
    assert!(matches!(roundtrip(Frame::new_request_stream(3, p, 0)), Frame::RequestStream(_)));
    let p = Payload::new(vec![], b"f".to_vec());
    assert!(matches!(roundtrip(Frame::new_request_fnf(3, p, 0)), Frame::RequestFnF(_)));
}

#[test]
fn frame_roundtrip_small_frames() {
    match roundtrip(Frame::new_request_n(4, 17, 0)) {
        Frame::RequestN(f) => {
            assert_eq!(f.stream_id, 4);
            assert_eq!(f.n, 17);
        }
        _ => panic!("expected REQUEST_N"),
    }
    match roundtrip(Frame::new_cancel(6)) {
        Frame::Cancel(f) => assert_eq!(f.stream_id, 6),
        _ => panic!("expected CANCEL"),
    }
    match roundtrip(Frame::new_error(8, 0x201, "boom")) {
        Frame::ErrorFrame(f) => {
            assert_eq!(f.code, 0x201);
            assert_eq!(f.data, "boom");
        }
        _ => panic!("expected ERROR"),
    }
}

#[test]
fn frame_accessors() {
    let frame = Frame::new_payload(12, Payload::new(vec![1], vec![2]), FLAG_NEXT);
    assert_eq!(frame.stream_id(), 12);
    assert_eq!(frame.frame_type(), FrameType::Payload);
    assert_eq!(frame.get_flag(), FLAG_METADATA | FLAG_NEXT);
    let frame = Frame::new_error(1, 2, "e");
    assert_eq!(frame.get_flag(), 0);
    assert_eq!(frame.frame_type(), FrameType::Error);
}

#[test]
fn frame_decodable_rejects_short_and_unknown() {
    assert!(!Frame::decodable(&[0, 0, 0]));
    assert!(!Frame::decodable(&[0, 0, 0, 1, 0x00, 0]));
    assert!(!Frame::decodable(&[0, 0, 0, 1, 0x20, 0, 0, 0]));
    assert!(Frame::decodable(&[0, 0, 0, 1, 0x24, 0]));
    assert!(!Frame::decodable(&[0, 0, 0, 1, 0x29, 0, 0, 0, 9, 1]));
}

#[test]
fn frame_into_payload_result() {
    let frame = Frame::new_payload(1, Payload::new(vec![1], vec![2]), FLAG_NEXT);
    let p = frame.into_payload_result().unwrap().unwrap();
    assert_eq!(p.metadata, Some(vec![1]));
    assert_eq!(p.data, Some(vec![2]));
    let e = Frame::new_error(1, 7, "bad").into_payload_result().unwrap_err();
    assert_eq!(e.code, 7);
    assert_eq!(e.msg, "bad");
}

#[test]
fn kinds_conversions() {
    assert_eq!(FrameType::try_from(11), Ok(FrameType::Error));
    assert_eq!(FrameType::try_from(63), Ok(FrameType::Ext));
    assert_eq!(FrameType::try_from(20).unwrap_err(), "20 is not a valid index for FrameType");
    assert_eq!(FrameType::RequestChannel.into_u32(), 7);
    assert_eq!(FrameType::RequestN.name(), "REQUEST_N");
    assert_eq!(FrameFlag::try_from(3), Ok(FrameFlag::Next));
    assert_eq!(FrameFlag::try_from(5).unwrap_err(), "5 is not a valid index for FrameFlag");
    assert_eq!(ErrorCode::ApplicationError.into_u32(), 0x201);
    assert_eq!(ErrorCode::try_from(0x203), Ok(ErrorCode::Canceled));
    assert!(ErrorCode::try_from(5).is_err());
}

#[test]
fn payload_metadata_index() {
    let md = Metadata::new(0x01020304);
    assert_eq!(md.encode(), vec![1, 2, 3, 4]);
    let p = Payload::new(md.encode(), vec![]);
    assert_eq!(p.parse_metadata().unwrap().index, 0x01020304);
    let p = Payload::new_data(None, Some(vec![1]));
    assert!(matches!(p.parse_metadata(), Err(Error::MetadataNotFound)));
}

#[test]
fn header_describe() {
    let header = FrameHeader::new(3, FrameType::Payload, FLAG_NEXT | FLAG_COMPLETE);
    assert_eq!(header.describe(), "FrameHeader{id=3,type=PAYLOAD,flag=N|CL}");
    let header = FrameHeader::new(0, FrameType::RequestStream, 0);
    assert_eq!(header.describe(), "FrameHeader{id=0,type=REQUEST_STREAM,flag=}");
    let header = FrameHeader::from_bytes(vec![0u8, 0, 4, 210, 25, 0]);
    assert_eq!(header.describe(), "FrameHeader{id=1234,type=REQUEST_STREAM,flag=M}");
}

#[test]
fn test_payload_header() {
    // A PAYLOAD frame that carries metadata.
    let frame = Frame::new_payload(1, Payload::new(vec![0, 0, 0, 1], b"data".to_vec()), FLAG_NEXT)
        .encode();
    let header = FrameHeader::from_bytes(frame[0..6].to_vec());
    assert!(header.has_metadata());
}

use wasmrs::error::PayloadError;
use wasmrs::frame::Frame;
use wasmrs::guest::{
    guest_answer_frame, handler_failed_frame, host_buffer_bytes, metadata_ok, parse_metadata,
    read_data, read_string, Error, Fragment, GuestAction, GuestMetadata, GuestState,
    HandlerRegistry, OperationKind,
};
use wasmrs::header::{FLAG_COMPLETE, FLAG_FOLLOW, FLAG_NEXT};
use wasmrs::payload::Payload;

fn md(ns: &str, op: &str, inst: &[u8]) -> Vec<u8> {
    GuestMetadata { namespace: ns.to_owned(), operation: op.to_owned(), instance: inst.to_vec() }
        .encode()
}

#[test]
fn metadata_bytes_exact() {
    assert_eq!(md("ns", "op", &[7]), vec![0, 2, b'n', b's', 0, 2, b'o', b'p', 0, 1, 7]);
}

#[test]
fn metadata_roundtrip() {
    let bytes = md("greeting", "sayHello", b"inst");
    assert!(metadata_ok(&bytes));
    let m = parse_metadata(&bytes).unwrap();
    assert_eq!(m.namespace, "greeting");
    assert_eq!(m.operation, "sayHello");
    assert_eq!(m.instance, b"inst".to_vec());
}

#[test]
fn metadata_chunks() {
    let bytes = vec![0u8, 3, b'a', b'b', b'c', 0xff];
    let (d, n) = read_data(0, &bytes).unwrap();
    assert_eq!(d, b"abc".to_vec());
    assert_eq!(n, 5);
    let (s, n) = read_string(0, &bytes).unwrap();
    assert_eq!(s, "abc");
    assert_eq!(n, 5);
    let bad = vec![0u8, 1, 0xff];
    assert!(matches!(read_string(0, &bad), Err(Error::StringDecode)));
    assert!(metadata_ok(&bad));
    assert!(matches!(parse_metadata(&bad), Err(Error::StringDecode)));
    assert!(!metadata_ok(&[0u8, 5, 1]));
    assert!(!metadata_ok(&[0u8, 1, b'a']));
}

#[test]
fn guest_stream_ids() {
    let mut g = GuestState::new();
    assert_eq!(g.next_stream_id(), 2);
    assert_eq!(g.next_stream_id(), 4);
}

#[test]
fn guest_fragments_reassemble() {
    let mut g = GuestState::new();
    g.new_stream(3);
    let m = md("a", "b", &[]);
    let (m1, m2) = m.split_at(3);
    let first = Frame::new_payload(3, Payload::new(m1.to_vec(), b"he".to_vec()), FLAG_FOLLOW);
    let out = g.handle_frame(first, &HandlerRegistry::new());
    assert!(matches!(out.action, GuestAction::Nothing));
    let second =
        Frame::new_payload(3, Payload::new(m2.to_vec(), b"llo".to_vec()), FLAG_NEXT | FLAG_COMPLETE);
    let out = g.handle_frame(second, &HandlerRegistry::new());
    match out.action {
        GuestAction::Deliver(p) => {
            assert_eq!(p.stream_id, 3);
            assert_eq!(p.data, b"hello".to_vec());
            assert_eq!(p.metadata.namespace, "a");
            assert_eq!(p.metadata.operation, "b");
        }
        _ => panic!("expected a delivery"),
    }
    assert_eq!(out.ended, Some(true));
    assert!(!g.get_stream(3));
    assert!(g.get_fragment(3).is_none());
}

#[test]
fn guest_fragment_store() {
    let mut g = GuestState::new();
    g.update_fragment(1, Fragment { metadata: vec![1], data: vec![2] });
    g.update_fragment(1, Fragment { metadata: vec![3], data: vec![4] });
    let f = g.get_fragment(1).unwrap();
    assert_eq!(f.metadata, vec![1, 3]);
    assert_eq!(f.data, vec![2, 4]);
}

#[test]
fn guest_requests_and_ends() {
    let mut g = GuestState::new();
    let mut handlers = HandlerRegistry::new();
    handlers.register(OperationKind::RequestResponse, "ns".to_owned(), "op".to_owned(), 3);
    let req = Frame::new_request_response(5, Payload::new(md("ns", "op", &[]), b"x".to_vec()), 0);
    match g.handle_frame(req, &handlers).action {
        GuestAction::RequestResponse { stream_id, handler, metadata, data, .. } => {
            assert_eq!(stream_id, 5);
            assert_eq!(handler, 3);
            assert_eq!(metadata.operation, "op");
            assert_eq!(data, b"x".to_vec());
        }
        _ => panic!("expected a request/response"),
    }
    assert!(g.get_stream(5));
    let req = Frame::new_request_response(6, Payload::new(md("ns", "other", &[]), vec![]), 0);
    assert!(matches!(g.handle_frame(req, &handlers).action, GuestAction::Failed(Error::NoHandler)));
    assert!(!g.get_stream(6));
    let req = Frame::new_request_stream(7, Payload::new(md("ns", "op", &[]), vec![]), 0);
    assert!(matches!(g.handle_frame(req, &handlers).action, GuestAction::Failed(Error::NoHandler)));
    let req = Frame::new_request_stream(7, Payload::new(vec![0, 1, 0xff], vec![]), 0);
    assert!(matches!(
        g.handle_frame(req, &handlers).action,
        GuestAction::Failed(Error::StringDecode)
    ));
    g.new_stream(9);
    let out = g.handle_frame(Frame::new_error(9, 0x201, "bad"), &handlers);
    match out.action {
        GuestAction::Error { stream_id, error } => {
            assert_eq!(stream_id, 9);
            assert_eq!(error.msg, "bad");
        }
        _ => panic!("expected an error"),
    }
    assert_eq!(out.ended, Some(true));
    assert_eq!(g.handle_frame(Frame::new_cancel(9), &handlers).ended, Some(false));
}

#[test]
fn guest_answers() {
    match guest_answer_frame(4, vec![1], Ok(vec![2])) {
        Frame::PayloadFrame(p) => {
            assert_eq!(p.metadata, vec![1]);
            assert_eq!(p.data, vec![2]);
            assert!(!p.next && !p.complete && !p.follows);
        }
        _ => panic!("expected a payload"),
    }
    match guest_answer_frame(4, vec![], Err(PayloadError::new(9, "no".to_owned()))) {
        Frame::ErrorFrame(e) => {
            assert_eq!(e.code, 9);
            assert_eq!(e.data, "no");
        }
        _ => panic!("expected an error"),
    }
    assert_eq!(host_buffer_bytes(&[5, 6]), vec![0, 0, 0, 2, 5, 6]);
}

#[test]
fn handler_registry() {
    let mut handlers = HandlerRegistry::new();
    let ns = "greeting".to_owned();
    let op = "sayHello".to_owned();
    assert_eq!(handlers.lookup(OperationKind::RequestResponse, &ns, &op), None);
    handlers.register(OperationKind::RequestResponse, ns.clone(), op.clone(), 1);
    handlers.register(OperationKind::RequestStream, ns.clone(), op.clone(), 2);
    assert_eq!(handlers.lookup(OperationKind::RequestResponse, &ns, &op), Some(1));
    assert_eq!(handlers.lookup(OperationKind::RequestStream, &ns, &op), Some(2));
    handlers.register(OperationKind::RequestResponse, ns.clone(), op.clone(), 5);
    assert_eq!(handlers.lookup(OperationKind::RequestResponse, &ns, &op), Some(5));
    assert_eq!(handlers.lookup(OperationKind::RequestResponse, &ns, &"x".to_owned()), None);
}

#[test]
fn handler_failure_frame() {
    match handler_failed_frame(4, &Error::HandlerFail("boom".to_owned())) {
        Frame::ErrorFrame(e) => {
            assert_eq!(e.stream_id, 4);
            assert_eq!(e.code, 0x201);
            assert_eq!(e.data, "Error");
        }
        _ => panic!("expected an error frame"),
    }
}

use wasmrs::error::PayloadError;
use wasmrs::frame::Frame;
use wasmrs::header::{FLAG_COMPLETE, FLAG_NEXT, REQUEST_MAX};
use wasmrs::payload::Payload;
use wasmrs::socket::{
    app_error_frame, complete_frame, response_frame, stream_item_frame, Dispatch, HandlerKind,
    RequestNOutcome, SocketSide, SocketState,
};

fn data_of(p: &Payload) -> Vec<u8> {
    p.data.clone().unwrap_or_default()
}

#[test]
fn stream_ids_by_side() {
    let mut guest = SocketState::new(SocketSide::Guest);
    let mut host = SocketState::new(SocketSide::Host);
    assert_eq!(guest.next_stream_id(), 1);
    assert_eq!(guest.next_stream_id(), 3);
    assert_eq!(guest.next_stream_id(), 5);
    assert_eq!(host.next_stream_id(), 2);
    assert_eq!(host.next_stream_id(), 4);
    assert_eq!(SocketSide::Guest.name(), "guest");
    assert_eq!(host.side().name(), "host");
}

#[test]
fn test_reqres() {
    let mut guest = SocketState::new(SocketSide::Guest);
    let mut host = SocketState::new(SocketSide::Host);
    let request = guest.request_response(Payload::new(vec![], b"REQRES".to_vec()));
    assert_eq!(request.stream_id(), 1);
    assert_eq!(guest.handler(1), Some(HandlerKind::RequestResponse));
    let wire = Frame::decode(request.encode()).unwrap();
    let (sid, payload) = match host.process_once(wire, true) {
        Dispatch::RequestResponse { stream_id, payload } => (stream_id, payload),
        _ => panic!("expected a request/response"),
    };
    assert_eq!(sid, 1);
    let answer = response_frame(sid, Ok(payload));
    let wire = Frame::decode(answer.encode()).unwrap();
    match guest.process_once(wire, true) {
        Dispatch::Payload { stream_id, payload_outcome } => {
            assert_eq!(stream_id, 1);
            assert!(payload_outcome.known);
            assert!(payload_outcome.removed);
            assert_eq!(data_of(&payload_outcome.deliver.unwrap()), b"REQRES".to_vec());
        }
        _ => panic!("expected a payload"),
    }
    assert_eq!(guest.handler(1), None);
    let again = Frame::new_payload(1, Payload::new(vec![], b"late".to_vec()), FLAG_NEXT);
    match guest.process_once(again, true) {
        Dispatch::Payload { payload_outcome, .. } => {
            assert!(!payload_outcome.known);
            assert!(payload_outcome.deliver.is_none());
        }
        _ => panic!("expected a payload"),
    }
}

#[test]
fn request_stream_two_items() {
    let mut guest = SocketState::new(SocketSide::Guest);
    let request = guest.request_stream(Payload::new(vec![], b"REQ_STR".to_vec()));
    assert!(matches!(request, Frame::RequestStream(_)));
    let sid = request.stream_id();
    for _ in 0..2 {
        let item = stream_item_frame(sid, Ok(Payload::new(vec![], b"REQ_STR".to_vec())));
        match guest.process_once(item, true) {
            Dispatch::Payload { payload_outcome, .. } => {
                assert!(!payload_outcome.removed);
                assert_eq!(data_of(&payload_outcome.deliver.unwrap()), b"REQ_STR".to_vec());
            }
            _ => panic!("expected a payload"),
        }
    }
    match guest.process_once(complete_frame(sid), true) {
        Dispatch::Payload { payload_outcome, .. } => {
            assert!(payload_outcome.removed);
            assert!(payload_outcome.deliver.is_none());
        }
        _ => panic!("expected a payload"),
    }
    assert_eq!(guest.handler(sid), None);
}

#[test]
fn stream_receiver_gone_cancels() {
    let mut guest = SocketState::new(SocketSide::Guest);
    let sid = guest.request_stream(Payload::empty()).stream_id();
    let item = Frame::new_payload(sid, Payload::new(vec![], vec![1]), FLAG_NEXT);
    match guest.process_once(item, false) {
        Dispatch::Payload { payload_outcome, .. } => {
            assert!(payload_outcome.deliver.is_none());
            assert!(matches!(payload_outcome.reply, Some(Frame::Cancel(_))));
        }
        _ => panic!("expected a payload"),
    }
}

#[test]
fn test_fnf() {
    let mut guest = SocketState::new(SocketSide::Guest);
    let mut host = SocketState::new(SocketSide::Host);
    let frame = guest.fire_and_forget(Payload::new(vec![], b"FNF".to_vec()));
    assert_eq!(guest.handler(1), None);
    match host.process_once(frame, true) {
        Dispatch::FireAndForget { stream_id, payload } => {
            assert_eq!(stream_id, 1);
            assert_eq!(data_of(&payload), b"FNF".to_vec());
        }
        _ => panic!("expected fire and forget"),
    }
}

#[test]
fn request_channel_flow() {
    let mut guest = SocketState::new(SocketSide::Guest);
    let mut host = SocketState::new(SocketSide::Host);
    let mut writer = guest.request_channel();
    let sid = writer.stream_id();
    assert_eq!(sid, 1);
    assert!(guest.has_channel(sid));
    let (first, wait) = writer.on_item(Ok(Payload::new(vec![], b"REQCHANNEL1".to_vec())));
    assert!(wait);
    match &first {
        Frame::RequestChannel(f) => {
            assert_eq!(f.0.initial_n, REQUEST_MAX);
            assert_eq!(f.0.data, b"REQCHANNEL1".to_vec());
        }
        _ => panic!("expected REQUEST_CHANNEL"),
    }
    match host.process_once(first, true) {
        Dispatch::RequestChannel { stream_id, payload } => {
            assert_eq!(stream_id, 1);
            assert_eq!(data_of(&payload), b"REQCHANNEL1".to_vec());
        }
        _ => panic!("expected a channel"),
    }
    assert_eq!(host.handler(1), Some(HandlerKind::RequestChannel));
    match guest.process_once(Frame::new_request_n(1, REQUEST_MAX, 0), true) {
        Dispatch::RequestN { request_n_outcome: RequestNOutcome::Forward(n), .. } => {
            writer.on_request_n(n)
        }
        _ => panic!("expected a forwarded REQUEST_N"),
    }
    let (second, wait) = writer.on_item(Ok(Payload::new(vec![], b"REQCHANNEL2".to_vec())));
    assert!(!wait);
    assert!(matches!(second, Frame::PayloadFrame(_)));
    let (err, _) = writer.on_item(Err(PayloadError::new(1, "x".to_owned())));
    match err {
        Frame::ErrorFrame(e) => assert_eq!(e.data, "REQUEST_CHANNEL failed"),
        _ => panic!("expected an error"),
    }
    let done = writer.finish(&mut guest);
    assert!(!guest.has_channel(1));
    match done {
        Frame::PayloadFrame(p) => {
            assert!(p.complete);
            assert!(!p.next);
        }
        _ => panic!("expected COMPLETE"),
    }
}

#[test]
fn request_n_rules() {
    let mut state = SocketState::new(SocketSide::Host);
    match state.on_request_n(3, 0) {
        RequestNOutcome::Reject(Frame::ErrorFrame(e)) => {
            assert_eq!(e.data, "Invalid RequestN (n=0)");
            assert_eq!(e.code, 0x201);
        }
        _ => panic!("expected a rejection"),
    }
    match state.on_request_n(3, 5) {
        RequestNOutcome::Reject(Frame::ErrorFrame(e)) => {
            assert_eq!(e.data, "RequestN called for missing Stream ID")
        }
        _ => panic!("expected a rejection"),
    }
    state.register_channel(3);
    assert!(matches!(state.on_request_n(3, 5), RequestNOutcome::Forward(5)));
    state.remove_channel(3);
    assert!(!state.has_channel(3));
}

#[test]
fn cancel_and_error_end_requests() {
    let mut state = SocketState::new(SocketSide::Guest);
    state.register_handler(9, HandlerKind::RequestResponse);
    match state.process_once(Frame::new_cancel(9), true) {
        Dispatch::Cancel { removed, cancel_error, .. } => {
            assert_eq!(removed, Some(HandlerKind::RequestResponse));
            let e = cancel_error.unwrap();
            assert_eq!(e.code, 0x203);
            assert_eq!(e.msg, "Request cancelled");
        }
        _ => panic!("expected a cancel"),
    }
    state.register_handler(11, HandlerKind::RequestStream);
    match state.process_once(Frame::new_error(11, 0x201, ""), true) {
        Dispatch::Error { removed, error, .. } => {
            assert_eq!(removed, Some(HandlerKind::RequestStream));
            assert_eq!(error.msg, "Error frame with no data");
            assert_eq!(error.code, 0x201);
        }
        _ => panic!("expected an error"),
    }
    assert_eq!(state.handler(11), None);
    match state.process_once(Frame::new_error(13, 7, "gone"), true) {
        Dispatch::Error { removed, error, .. } => {
            assert_eq!(removed, None);
            assert_eq!(error.msg, "gone");
        }
        _ => panic!("expected an error"),
    }
}

#[test]
fn answer_frames() {
    match response_frame(4, Err(PayloadError::application_error("bad".to_owned()))) {
        Frame::ErrorFrame(e) => {
            assert_eq!(e.stream_id, 4);
            assert_eq!(e.code, 0x201);
            assert_eq!(e.data, "bad");
        }
        _ => panic!("expected an error"),
    }
    match response_frame(4, Ok(Payload::new(vec![], vec![1]))) {
        Frame::PayloadFrame(p) => {
            assert!(p.next && p.complete);
            assert_eq!(p.get_flag(), FLAG_NEXT | FLAG_COMPLETE);
        }
        _ => panic!("expected a payload"),
    }
    match app_error_frame(2, "oops") {
        Frame::ErrorFrame(e) => assert_eq!(e.data, "oops"),
        _ => panic!("expected an error"),
    }
}

#[test]
fn test_reqstream() {
    let mut guest = SocketState::new(SocketSide::Guest);
    let mut host = SocketState::new(SocketSide::Host);
    let request = guest.request_stream(Payload::new(vec![], b"REQ_STR".to_vec()));
    let wire = Frame::decode(request.encode()).unwrap();
    let (sid, payload) = match host.process_once(wire, true) {
        Dispatch::RequestStream { stream_id, payload } => (stream_id, payload),
        _ => panic!("expected a request/stream"),
    };
    // The echo responder sends the payload twice, then completes.
    let mut answers = vec![
        stream_item_frame(sid, Ok(Payload::new_data(payload.metadata.clone(), payload.data.clone()))),
        stream_item_frame(sid, Ok(payload)),
    ];
    answers.push(complete_frame(sid));
    let mut received = vec![];
    for frame in answers {
        let wire = Frame::decode(frame.encode()).unwrap();
        if let Dispatch::Payload { payload_outcome, .. } = guest.process_once(wire, true) {
            if let Some(p) = payload_outcome.deliver {
                received.push(data_of(&p));
            }
        }
    }
    assert_eq!(received, vec![b"REQ_STR".to_vec(), b"REQ_STR".to_vec()]);
    assert_eq!(guest.handler(sid), None);
}

#[test]
fn test_reqchannel() {
    let mut guest = SocketState::new(SocketSide::Guest);
    let mut host = SocketState::new(SocketSide::Host);
    let mut writer = guest.request_channel();
    let mut received = vec![];

    let (first, wait) = writer.on_item(Ok(Payload::new(vec![], b"REQCHANNEL1".to_vec())));
    assert!(wait);
    let wire = Frame::decode(first.encode()).unwrap();
    let (sid, p1) = match host.process_once(wire, true) {
        Dispatch::RequestChannel { stream_id, payload } => (stream_id, payload),
        _ => panic!("expected a request/channel"),
    };
    // The host opens the answer with REQUEST_N and echoes the first item.
    for frame in [channel_request_n(sid), stream_item_frame(sid, Ok(p1))] {
        match guest.process_once(Frame::decode(frame.encode()).unwrap(), true) {
            Dispatch::RequestN { request_n_outcome: RequestNOutcome::Forward(n), .. } => {
                writer.on_request_n(n)
            }
            Dispatch::Payload { payload_outcome, .. } => {
                received.push(data_of(&payload_outcome.deliver.unwrap()))
            }
            _ => panic!("unexpected frame"),
        }
    }
    let (second, wait) = writer.on_item(Ok(Payload::new(vec![], b"REQCHANNEL2".to_vec())));
    assert!(!wait);
    match host.process_once(Frame::decode(second.encode()).unwrap(), true) {
        Dispatch::Payload { payload_outcome, .. } => {
            let p2 = payload_outcome.deliver.unwrap();
            let echo = stream_item_frame(sid, Ok(p2));
            match guest.process_once(Frame::decode(echo.encode()).unwrap(), true) {
                Dispatch::Payload { payload_outcome, .. } => {
                    received.push(data_of(&payload_outcome.deliver.unwrap()))
                }
                _ => panic!("expected a payload"),
            }
        }
        _ => panic!("expected a payload"),
    }
    let done = writer.finish(&mut guest);
    match host.process_once(Frame::decode(done.encode()).unwrap(), true) {
        Dispatch::Payload { payload_outcome, .. } => assert!(payload_outcome.removed),
        _ => panic!("expected a payload"),
    }
    assert_eq!(received, vec![b"REQCHANNEL1".to_vec(), b"REQCHANNEL2".to_vec()]);
}

fn channel_request_n(sid: u32) -> Frame {
    wasmrs::socket::channel_request_n_frame(sid)
}

#[test]
fn channel_credit_limits_items() {
    let mut guest = SocketState::new(SocketSide::Guest);
    let mut writer = guest.request_channel();
    let mut sent = vec![];
    let mut grants = vec![1u32].into_iter();
    for item in [b"a".to_vec(), b"b".to_vec(), b"c".to_vec()] {
        let (frame, wait) = writer.on_item(Ok(Payload::new(vec![], item)));
        sent.push(frame);
        if wait {
            match grants.next() {
                Some(n) => writer.on_request_n(n),
                None => break,
            }
        }
    }
    sent.push(writer.finish(&mut guest));
    assert_eq!(sent.len(), 3);
    assert!(matches!(sent[0], Frame::RequestChannel(_)));
    match &sent[1] {
        Frame::PayloadFrame(p) => {
            assert_eq!(p.data, b"b".to_vec());
            assert!(p.next);
        }
        _ => panic!("expected a payload"),
    }
    match &sent[2] {
        Frame::PayloadFrame(p) => assert!(p.complete && !p.next),
        _ => panic!("expected COMPLETE"),
    }
}

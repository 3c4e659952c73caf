//! The decisions of a wasmRS socket: which stream ids it hands out, which
//! requests wait for answers, and what each received frame causes.
//!
//! A socket runs on channels and tasks of an asynchronous runtime; those stay
//! with its user. This module holds the state that decides: the pending
//! requests by stream id, the channels that accept REQUEST_N, and the stream
//! counter; each function takes an event and gives back what to do.
use vstd::prelude::*;
use std::collections::{HashMap, HashSet};
use crate::error::PayloadError;
use crate::frame::{Frame, FrameView, payload_flags, request_view};
use crate::header::{FrameFlags, FLAG_COMPLETE, FLAG_NEXT, REQUEST_MAX, flag_complete, flag_next, has_flag};
use crate::kinds::{ErrorCode, FrameType, error_code_value};
use crate::payload::{bytes_or_empty, opt_bytes, Payload};

verus! {

broadcast use vstd::std_specs::hash::group_hash_axioms;

/// Which side of the connection a socket is on.
#[derive(Clone, Copy, Debug, PartialEq, Eq, Structural)]
pub enum SocketSide {
    /// A guest-side socket.
    Guest,
    /// A host-side socket.
    Host,
}

impl SocketSide {
    /// The name of the side, as it is displayed.
    pub fn name(&self) -> (r: &'static str)
        ensures
            r@ == (match *self {
                SocketSide::Guest => "guest"@,
                SocketSide::Host => "host"@,
            }),
    {
        match self {
            SocketSide::Guest => "guest",
            SocketSide::Host => "host",
        }
    }
}

/// The first stream id a side hands out: odd ids for the guest, even ids
/// for the host.
pub open spec fn first_stream_id(side: SocketSide) -> u32 {
    match side {
        SocketSide::Guest => 1,
        SocketSide::Host => 2,
    }
}

/// The kind of request a pending stream is waiting on.
#[derive(Clone, Copy, Debug, PartialEq, Eq, Structural)]
pub enum HandlerKind {
    /// A request/response waiting for its single answer.
    RequestResponse,
    /// A request/stream receiving payloads.
    RequestStream,
    /// A request/channel receiving payloads.
    RequestChannel,
}

/// The abstract state of a socket.
pub struct SocketView {
    pub side: SocketSide,
    pub handlers: Map<u32, HandlerKind>,
    pub channels: Set<u32>,
    pub stream_index: u32,
}

/// The deciding state of a socket.
pub struct SocketState {
    side: SocketSide,
    handlers: HashMap<u32, HandlerKind>,
    channels: HashSet<u32>,
    stream_index: u32,
}

impl View for SocketState {
    type V = SocketView;

    closed spec fn view(&self) -> SocketView {
        SocketView {
            side: self.side,
            handlers: self.handlers@,
            channels: self.channels@,
            stream_index: self.stream_index,
        }
    }
}

/// What a received PAYLOAD frame causes.
#[derive(Debug)]
pub struct PayloadOutcome {
    /// Whether a request was waiting on the stream.
    pub known: bool,
    /// The payload to hand to the waiting request.
    pub deliver: Option<Payload>,
    /// A frame to send back (a CANCEL when the receiver is gone).
    pub reply: Option<Frame>,
    /// Whether the waiting request was removed (answered or completed).
    pub removed: bool,
}

/// What a received REQUEST_N frame causes.
#[derive(Debug)]
pub enum RequestNOutcome {
    /// Forward the count to the channel of the stream.
    Forward(u32),
    /// Send this ERROR frame back.
    Reject(Frame),
}

/// What a received frame causes.
#[derive(Debug)]
pub enum Dispatch {
    /// Run the responder's fire-and-forget on the payload.
    FireAndForget { stream_id: u32, payload: Payload },
    /// Run the responder's request/response on the payload.
    RequestResponse { stream_id: u32, payload: Payload },
    /// Run the responder's request/stream on the payload.
    RequestStream { stream_id: u32, payload: Payload },
    /// A channel was opened: its incoming payloads now have a handler; run the
    /// responder's request/channel, starting with this payload.
    RequestChannel { stream_id: u32, payload: Payload },
    /// A payload for a pending request.
    Payload { stream_id: u32, payload_outcome: PayloadOutcome },
    /// The peer cancelled a stream: the pending request that was removed, and
    /// the error to give a request/response.
    Cancel { stream_id: u32, removed: Option<HandlerKind>, cancel_error: Option<PayloadError> },
    /// The peer sent an error: the pending request that was removed, and the
    /// error to give it.
    Error { stream_id: u32, removed: Option<HandlerKind>, error: PayloadError },
    /// The peer requested more items on a channel.
    RequestN { stream_id: u32, request_n_outcome: RequestNOutcome },
}

/// The message of an ERROR frame as it is passed on: the frame's text, or a
/// fixed text when the frame has none.
pub open spec fn error_message(data: Seq<char>) -> Seq<char> {
    if data.len() == 0 {
        "Error frame with no data"@
    } else {
        data
    }
}

impl SocketState {
    /// A new socket state for the given side, with no pending requests.
    pub fn new(side: SocketSide) -> (r: SocketState)
        ensures
            r@.side == side,
            r@.handlers == Map::<u32, HandlerKind>::empty(),
            r@.channels == Set::<u32>::empty(),
            r@.stream_index == first_stream_id(side),
    {
        let first = match side {
            SocketSide::Guest => 1,
            SocketSide::Host => 2,
        };
        SocketState {
            side,
            handlers: HashMap::new(),
            channels: HashSet::new(),
            stream_index: first,
        }
    }

    /// The side of the socket.
    pub fn side(&self) -> (r: SocketSide)
        ensures
            r == self@.side,
    {
        self.side
    }

    /// Hands out the next stream id; ids advance by two, wrapping around.
    pub fn next_stream_id(&mut self) -> (r: u32)
        ensures
            r == old(self)@.stream_index,
            final(self)@ == (SocketView {
                stream_index: old(self)@.stream_index.wrapping_add(2),
                ..old(self)@
            }),
    {
        let id = self.stream_index;
        self.stream_index = self.stream_index.wrapping_add(2);
        id
    }

    /// The kind of request pending on a stream, if any.
    pub fn handler(&self, stream_id: u32) -> (r: Option<HandlerKind>)
        ensures
            r == (if self@.handlers.contains_key(stream_id) {
                Some(self@.handlers[stream_id])
            } else {
                None
            }),
    {
        match self.handlers.get(&stream_id) {
            Some(k) => Some(*k),
            None => None,
        }
    }

    /// Registers a pending request on a stream, replacing any earlier one.
    pub fn register_handler(&mut self, stream_id: u32, kind: HandlerKind)
        ensures
            final(self)@ == (SocketView {
                handlers: old(self)@.handlers.insert(stream_id, kind),
                ..old(self)@
            }),
    {
        self.handlers.insert(stream_id, kind);
    }

    /// Removes the pending request of a stream, giving back its kind.
    pub fn remove_handler(&mut self, stream_id: u32) -> (r: Option<HandlerKind>)
        ensures
            r == (if old(self)@.handlers.contains_key(stream_id) {
                Some(old(self)@.handlers[stream_id])
            } else {
                None
            }),
            final(self)@ == (SocketView {
                handlers: old(self)@.handlers.remove(stream_id),
                ..old(self)@
            }),
    {
        self.handlers.remove(&stream_id)
    }

    /// Registers a REQUEST_N channel for a stream.
    pub fn register_channel(&mut self, stream_id: u32)
        ensures
            final(self)@ == (SocketView {
                channels: old(self)@.channels.insert(stream_id),
                ..old(self)@
            }),
    {
        self.channels.insert(stream_id);
    }

    /// Removes the REQUEST_N channel of a stream.
    pub fn remove_channel(&mut self, stream_id: u32)
        ensures
            final(self)@ == (SocketView {
                channels: old(self)@.channels.remove(stream_id),
                ..old(self)@
            }),
    {
        self.channels.remove(&stream_id);
    }

    /// Whether a stream has a REQUEST_N channel.
    pub fn has_channel(&self, stream_id: u32) -> (r: bool)
        ensures
            r == self@.channels.contains(stream_id),
    {
        self.channels.contains(&stream_id)
    }
}

/// A payload holds the given optional metadata and data bytes.
pub open spec fn payload_is(p: Payload, metadata: Option<Seq<u8>>, data: Option<Seq<u8>>) -> bool {
    opt_bytes(p.metadata) == metadata && opt_bytes(p.data) == data
}

/// The decision on a PAYLOAD frame, from the state before (`s`) to the state
/// after (`t`), for a payload of the given bytes.
///
/// A request/response takes the payload when it carries NEXT and is
/// answered either way. A stream or channel takes a NEXT payload while its
/// receiver is open, and is cancelled when it is not; COMPLETE ends it. A
/// payload for no pending request changes nothing.
pub open spec fn payload_decision(
    s: SocketView,
    t: SocketView,
    stream_id: u32,
    flag: u16,
    metadata: Option<Seq<u8>>,
    data: Option<Seq<u8>>,
    receiver_open: bool,
    r: PayloadOutcome,
) -> bool {
    &&& r.known == s.handlers.contains_key(stream_id)
    &&& !r.known ==> {
        &&& r.deliver is None
        &&& r.reply is None
        &&& !r.removed
    }
    &&& r.known && s.handlers[stream_id] == HandlerKind::RequestResponse ==> {
        &&& r.removed
        &&& r.reply is None
        &&& (has_flag(flag, FLAG_NEXT) ==> (r.deliver matches Some(p) && payload_is(p, metadata, data)))
        &&& (!has_flag(flag, FLAG_NEXT) ==> r.deliver is None)
    }
    &&& r.known && s.handlers[stream_id] != HandlerKind::RequestResponse ==> {
        &&& r.removed == has_flag(flag, FLAG_COMPLETE)
        &&& (has_flag(flag, FLAG_NEXT) && receiver_open) ==> (r.deliver matches Some(p)
            && payload_is(p, metadata, data) && r.reply is None)
        &&& (has_flag(flag, FLAG_NEXT) && !receiver_open) ==> (r.deliver is None && (r.reply
            matches Some(c) && c@ == FrameView::Cancel { stream_id }))
        &&& !has_flag(flag, FLAG_NEXT) ==> (r.deliver is None && r.reply is None)
    }
    &&& r.removed ==> t == (SocketView { handlers: s.handlers.remove(stream_id), ..s })
    &&& !r.removed ==> t == s
}

/// The decision on a CANCEL frame: the pending request is removed, and a
/// request/response is given a CANCELED error.
pub open spec fn cancel_decision(
    s: SocketView,
    t: SocketView,
    stream_id: u32,
    removed: Option<HandlerKind>,
    error: Option<PayloadError>,
) -> bool {
    &&& removed == (if s.handlers.contains_key(stream_id) {
        Some(s.handlers[stream_id])
    } else {
        None
    })
    &&& t == (SocketView { handlers: s.handlers.remove(stream_id), ..s })
    &&& (removed == Some(HandlerKind::RequestResponse) <==> error is Some)
    &&& error matches Some(e) ==> e.code == error_code_value(ErrorCode::Canceled) && e.msg@
        == "Request cancelled"@
}

/// The decision on an ERROR frame: the pending request is removed and given
/// the error.
pub open spec fn error_decision(
    s: SocketView,
    t: SocketView,
    stream_id: u32,
    code: u32,
    message: Seq<char>,
    removed: Option<HandlerKind>,
    error: PayloadError,
) -> bool {
    &&& removed == (if s.handlers.contains_key(stream_id) {
        Some(s.handlers[stream_id])
    } else {
        None
    })
    &&& t == (SocketView { handlers: s.handlers.remove(stream_id), ..s })
    &&& error.code == code
    &&& error.msg@ == message
}

/// The decision on a REQUEST_N frame: a count of zero is refused, a count for
/// a stream with a channel is forwarded, any other is refused.
pub open spec fn request_n_decision(s: SocketView, stream_id: u32, n: u32, r: RequestNOutcome) -> bool {
    &&& n == 0 ==> (r matches RequestNOutcome::Reject(f) && f@ == app_error_view(
        stream_id,
        "Invalid RequestN (n=0)"@,
    ))
    &&& n != 0 && s.channels.contains(stream_id) ==> r == RequestNOutcome::Forward(n)
    &&& n != 0 && !s.channels.contains(stream_id) ==> (r matches RequestNOutcome::Reject(f)
        && f@ == app_error_view(stream_id, "RequestN called for missing Stream ID"@))
}

/// The APPLICATION_ERROR frame for a stream with the given message.
pub open spec fn app_error_view(stream_id: u32, message: Seq<char>) -> FrameView {
    FrameView::Error { stream_id, code: error_code_value(ErrorCode::ApplicationError) as u32, message }
}

/// A PAYLOAD frame view for a payload and flags.
pub open spec fn payload_view(stream_id: u32, p: Payload, flags: u16) -> FrameView {
    FrameView::Payload {
        stream_id,
        metadata: bytes_or_empty(p.metadata),
        data: bytes_or_empty(p.data),
        follows: has_flag(flags, crate::header::FLAG_FOLLOW),
        complete: has_flag(flags, FLAG_COMPLETE),
        next: has_flag(flags, FLAG_NEXT),
    }
}

/// The APPLICATION_ERROR frame for a stream.
pub fn app_error_frame(stream_id: u32, message: &str) -> (r: Frame)
    ensures
        r@ == app_error_view(stream_id, message@),
{
    Frame::new_error(stream_id, ErrorCode::ApplicationError.into_u32(), message)
}

/// The frame that answers a request/response: the payload as NEXT and
/// COMPLETE, or the error as an APPLICATION_ERROR.
pub fn response_frame(stream_id: u32, result: Result<Payload, PayloadError>) -> (r: Frame)
    ensures
        match result {
            Ok(p) => r@ == payload_view(stream_id, p, (FLAG_NEXT | FLAG_COMPLETE) as u16),
            Err(e) => r@ == app_error_view(stream_id, e.msg@),
        },
{
    match result {
        Ok(p) => Frame::new_payload(stream_id, p, FLAG_NEXT | FLAG_COMPLETE),
        Err(e) => app_error_frame(stream_id, e.msg.as_str()),
    }
}

/// The frame for one item of an answering stream or channel: the payload as
/// NEXT, or the error as an APPLICATION_ERROR.
pub fn stream_item_frame(stream_id: u32, item: Result<Payload, PayloadError>) -> (r: Frame)
    ensures
        match item {
            Ok(p) => r@ == payload_view(stream_id, p, FLAG_NEXT),
            Err(e) => r@ == app_error_view(stream_id, e.msg@),
        },
{
    match item {
        Ok(p) => Frame::new_payload(stream_id, p, FLAG_NEXT),
        Err(e) => app_error_frame(stream_id, e.msg.as_str()),
    }
}

/// The frame that ends a stream: an empty PAYLOAD with COMPLETE.
pub fn complete_frame(stream_id: u32) -> (r: Frame)
    ensures
        r@ == (FrameView::Payload {
            stream_id,
            metadata: Seq::empty(),
            data: Seq::empty(),
            follows: false,
            complete: true,
            next: false,
        }),
{
    let r = Frame::new_payload(stream_id, Payload::empty(), FLAG_COMPLETE);
    assert(has_flag(FLAG_COMPLETE, crate::header::FLAG_FOLLOW) == false) by (bit_vector);
    assert(has_flag(FLAG_COMPLETE, FLAG_COMPLETE)) by (bit_vector);
    assert(has_flag(FLAG_COMPLETE, FLAG_NEXT) == false) by (bit_vector);
    r
}

/// The frame that opens the answer to a channel: REQUEST_N for the largest
/// count.
pub fn channel_request_n_frame(stream_id: u32) -> (r: Frame)
    ensures
        r@ == (FrameView::RequestN { stream_id, n: REQUEST_MAX }),
{
    Frame::new_request_n(stream_id, REQUEST_MAX, 0)
}

/// The frame sent when forwarding REQUEST_N to a channel failed.
pub fn request_n_channel_closed(stream_id: u32) -> (r: Frame)
    ensures
        r@ == app_error_view(stream_id, "RequestN channel closed"@),
{
    app_error_frame(stream_id, "RequestN channel closed")
}

/// The frame sent when a stream receiving payloads could not take one.
pub fn delivery_failed(stream_id: u32) -> (r: Frame)
    ensures
        r@ == (FrameView::Cancel { stream_id }),
{
    Frame::new_cancel(stream_id)
}

impl SocketState {
    /// Decides what a PAYLOAD frame does. `receiver_open` tells whether the
    /// receiver of the pending stream is still there.
    ///
    /// A request/response takes the payload when it carries NEXT and is
    /// answered either way. A stream or channel takes a NEXT payload while its
    /// receiver is open, and is cancelled when it is not; COMPLETE ends it.
    pub fn on_payload(
        &mut self,
        stream_id: u32,
        flag: FrameFlags,
        input: Payload,
        receiver_open: bool,
    ) -> (r: PayloadOutcome)
        ensures
            payload_decision(
                old(self)@,
                final(self)@,
                stream_id,
                flag,
                opt_bytes(input.metadata),
                opt_bytes(input.data),
                receiver_open,
                r,
            ),
    {
        let kind = self.handler(stream_id);
        match kind {
            None => PayloadOutcome { known: false, deliver: None, reply: None, removed: false },
            Some(HandlerKind::RequestResponse) => {
                self.remove_handler(stream_id);
                let deliver = if flag_next(flag) {
                    Some(input)
                } else {
                    None
                };
                PayloadOutcome { known: true, deliver, reply: None, removed: true }
            },
            Some(_) => {
                let mut deliver = None;
                let mut reply = None;
                if flag_next(flag) {
                    if receiver_open {
                        deliver = Some(input);
                    } else {
                        reply = Some(Frame::new_cancel(stream_id));
                    }
                }
                let removed = flag_complete(flag);
                if removed {
                    self.remove_handler(stream_id);
                }
                PayloadOutcome { known: true, deliver, reply, removed }
            },
        }
    }

    /// Decides what a CANCEL frame does: the pending request is removed, and
    /// a request/response is given a CANCELED error.
    pub fn on_cancel(&mut self, stream_id: u32) -> (r: (Option<HandlerKind>, Option<PayloadError>))
        ensures
            cancel_decision(old(self)@, final(self)@, stream_id, r.0, r.1),
    {
        let removed = self.remove_handler(stream_id);
        let error = match removed {
            Some(HandlerKind::RequestResponse) => Some(
                PayloadError::new(ErrorCode::Canceled.into_u32(), String::from_str("Request cancelled")),
            ),
            _ => None,
        };
        (removed, error)
    }

    /// Decides what an ERROR frame does: the pending request is removed and
    /// given the error.
    pub fn on_error(&mut self, stream_id: u32, code: u32, message: String) -> (r: (
        Option<HandlerKind>,
        PayloadError,
    ))
        ensures
            error_decision(old(self)@, final(self)@, stream_id, code, message@, r.0, r.1),
    {
        let removed = self.remove_handler(stream_id);
        (removed, PayloadError::new(code, message))
    }

    /// Decides what a REQUEST_N frame does: a count of zero is refused, a
    /// count for a stream with a channel is forwarded, any other is refused.
    pub fn on_request_n(&self, stream_id: u32, n: u32) -> (r: RequestNOutcome)
        ensures
            request_n_decision(self@, stream_id, n, r),
    {
        if n == 0 {
            RequestNOutcome::Reject(app_error_frame(stream_id, "Invalid RequestN (n=0)"))
        } else if self.has_channel(stream_id) {
            RequestNOutcome::Forward(n)
        } else {
            RequestNOutcome::Reject(
                app_error_frame(stream_id, "RequestN called for missing Stream ID"),
            )
        }
    }
}

/// The decision on any received frame, from the state before (`s`) to the
/// state after (`t`).
///
/// Requests are handed to the responder; a REQUEST_CHANNEL also registers a
/// channel handler for its stream. PAYLOAD, CANCEL, ERROR and REQUEST_N
/// frames are decided as their own decisions say; an ERROR frame without
/// text is passed on with a fixed message.
pub open spec fn process_decision(
    s: SocketView,
    t: SocketView,
    f: FrameView,
    receiver_open: bool,
    r: Dispatch,
) -> bool {
    match f {
        FrameView::RequestFnF(p) => {
            &&& t == s
            &&& r matches Dispatch::FireAndForget { stream_id, payload }
            &&& stream_id == p.stream_id
            &&& payload_is(payload, Some(p.metadata), Some(p.data))
        },
        FrameView::RequestResponse(p) => {
            &&& t == s
            &&& r matches Dispatch::RequestResponse { stream_id, payload }
            &&& stream_id == p.stream_id
            &&& payload_is(payload, Some(p.metadata), Some(p.data))
        },
        FrameView::RequestStream(p) => {
            &&& t == s
            &&& r matches Dispatch::RequestStream { stream_id, payload }
            &&& stream_id == p.stream_id
            &&& payload_is(payload, Some(p.metadata), Some(p.data))
        },
        FrameView::RequestChannel(p) => {
            &&& t == (SocketView {
                handlers: s.handlers.insert(p.stream_id, HandlerKind::RequestChannel),
                ..s
            })
            &&& r matches Dispatch::RequestChannel { stream_id, payload }
            &&& stream_id == p.stream_id
            &&& payload_is(payload, Some(p.metadata), Some(p.data))
        },
        FrameView::Payload { stream_id, metadata, data, follows, complete, next } => {
            &&& r matches Dispatch::Payload { stream_id: sid, payload_outcome }
            &&& sid == stream_id
            &&& payload_decision(
                s,
                t,
                stream_id,
                payload_flags(metadata, follows, complete, next),
                Some(metadata),
                Some(data),
                receiver_open,
                payload_outcome,
            )
        },
        FrameView::Cancel { stream_id } => {
            &&& r matches Dispatch::Cancel { stream_id: sid, removed, cancel_error }
            &&& sid == stream_id
            &&& cancel_decision(s, t, stream_id, removed, cancel_error)
        },
        FrameView::Error { stream_id, code, message } => {
            &&& r matches Dispatch::Error { stream_id: sid, removed, error }
            &&& sid == stream_id
            &&& error_decision(s, t, stream_id, code, error_message(message), removed, error)
        },
        FrameView::RequestN { stream_id, n } => {
            &&& t == s
            &&& r matches Dispatch::RequestN { stream_id: sid, request_n_outcome }
            &&& sid == stream_id
            &&& request_n_decision(s, stream_id, n, request_n_outcome)
        },
    }
}

impl SocketState {
    /// Decides what a received frame does. `receiver_open` tells whether the
    /// receiver of the request pending on the frame's stream, if any, is
    /// still there; it matters for PAYLOAD frames only.
    pub fn process_once(&mut self, frame: Frame, receiver_open: bool) -> (r: Dispatch)
        ensures
            process_decision(old(self)@, final(self)@, frame@, receiver_open, r),
    {
        let stream_id = frame.stream_id();
        let flag = frame.get_flag();
        match frame {
            Frame::RequestFnF(f) => {
                let payload = f.0.into_payload();
                Dispatch::FireAndForget { stream_id, payload }
            },
            Frame::RequestResponse(f) => {
                let payload = f.0.into_payload();
                Dispatch::RequestResponse { stream_id, payload }
            },
            Frame::RequestStream(f) => {
                let payload = f.0.into_payload();
                Dispatch::RequestStream { stream_id, payload }
            },
            Frame::RequestChannel(f) => {
                let payload = f.0.into_payload();
                self.register_handler(stream_id, HandlerKind::RequestChannel);
                Dispatch::RequestChannel { stream_id, payload }
            },
            Frame::PayloadFrame(f) => {
                proof {
                    crate::payload::lemma_flag_bits(f.metadata@.len() > 0, f.follows, f.complete, f.next);
                }
                let input = f.into_payload();
                let payload_outcome = self.on_payload(stream_id, flag, input, receiver_open);
                Dispatch::Payload { stream_id, payload_outcome }
            },
            Frame::Cancel(_) => {
                let (removed, cancel_error) = self.on_cancel(stream_id);
                Dispatch::Cancel { stream_id, removed, cancel_error }
            },
            Frame::ErrorFrame(f) => {
                let message = if f.data.as_str().is_empty() {
                    String::from_str("Error frame with no data")
                } else {
                    f.data
                };
                let (removed, error) = self.on_error(stream_id, f.code, message);
                Dispatch::Error { stream_id, removed, error }
            },
            Frame::RequestN(f) => {
                let request_n_outcome = self.on_request_n(stream_id, f.n);
                Dispatch::RequestN { stream_id, request_n_outcome }
            },
        }
    }
}

/// The stream id a socket of the given side hands out after it has handed
/// out `k` ids.
pub open spec fn stream_id_after(side: SocketSide, k: nat) -> u32
    decreases k,
{
    if k == 0 {
        first_stream_id(side)
    } else {
        stream_id_after(side, (k - 1) as nat).wrapping_add(2)
    }
}

/// Stream ids keep the side that hands them out: the `k`-th id a socket
/// hands out is its first id plus `2 * k`, modulo 2^32, so a guest socket
/// hands out only odd ids and a host socket only even ids, and the two sides
/// never hand out the same id.
pub proof fn law_stream_ids_keep_side(side: SocketSide, k: nat)
    ensures
        stream_id_after(side, k) == (first_stream_id(side) + 2 * k) % 0x1_0000_0000,
        stream_id_after(side, k) % 2 == first_stream_id(side) % 2,
        side == SocketSide::Guest ==> stream_id_after(side, k) % 2 == 1,
        side == SocketSide::Host ==> stream_id_after(side, k) % 2 == 0,
    decreases k,
{
    let first = first_stream_id(side) as int;
    let m: int = 0x1_0000_0000;
    if k > 0 {
        law_stream_ids_keep_side(side, (k - 1) as nat);
        let a = first + 2 * (k - 1);
        vstd::arithmetic::div_mod::lemma_add_mod_noop(a, 2, m);
        assert(a + 2 == first + 2 * k);
    }
    let x = first + 2 * k;
    vstd::arithmetic::div_mod::lemma_mod_mod(x, 2, 0x8000_0000);
    vstd::arithmetic::div_mod::lemma_mod_multiples_vanish(k as int, first, 2);
    assert(2 * 0x8000_0000 == m);
}

/// A request/response is answered once: the first PAYLOAD frame on its
/// stream removes it, and a second PAYLOAD frame on that stream finds no
/// request waiting and changes nothing.
pub proof fn law_response_answered_once(
    s: SocketView,
    t: SocketView,
    u: SocketView,
    stream_id: u32,
    first: (u16, Option<Seq<u8>>, Option<Seq<u8>>, bool, PayloadOutcome),
    second: (u16, Option<Seq<u8>>, Option<Seq<u8>>, bool, PayloadOutcome),
)
    requires
        s.handlers.contains_key(stream_id),
        s.handlers[stream_id] == HandlerKind::RequestResponse,
        payload_decision(s, t, stream_id, first.0, first.1, first.2, first.3, first.4),
        payload_decision(t, u, stream_id, second.0, second.1, second.2, second.3, second.4),
    ensures
        first.4.known,
        first.4.removed,
        !t.handlers.contains_key(stream_id),
        !second.4.known,
        second.4.deliver is None,
        u == t,
{
}

/// The answer to a request/response reaches the requester: the PAYLOAD
/// frame with NEXT and COMPLETE that answers it hands the requester exactly
/// the answer's metadata and data, and the request stops waiting.
pub proof fn law_response_reaches_requester(
    s: SocketView,
    t: SocketView,
    stream_id: u32,
    metadata: Seq<u8>,
    data: Seq<u8>,
    receiver_open: bool,
    r: Dispatch,
)
    requires
        s.handlers.contains_key(stream_id),
        s.handlers[stream_id] == HandlerKind::RequestResponse,
        process_decision(
            s,
            t,
            FrameView::Payload { stream_id, metadata, data, follows: false, complete: true, next: true },
            receiver_open,
            r,
        ),
    ensures
        r matches Dispatch::Payload { payload_outcome, .. } && payload_outcome.deliver matches Some(
            p,
        ) && payload_is(p, Some(metadata), Some(data)),
        !t.handlers.contains_key(stream_id),
        t.channels == s.channels,
        t.stream_index == s.stream_index,
{
    crate::payload::lemma_flag_bits(metadata.len() > 0, false, true, true);
}

/// Every item of a stream or channel reaches its receiver while the
/// receiver is there: a PAYLOAD frame with NEXT and without COMPLETE hands
/// it exactly the item's metadata and data, and the stream keeps waiting.
pub proof fn law_stream_item_reaches_receiver(
    s: SocketView,
    t: SocketView,
    stream_id: u32,
    metadata: Seq<u8>,
    data: Seq<u8>,
    r: Dispatch,
)
    requires
        s.handlers.contains_key(stream_id),
        s.handlers[stream_id] != HandlerKind::RequestResponse,
        process_decision(
            s,
            t,
            FrameView::Payload { stream_id, metadata, data, follows: false, complete: false, next: true },
            true,
            r,
        ),
    ensures
        r matches Dispatch::Payload { payload_outcome, .. } && payload_outcome.deliver matches Some(
            p,
        ) && payload_is(p, Some(metadata), Some(data)) && payload_outcome.reply is None,
        t == s,
{
    crate::payload::lemma_flag_bits(metadata.len() > 0, false, false, true);
}

/// Every item of a stream or channel, the last one included, reaches its
/// receiver while the receiver is there: a PAYLOAD frame with NEXT hands it
/// exactly the frame's metadata and data, whether or not the frame also
/// carries COMPLETE; COMPLETE then ends the stream, and nothing else changes.
pub proof fn law_stream_items_delivered_to_the_last(
    s: SocketView,
    t: SocketView,
    stream_id: u32,
    metadata: Seq<u8>,
    data: Seq<u8>,
    complete: bool,
    r: Dispatch,
)
    requires
        s.handlers.contains_key(stream_id),
        s.handlers[stream_id] == HandlerKind::RequestStream || s.handlers[stream_id]
            == HandlerKind::RequestChannel,
        process_decision(
            s,
            t,
            FrameView::Payload { stream_id, metadata, data, follows: false, complete, next: true },
            true,
            r,
        ),
    ensures
        r is Payload,
        r->Payload_stream_id == stream_id,
        r->payload_outcome.known,
        r->payload_outcome.reply is None,
        r->payload_outcome.deliver is Some,
        opt_bytes(r->payload_outcome.deliver->0.metadata) == Some(metadata),
        opt_bytes(r->payload_outcome.deliver->0.data) == Some(data),
        r->payload_outcome.removed == complete,
        complete ==> !t.handlers.contains_key(stream_id) && t.channels == s.channels && t.side
            == s.side && t.stream_index == s.stream_index && forall|k: u32|
            k != stream_id ==> (t.handlers.contains_key(k) == s.handlers.contains_key(k) && (
            s.handlers.contains_key(k) ==> t.handlers[k] == s.handlers[k])),
        !complete ==> t == s,
{
    crate::payload::lemma_flag_bits(metadata.len() > 0, false, complete, true);
}

/// A stream whose receiver is gone is cancelled: a PAYLOAD frame with NEXT
/// for a pending stream or channel whose receiver is no longer there
/// delivers nothing and answers with a CANCEL for the stream; COMPLETE still
/// ends it.
pub proof fn law_receiver_gone_cancels(
    s: SocketView,
    t: SocketView,
    stream_id: u32,
    metadata: Seq<u8>,
    data: Seq<u8>,
    complete: bool,
    r: Dispatch,
)
    requires
        s.handlers.contains_key(stream_id),
        s.handlers[stream_id] == HandlerKind::RequestStream || s.handlers[stream_id]
            == HandlerKind::RequestChannel,
        process_decision(
            s,
            t,
            FrameView::Payload { stream_id, metadata, data, follows: false, complete, next: true },
            false,
            r,
        ),
    ensures
        r is Payload,
        r->payload_outcome.deliver is None,
        r->payload_outcome.reply is Some,
        r->payload_outcome.reply->0@ == (FrameView::Cancel { stream_id }),
        r->payload_outcome.removed == complete,
        complete ==> !t.handlers.contains_key(stream_id),
        !complete ==> t == s,
{
    crate::payload::lemma_flag_bits(metadata.len() > 0, false, complete, true);
}

/// A request/response is answered by any PAYLOAD on its stream: with NEXT
/// it receives the payload's metadata and data; without NEXT it receives
/// nothing; either way it stops waiting.
pub proof fn law_response_without_next(
    s: SocketView,
    t: SocketView,
    stream_id: u32,
    metadata: Seq<u8>,
    data: Seq<u8>,
    complete: bool,
    r: Dispatch,
)
    requires
        s.handlers.contains_key(stream_id),
        s.handlers[stream_id] == HandlerKind::RequestResponse,
        process_decision(
            s,
            t,
            FrameView::Payload { stream_id, metadata, data, follows: false, complete, next: false },
            true,
            r,
        ),
    ensures
        r is Payload,
        r->payload_outcome.deliver is None,
        r->payload_outcome.reply is None,
        r->payload_outcome.removed,
        !t.handlers.contains_key(stream_id),
{
    crate::payload::lemma_flag_bits(metadata.len() > 0, false, complete, false);
}

/// REQUEST_N is answered by its count and the channels: a count of zero is
/// refused with the APPLICATION_ERROR (code 0x201) "Invalid RequestN
/// (n=0)"; another count for a stream with a channel is forwarded as it
/// is; for any other stream it is refused with "RequestN called for missing
/// Stream ID". The socket does not change.
pub proof fn law_request_n_answers(s: SocketView, t: SocketView, stream_id: u32, n: u32, r: Dispatch)
    requires
        process_decision(s, t, FrameView::RequestN { stream_id, n }, true, r),
    ensures
        t == s,
        r is RequestN,
        n == 0 ==> r->request_n_outcome is Reject && r->request_n_outcome->Reject_0@ == (FrameView::Error {
            stream_id,
            code: 0x201,
            message: "Invalid RequestN (n=0)"@,
        }),
        n != 0 && s.channels.contains(stream_id) ==> r->request_n_outcome == RequestNOutcome::Forward(n),
        n != 0 && !s.channels.contains(stream_id) ==> r->request_n_outcome is Reject
            && r->request_n_outcome->Reject_0@ == (FrameView::Error {
            stream_id,
            code: 0x201,
            message: "RequestN called for missing Stream ID"@,
        }),
{
}

/// CANCEL and ERROR end what is pending on their stream: a cancelled
/// request/response gets the error CANCELED (0x203) "Request cancelled",
/// other cancelled requests get nothing, and an ERROR is handed on with its
/// code and text ("Error frame with no data" for an empty text).
pub proof fn law_cancel_and_error(
    s: SocketView,
    t: SocketView,
    u: SocketView,
    stream_id: u32,
    code: u32,
    message: Seq<char>,
    rc: Dispatch,
    re: Dispatch,
)
    requires
        process_decision(s, t, FrameView::Cancel { stream_id }, true, rc),
        process_decision(s, u, FrameView::Error { stream_id, code, message }, true, re),
    ensures
        !t.handlers.contains_key(stream_id),
        !u.handlers.contains_key(stream_id),
        rc is Cancel,
        (s.handlers.contains_key(stream_id) && s.handlers[stream_id]
            == HandlerKind::RequestResponse) ==> rc->cancel_error is Some && rc->cancel_error->0.code
            == 0x203 && rc->cancel_error->0.msg@ == "Request cancelled"@,
        !(s.handlers.contains_key(stream_id) && s.handlers[stream_id]
            == HandlerKind::RequestResponse) ==> rc->cancel_error is None,
        re is Error,
        re->error.code == code,
        message.len() > 0 ==> re->error.msg@ == message,
        message.len() == 0 ==> re->error.msg@ == "Error frame with no data"@,
{
}

/// A stream ends for good: once a CANCEL or an ERROR frame has been decided
/// for a stream, or a PAYLOAD with COMPLETE for a pending stream or channel,
/// a later PAYLOAD frame on that stream is delivered to nobody and changes
/// nothing.
pub proof fn law_ended_stream_takes_nothing(
    s: SocketView,
    t: SocketView,
    u: SocketView,
    stream_id: u32,
    ended_by_cancel_or_error: bool,
    removed: Option<HandlerKind>,
    ending: (u16, Option<Seq<u8>>, Option<Seq<u8>>, bool, PayloadOutcome),
    later: (u16, Option<Seq<u8>>, Option<Seq<u8>>, bool, PayloadOutcome),
)
    requires
        ended_by_cancel_or_error ==> (exists|e: Option<PayloadError>| #[trigger] cancel_decision(s, t, stream_id, removed, e))
            || (exists|c: u32, m: Seq<char>, e: PayloadError| #[trigger] error_decision(s, t, stream_id, c, m, removed, e)),
        !ended_by_cancel_or_error ==> {
            &&& s.handlers.contains_key(stream_id)
            &&& has_flag(ending.0, FLAG_COMPLETE)
            &&& payload_decision(s, t, stream_id, ending.0, ending.1, ending.2, ending.3, ending.4)
        },
        payload_decision(t, u, stream_id, later.0, later.1, later.2, later.3, later.4),
    ensures
        !t.handlers.contains_key(stream_id),
        !later.4.known,
        later.4.deliver is None,
        later.4.reply is None,
        u == t,
{
}

/// The empty PAYLOAD with COMPLETE that ends a stream.
pub open spec fn complete_view(stream_id: u32) -> FrameView {
    FrameView::Payload {
        stream_id,
        metadata: Seq::empty(),
        data: Seq::empty(),
        follows: false,
        complete: true,
        next: false,
    }
}

/// The frame that an outgoing channel sends for an item: while no payload
/// has been sent (`first`), a payload opens the channel as a REQUEST_CHANNEL
/// with NEXT and the largest initial count; later payloads go as NEXT
/// payloads; an error goes as an APPLICATION_ERROR.
pub open spec fn channel_item_frame(stream_id: u32, first: bool, item: Result<Payload, PayloadError>) -> FrameView {
    match item {
        Ok(p) => if first {
            FrameView::RequestChannel(
                request_view(FrameType::RequestChannel, stream_id, p, FLAG_NEXT, REQUEST_MAX),
            )
        } else {
            payload_view(stream_id, p, FLAG_NEXT)
        },
        Err(_) => app_error_view(stream_id, "REQUEST_CHANNEL failed"@),
    }
}

/// A channel writer after it sends an item: one credit spent, and no
/// longer first once a payload went out.
pub open spec fn writer_next(w: ChannelWriterView, item: Result<Payload, PayloadError>) -> ChannelWriterView {
    ChannelWriterView { stream_id: w.stream_id, first: w.first && item is Err, n: (w.n - 1) as u32 }
}

/// The frames a channel writer sends for a sequence of items, given the
/// counts of the REQUEST_N frames that reach it in turn: each item goes as
/// `on_item` sends it; when credit runs out the writer takes the next count
/// (`on_request_n`), and stops when none comes; at the end it completes the
/// channel (`finish`).
pub open spec fn channel_run(
    w: ChannelWriterView,
    items: Seq<Result<Payload, PayloadError>>,
    grants: Seq<u32>,
) -> Seq<FrameView>
    decreases items.len(),
{
    if items.len() == 0 {
        seq![complete_view(w.stream_id)]
    } else {
        let f = channel_item_frame(w.stream_id, w.first, items[0]);
        let w2 = writer_next(w, items[0]);
        if w2.n == 0 {
            if grants.len() == 0 {
                seq![f, complete_view(w.stream_id)]
            } else {
                seq![f] + channel_run(
                    ChannelWriterView { n: grants[0], ..w2 },
                    items.drop_first(),
                    grants.drop_first(),
                )
            }
        } else {
            seq![f] + channel_run(w2, items.drop_first(), grants)
        }
    }
}

/// The total of the counts.
pub open spec fn count_sum(g: Seq<u32>) -> nat
    decreases g.len(),
{
    if g.len() == 0 {
        0
    } else {
        g[0] as nat + count_sum(g.drop_first())
    }
}

/// Whether no item before position `i` is a payload.
pub open spec fn no_payload_before(items: Seq<Result<Payload, PayloadError>>, i: int) -> bool {
    forall|j: int| 0 <= j < i ==> #[trigger] items[j] is Err
}

/// What a request/channel sends, over a whole sequence of items: with
/// credit `n` to start (1 for a new channel) and REQUEST_N counts that are
/// not zero, the writer sends as many items as the credit allows, at most
/// `n` plus the counts, in order; the first payload opens the channel as a
/// REQUEST_CHANNEL with NEXT and the largest initial count, later payloads
/// go as NEXT payloads, errors as APPLICATION_ERROR "REQUEST_CHANNEL
/// failed"; and the last frame completes the channel.
pub proof fn law_channel_frames(
    w: ChannelWriterView,
    items: Seq<Result<Payload, PayloadError>>,
    grants: Seq<u32>,
)
    requires
        w.n >= 1,
        forall|i: int| 0 <= i < grants.len() ==> #[trigger] grants[i] > 0,
    ensures
        ({
            let k = if items.len() <= w.n + count_sum(grants) {
                items.len() as int
            } else {
                w.n + count_sum(grants)
            };
            let out = channel_run(w, items, grants);
            &&& out.len() == k + 1
            &&& forall|i: int|
                0 <= i < k ==> #[trigger] out[i] == channel_item_frame(
                    w.stream_id,
                    w.first && no_payload_before(items, i),
                    items[i],
                )
            &&& out[k] == complete_view(w.stream_id)
        }),
    decreases items.len(),
{
    let out = channel_run(w, items, grants);
    if items.len() > 0 {
        let f = channel_item_frame(w.stream_id, w.first, items[0]);
        let w2 = writer_next(w, items[0]);
        let rest = items.drop_first();
        assert(no_payload_before(items, 0));
        assert forall|i: int| 1 <= i < items.len() implies (w.first && no_payload_before(items, i))
            == (w2.first && no_payload_before(rest, i - 1)) by {
            if w.first && no_payload_before(items, i) {
                assert(items[0] is Err);
                assert forall|j: int| 0 <= j < i - 1 implies #[trigger] rest[j] is Err by {
                    assert(rest[j] == items[j + 1]);
                }
            }
            if w2.first && no_payload_before(rest, i - 1) {
                assert forall|j: int| 0 <= j < i implies #[trigger] items[j] is Err by {
                    if j > 0 {
                        assert(rest[j - 1] == items[j]);
                    }
                }
            }
        }
        if w2.n == 0 {
            if grants.len() > 0 {
                let g2 = grants.drop_first();
                assert forall|i: int| 0 <= i < g2.len() implies #[trigger] g2[i] > 0 by {
                    assert(g2[i] == grants[i + 1]);
                }
                let w3 = ChannelWriterView { n: grants[0], ..w2 };
                assert(grants[0] > 0);
                law_channel_frames(w3, rest, g2);
            }
        } else {
            law_channel_frames(w2, rest, grants);
        }
    }
}

/// The writer of an outgoing channel: the payloads of a request/channel,
/// sent as credit from REQUEST_N frames allows.
pub struct ChannelWriter {
    stream_id: u32,
    first: bool,
    n: u32,
}

/// The abstract state of a channel writer: its stream, whether no payload
/// has been sent yet, and how many items it may still send.
pub struct ChannelWriterView {
    pub stream_id: u32,
    pub first: bool,
    pub n: u32,
}

impl View for ChannelWriter {
    type V = ChannelWriterView;

    closed spec fn view(&self) -> ChannelWriterView {
        ChannelWriterView { stream_id: self.stream_id, first: self.first, n: self.n }
    }
}

impl SocketState {
    /// Fire and forget: hands out a stream id and gives the REQUEST_FNF frame
    /// to send. No answer is awaited.
    pub fn fire_and_forget(&mut self, payload: Payload) -> (r: Frame)
        ensures
            r@ == FrameView::RequestFnF(
                request_view(FrameType::RequestFnf, old(self)@.stream_index, payload, 0, 0),
            ),
            final(self)@ == (SocketView {
                stream_index: old(self)@.stream_index.wrapping_add(2),
                ..old(self)@
            }),
    {
        let sid = self.next_stream_id();
        Frame::new_request_fnf(sid, payload, 0)
    }

    /// Request/response: hands out a stream id, registers the request as
    /// waiting on it, and gives the REQUEST_RESPONSE frame to send.
    pub fn request_response(&mut self, payload: Payload) -> (r: Frame)
        ensures
            r@ == FrameView::RequestResponse(
                request_view(FrameType::RequestResponse, old(self)@.stream_index, payload, 0, 0),
            ),
            final(self)@ == (SocketView {
                handlers: old(self)@.handlers.insert(
                    old(self)@.stream_index,
                    HandlerKind::RequestResponse,
                ),
                stream_index: old(self)@.stream_index.wrapping_add(2),
                ..old(self)@
            }),
    {
        let sid = self.next_stream_id();
        self.register_handler(sid, HandlerKind::RequestResponse);
        Frame::new_request_response(sid, payload, 0)
    }

    /// Request/stream: hands out a stream id, registers the stream as waiting
    /// on it, and gives the REQUEST_STREAM frame to send.
    pub fn request_stream(&mut self, payload: Payload) -> (r: Frame)
        ensures
            r@ == FrameView::RequestStream(
                request_view(FrameType::RequestStream, old(self)@.stream_index, payload, 0, 0),
            ),
            final(self)@ == (SocketView {
                handlers: old(self)@.handlers.insert(
                    old(self)@.stream_index,
                    HandlerKind::RequestStream,
                ),
                stream_index: old(self)@.stream_index.wrapping_add(2),
                ..old(self)@
            }),
    {
        let sid = self.next_stream_id();
        self.register_handler(sid, HandlerKind::RequestStream);
        Frame::new_request_stream(sid, payload, 0)
    }

    /// Request/channel: hands out a stream id, registers the channel as
    /// waiting on it and as accepting REQUEST_N, and gives the writer of its
    /// outgoing payloads, which may send one item before the first REQUEST_N.
    pub fn request_channel(&mut self) -> (r: ChannelWriter)
        ensures
            r@ == (ChannelWriterView { stream_id: old(self)@.stream_index, first: true, n: 1 }),
            final(self)@ == (SocketView {
                handlers: old(self)@.handlers.insert(
                    old(self)@.stream_index,
                    HandlerKind::RequestChannel,
                ),
                channels: old(self)@.channels.insert(old(self)@.stream_index),
                stream_index: old(self)@.stream_index.wrapping_add(2),
                ..old(self)@
            }),
    {
        let sid = self.next_stream_id();
        self.register_handler(sid, HandlerKind::RequestChannel);
        self.register_channel(sid);
        ChannelWriter { stream_id: sid, first: true, n: 1 }
    }
}

impl ChannelWriter {
    /// The stream of the channel.
    pub fn stream_id(&self) -> (r: u32)
        ensures
            r == self@.stream_id,
    {
        self.stream_id
    }

    /// Takes the next item of the outgoing channel and gives the frame to
    /// send, and whether the writer must now wait for a REQUEST_N before its
    /// next item. The first payload opens the channel as a REQUEST_CHANNEL
    /// with NEXT and the largest initial count; later payloads go as NEXT
    /// payloads; an error goes as an APPLICATION_ERROR.
    pub fn on_item(&mut self, item: Result<Payload, PayloadError>) -> (r: (Frame, bool))
        requires
            old(self)@.n >= 1,
        ensures
            final(self)@ == writer_next(old(self)@, item),
            r.0@ == channel_item_frame(old(self)@.stream_id, old(self)@.first, item),
            r.1 == (final(self)@.n == 0),
    {
        self.n = self.n - 1;
        let frame = match item {
            Ok(p) => {
                if self.first {
                    self.first = false;
                    Frame::new_request_channel(self.stream_id, p, FLAG_NEXT, REQUEST_MAX)
                } else {
                    Frame::new_payload(self.stream_id, p, FLAG_NEXT)
                }
            },
            Err(_) => app_error_frame(self.stream_id, "REQUEST_CHANNEL failed"),
        };
        (frame, self.n == 0)
    }

    /// Takes the count of a REQUEST_N frame: the writer may send that many
    /// more items.
    pub fn on_request_n(&mut self, n: u32)
        ensures
            final(self)@ == (ChannelWriterView { n, ..old(self)@ }),
    {
        self.n = n;
    }

    /// Ends the channel when its items run out or no more REQUEST_N can
    /// come: its REQUEST_N channel is removed and the COMPLETE frame is given.
    pub fn finish(self, state: &mut SocketState) -> (r: Frame)
        ensures
            final(state)@ == (SocketView {
                channels: old(state)@.channels.remove(self@.stream_id),
                ..old(state)@
            }),
            r@ == complete_view(self@.stream_id),
    {
        state.remove_channel(self.stream_id);
        complete_frame(self.stream_id)
    }
}

} // verus!

//! The guest side of a wasmRS component: the metadata that names the
//! operation of a request, the guest's stream ids, the reassembly of
//! fragmented payloads, and the decision on each frame the host sends.
//!
//! The guest's buffers, handler registry and tasks stay with its user; this
//! module decides, and tells the user what to run.
use vstd::prelude::*;
use std::collections::{HashMap, HashSet};
use vstd::utf8::{decode_utf8, valid_utf8};
use crate::error::PayloadError;
use crate::frame::{view_data, view_metadata, view_stream_id, Frame, FrameView};
use crate::payload::RequestPayloadView;
use crate::header::{FLAG_COMPLETE, FLAG_FOLLOW, FLAG_NEXT, has_flag};
use crate::payload::Payload;
use crate::text::string_from_utf8;
use crate::util::{be16_value, be32, copy_range, from_u16_bytes, push_all, to_u32_bytes};

verus! {

broadcast use vstd::std_specs::hash::group_hash_axioms;

/// An error reported by a guest: an error code and a message.
#[derive(Debug)]
pub struct GuestError(pub u32, pub String);

/// Why a guest could not handle a frame.
#[derive(Debug)]
pub enum Error {
    /// No handler is registered for the operation.
    NoHandler,
    /// The handler failed to start.
    HandlerFail(String),
    /// A name in the metadata is not UTF-8.
    StringDecode,
    /// The guest buffer could not be read.
    BufferRead,
}

/// The metadata of a request to a guest: the namespace and operation it
/// calls, and the instance bytes.
#[derive(Debug)]
pub struct GuestMetadata {
    /// The namespace of the operation.
    pub namespace: String,
    /// The operation.
    pub operation: String,
    /// The instance the operation is called on.
    pub instance: Vec<u8>,
}

/// A payload as a guest stream receives it.
#[derive(Debug)]
pub struct GuestPayload {
    /// The stream the payload came on.
    pub stream_id: u32,
    /// The data bytes.
    pub data: Vec<u8>,
    /// The parsed metadata.
    pub metadata: GuestMetadata,
}

impl GuestPayload {
    /// A payload for a stream.
    pub fn new(stream_id: u32, data: Vec<u8>, metadata: GuestMetadata) -> (r: GuestPayload)
        ensures
            r.stream_id == stream_id,
            r.data@ == data@,
            r.metadata == metadata,
    {
        GuestPayload { stream_id, data, metadata }
    }
}

/// The length that the two bytes at `start` announce.
pub open spec fn chunk_len(b: Seq<u8>, start: int) -> int {
    be16_value(b[start], b[start + 1]) as int
}

/// Where the chunk at `start` ends: after its two length bytes and the
/// bytes they announce.
pub open spec fn chunk_end(b: Seq<u8>, start: int) -> int {
    start + 2 + chunk_len(b, start)
}

/// Whether the chunk at `start` lies in the bytes.
pub open spec fn chunk_readable(b: Seq<u8>, start: int) -> bool {
    0 <= start && start + 2 <= b.len() && chunk_end(b, start) <= b.len()
}

/// The bytes of the chunk at `start`.
pub open spec fn chunk(b: Seq<u8>, start: int) -> Seq<u8> {
    b.subrange(start + 2, chunk_end(b, start))
}

/// Whether metadata bytes can be read as far as parsing goes: the namespace
/// chunk; when it is UTF-8, the operation chunk after it; when that is
/// UTF-8 too, the instance chunk after that.
pub open spec fn metadata_readable(b: Seq<u8>) -> bool {
    let e0 = chunk_end(b, 0);
    &&& chunk_readable(b, 0)
    &&& valid_utf8(chunk(b, 0)) ==> {
        &&& chunk_readable(b, e0)
        &&& valid_utf8(chunk(b, e0)) ==> chunk_readable(b, chunk_end(b, e0))
    }
}

/// The namespace, operation and instance that metadata bytes hold, when
/// both names are UTF-8.
pub open spec fn metadata_parse(b: Seq<u8>) -> Option<(Seq<char>, Seq<char>, Seq<u8>)> {
    let e0 = chunk_end(b, 0);
    let e1 = chunk_end(b, e0);
    if valid_utf8(chunk(b, 0)) && valid_utf8(chunk(b, e0)) {
        Some((decode_utf8(chunk(b, 0)), decode_utf8(chunk(b, e0)), chunk(b, e1)))
    } else {
        None
    }
}

/// The metadata bytes for a namespace, an operation and an instance: each
/// part with its length in two big-endian bytes before it.
pub open spec fn metadata_encoding(namespace: Seq<u8>, operation: Seq<u8>, instance: Seq<u8>) -> Seq<u8> {
    be16_seq(namespace.len()) + namespace + be16_seq(operation.len()) + operation + be16_seq(
        instance.len(),
    ) + instance
}

/// Two big-endian bytes for a length below 2^16.
pub open spec fn be16_seq(n: nat) -> Seq<u8> {
    seq![(n / 256) as u8, (n % 256) as u8]
}

/// Reads the chunk at `start`: its bytes, and its length with the two
/// length bytes.
pub fn read_data(start: usize, buffer: &[u8]) -> (r: Result<(Vec<u8>, usize), Error>)
    requires
        chunk_readable(buffer@, start as int),
    ensures
        r matches Ok((d, n)) && d@ == chunk(buffer@, start as int) && n == 2 + chunk_len(
            buffer@,
            start as int,
        ),
{
    let rest = vstd::slice::slice_subrange(buffer, start, buffer.len());
    let len = from_u16_bytes(rest) as usize;
    let data = copy_range(buffer, start + 2, start + 2 + len);
    Ok((data, 2 + len))
}

/// Reads the chunk at `start` as a UTF-8 string, with its length and the
/// two length bytes. A chunk that is not UTF-8 gives `StringDecode`.
pub fn read_string(start: usize, buffer: &[u8]) -> (r: Result<(String, usize), Error>)
    requires
        chunk_readable(buffer@, start as int),
    ensures
        r is Ok <==> valid_utf8(chunk(buffer@, start as int)),
        r matches Ok((s, n)) ==> s@ == decode_utf8(chunk(buffer@, start as int)) && n == 2
            + chunk_len(buffer@, start as int),
        r matches Err(e) ==> e is StringDecode,
{
    let (bytes, len) = match read_data(start, buffer) {
        Ok(x) => x,
        Err(e) => {
            return Err(e);
        },
    };
    match string_from_utf8(bytes) {
        Some(s) => Ok((s, len)),
        None => Err(Error::StringDecode),
    }
}

/// Parses metadata bytes into the namespace, the operation and the instance.
/// A name that is not UTF-8 gives `StringDecode`.
pub fn parse_metadata(bytes: &[u8]) -> (r: Result<GuestMetadata, Error>)
    requires
        metadata_readable(bytes@),
    ensures
        r is Ok <==> metadata_parse(bytes@) is Some,
        r matches Ok(m) ==> metadata_parse(bytes@) == Some(
            (m.namespace@, m.operation@, m.instance@),
        ),
        r matches Err(e) ==> e is StringDecode,
{
    let (namespace, nslen) = match read_string(0, bytes) {
        Ok(x) => x,
        Err(e) => {
            return Err(e);
        },
    };
    let (operation, oplen) = match read_string(nslen, bytes) {
        Ok(x) => x,
        Err(e) => {
            return Err(e);
        },
    };
    let (instance, _) = match read_data(nslen + oplen, bytes) {
        Ok(x) => x,
        Err(e) => {
            return Err(e);
        },
    };
    Ok(GuestMetadata { namespace, operation, instance })
}

/// Whether the chunk at `start` lies in the bytes.
fn chunk_ok(buffer: &[u8], start: usize) -> (r: bool)
    ensures
        r == chunk_readable(buffer@, start as int),
{
    if start > buffer.len() || buffer.len() - start < 2 {
        return false;
    }
    let rest = vstd::slice::slice_subrange(buffer, start, buffer.len());
    let len = from_u16_bytes(rest) as usize;
    len <= buffer.len() - start - 2
}

/// Whether metadata bytes can be read as far as parsing goes.
pub fn metadata_ok(bytes: &[u8]) -> (r: bool)
    ensures
        r == metadata_readable(bytes@),
{
    if !chunk_ok(bytes, 0) {
        return false;
    }
    let (ns, e0) = match read_data(0, bytes) {
        Ok(x) => x,
        Err(_) => {
            return false;
        },
    };
    if string_from_utf8(ns).is_none() {
        return true;
    }
    if !chunk_ok(bytes, e0) {
        return false;
    }
    let (op, oplen) = match read_data(e0, bytes) {
        Ok(x) => x,
        Err(_) => {
            return false;
        },
    };
    if string_from_utf8(op).is_none() {
        return true;
    }
    chunk_ok(bytes, e0 + oplen)
}

/// Appends a part of metadata: its length in two big-endian bytes, then
/// the part.
fn push_part(out: &mut Vec<u8>, part: &[u8])
    requires
        part@.len() < 0x1_0000,
    ensures
        final(out)@ == old(out)@ + be16_seq(part@.len()) + part@,
{
    let n = part.len();
    out.push((n / 256) as u8);
    out.push((n % 256) as u8);
    push_all(out, part);
    proof {
        assert(final(out)@ =~= old(out)@ + be16_seq(part@.len()) + part@);
    }
}

impl GuestMetadata {
    /// The metadata bytes: namespace, operation and instance, each with its
    /// length in two big-endian bytes before it.
    pub fn encode(&self) -> (r: Vec<u8>)
        requires
            vstd::utf8::encode_utf8(self.namespace@).len() < 0x1_0000,
            vstd::utf8::encode_utf8(self.operation@).len() < 0x1_0000,
            self.instance@.len() < 0x1_0000,
        ensures
            r@ == metadata_encoding(
                vstd::utf8::encode_utf8(self.namespace@),
                vstd::utf8::encode_utf8(self.operation@),
                self.instance@,
            ),
    {
        let mut out: Vec<u8> = Vec::new();
        push_part(&mut out, self.namespace.as_str().as_bytes());
        push_part(&mut out, self.operation.as_str().as_bytes());
        push_part(&mut out, self.instance.as_slice());
        proof {
            assert(out@ =~= metadata_encoding(
                vstd::utf8::encode_utf8(self.namespace@),
                vstd::utf8::encode_utf8(self.operation@),
                self.instance@,
            ));
        }
        out
    }
}

/// Two length bytes read back as the length they were written from.
proof fn lemma_be16_seq(n: nat)
    requires
        n < 0x1_0000,
    ensures
        be16_value(be16_seq(n)[0], be16_seq(n)[1]) == n,
{
    let v = n as u16;
    assert(((((v / 256) as u8) as u16) << 8u16) | (((v % 256) as u8) as u16) == v) by (bit_vector);
}

/// The chunk of a part written at `start` of some bytes, followed by
/// anything, reads back as the part.
proof fn lemma_part(pre: Seq<u8>, part: Seq<u8>, post: Seq<u8>)
    requires
        part.len() < 0x1_0000,
    ensures
        chunk_readable(pre + be16_seq(part.len()) + part + post, pre.len() as int),
        chunk(pre + be16_seq(part.len()) + part + post, pre.len() as int) == part,
        chunk_end(pre + be16_seq(part.len()) + part + post, pre.len() as int) == pre.len() + 2
            + part.len(),
{
    let b = pre + be16_seq(part.len()) + part + post;
    let s = pre.len() as int;
    lemma_be16_seq(part.len());
    assert(b[s] == be16_seq(part.len())[0]);
    assert(b[s + 1] == be16_seq(part.len())[1]);
    assert(chunk(b, s) =~= part);
}

/// Parsing the metadata bytes of a namespace, an operation and an instance
/// gives them back, for parts whose lengths fit in two bytes.
pub proof fn law_metadata_roundtrip(namespace: Seq<char>, operation: Seq<char>, instance: Seq<u8>)
    requires
        vstd::utf8::encode_utf8(namespace).len() < 0x1_0000,
        vstd::utf8::encode_utf8(operation).len() < 0x1_0000,
        instance.len() < 0x1_0000,
    ensures
        metadata_readable(
            metadata_encoding(
                vstd::utf8::encode_utf8(namespace),
                vstd::utf8::encode_utf8(operation),
                instance,
            ),
        ),
        metadata_parse(
            metadata_encoding(
                vstd::utf8::encode_utf8(namespace),
                vstd::utf8::encode_utf8(operation),
                instance,
            ),
        ) == Some((namespace, operation, instance)),
{
    let ns = vstd::utf8::encode_utf8(namespace);
    let op = vstd::utf8::encode_utf8(operation);
    let b = metadata_encoding(ns, op, instance);
    let h0 = be16_seq(ns.len());
    let h1 = be16_seq(op.len());
    let h2 = be16_seq(instance.len());
    let empty = Seq::<u8>::empty();
    assert(b =~= empty + h0 + ns + (h1 + op + h2 + instance));
    lemma_part(empty, ns, h1 + op + h2 + instance);
    let pre1 = h0 + ns;
    assert(b =~= pre1 + h1 + op + (h2 + instance));
    lemma_part(pre1, op, h2 + instance);
    let pre2 = h0 + ns + h1 + op;
    assert(b =~= pre2 + h2 + instance + empty);
    lemma_part(pre2, instance, empty);
    crate::text::lemma_string_bytes_roundtrip(namespace);
    crate::text::lemma_string_bytes_roundtrip(operation);
}

/// The kinds of operation a guest serves with a registered handler.
#[derive(Clone, Copy, Debug, PartialEq, Eq, Structural)]
pub enum OperationKind {
    /// Request/response operations.
    RequestResponse,
    /// Request/stream operations.
    RequestStream,
    /// Request/channel operations.
    RequestChannel,
}

/// What a handler is registered under: its kind, namespace and operation.
pub type HandlerKey = (OperationKind, Seq<char>, Seq<char>);

/// A registered handler: under its kind, namespace and operation, the
/// number its user runs it by.
#[derive(Debug)]
struct HandlerEntry {
    kind: OperationKind,
    namespace: String,
    operation: String,
    handler: u32,
}

/// The handlers registered with a guest, by kind, namespace and operation.
#[derive(Debug)]
pub struct HandlerRegistry {
    entries: Vec<HandlerEntry>,
}

/// The key of an entry.
spec fn entry_key(e: HandlerEntry) -> HandlerKey {
    (e.kind, e.namespace@, e.operation@)
}

/// The handlers of a list of registrations: a later registration under a
/// key replaces an earlier one.
spec fn entries_map(s: Seq<HandlerEntry>) -> Map<HandlerKey, u32>
    decreases s.len(),
{
    if s.len() == 0 {
        Map::empty()
    } else {
        entries_map(s.drop_last()).insert(entry_key(s.last()), s.last().handler)
    }
}

impl View for HandlerRegistry {
    type V = Map<HandlerKey, u32>;

    closed spec fn view(&self) -> Map<HandlerKey, u32> {
        entries_map(self.entries@)
    }
}

/// Registrations after position `i` under other keys leave a key's handler
/// as the first `i` registrations give it.
proof fn lemma_entries_skip(s: Seq<HandlerEntry>, i: int, k: HandlerKey)
    requires
        0 <= i <= s.len(),
        forall|j: int| i <= j < s.len() ==> entry_key(#[trigger] s[j]) != k,
    ensures
        entries_map(s).contains_key(k) == entries_map(s.take(i)).contains_key(k),
        entries_map(s).contains_key(k) ==> entries_map(s)[k] == entries_map(s.take(i))[k],
    decreases s.len() - i,
{
    if i < s.len() {
        let t = s.drop_last();
        assert forall|j: int| i <= j < t.len() implies entry_key(#[trigger] t[j]) != k by {
            assert(t[j] == s[j]);
        }
        lemma_entries_skip(t, i, k);
        assert(t.take(i) =~= s.take(i));
        assert(entry_key(s[s.len() - 1]) != k);
    } else {
        assert(s.take(i) =~= s);
    }
}

impl HandlerRegistry {
    /// A registry with no handlers.
    pub fn new() -> (r: HandlerRegistry)
        ensures
            r@ == Map::<HandlerKey, u32>::empty(),
    {
        HandlerRegistry { entries: Vec::new() }
    }

    /// Registers a handler for an operation of a namespace, replacing any
    /// handler registered there before.
    pub fn register(&mut self, kind: OperationKind, namespace: String, operation: String, handler: u32)
        ensures
            final(self)@ == old(self)@.insert((kind, namespace@, operation@), handler),
    {
        let ghost key = (kind, namespace@, operation@);
        self.entries.push(HandlerEntry { kind, namespace, operation, handler });
        proof {
            assert(self.entries@.drop_last() =~= old(self).entries@);
        }
    }

    /// The handler registered for an operation of a namespace, if any.
    pub fn lookup(&self, kind: OperationKind, namespace: &String, operation: &String) -> (r: Option<u32>)
        ensures
            r == (if self@.contains_key((kind, namespace@, operation@)) {
                Some(self@[(kind, namespace@, operation@)])
            } else {
                None::<u32>
            }),
    {
        let ghost k: HandlerKey = (kind, namespace@, operation@);
        let mut i = self.entries.len();
        while i > 0
            invariant
                i <= self.entries@.len(),
                k == (kind, namespace@, operation@),
                forall|j: int| i <= j < self.entries@.len() ==> entry_key(#[trigger] self.entries@[j]) != k,
            decreases i,
        {
            let e = &self.entries[i - 1];
            if e.kind == kind && e.namespace == *namespace && e.operation == *operation {
                proof {
                    lemma_entries_skip(self.entries@, i as int, k);
                    let p = self.entries@.take(i as int);
                    assert(p.drop_last() =~= self.entries@.take(i - 1));
                    assert(entry_key(p.last()) == k);
                }
                return Some(e.handler);
            }
            i = i - 1;
        }
        proof {
            lemma_entries_skip(self.entries@, 0, k);
            assert(self.entries@.take(0) =~= Seq::<HandlerEntry>::empty());
        }
        None
    }
}

/// The parts of a payload received so far in fragments.
#[derive(Debug)]
pub struct Fragment {
    /// The metadata bytes received so far.
    pub metadata: Vec<u8>,
    /// The data bytes received so far.
    pub data: Vec<u8>,
}

/// The abstract content of a fragment.
pub struct FragmentView {
    pub metadata: Seq<u8>,
    pub data: Seq<u8>,
}

/// The abstract state of a guest: its open streams, the payloads it is
/// reassembling by stream, and its stream counter.
pub struct GuestView {
    pub streams: Set<u32>,
    pub fragments: Map<u32, FragmentView>,
    pub stream_index: u32,
}

/// The deciding state of a guest.
pub struct GuestState {
    streams: HashSet<u32>,
    fragments: HashMap<u32, Fragment>,
    stream_index: u32,
}

/// The view of a fragment.
pub open spec fn fragment_view(f: Fragment) -> FragmentView {
    FragmentView { metadata: f.metadata@, data: f.data@ }
}

impl View for GuestState {
    type V = GuestView;

    closed spec fn view(&self) -> GuestView {
        GuestView {
            streams: self.streams@,
            fragments: self.fragments@.map_values(|f: Fragment| fragment_view(f)),
            stream_index: self.stream_index,
        }
    }
}

/// The fragment of a stream after more metadata and data bytes arrive:
/// appended to what was received before, or the first part.
pub open spec fn fragment_after(s: GuestView, stream_id: u32, metadata: Seq<u8>, data: Seq<u8>) -> FragmentView {
    if s.fragments.contains_key(stream_id) {
        FragmentView {
            metadata: s.fragments[stream_id].metadata + metadata,
            data: s.fragments[stream_id].data + data,
        }
    } else {
        FragmentView { metadata, data }
    }
}

/// What the guest is told to do about a frame.
#[derive(Debug)]
pub enum GuestAction {
    /// Nothing more.
    Nothing,
    /// Run the registered request/response handler on the data of the
    /// stream, which is now open; its answers carry the same metadata bytes.
    RequestResponse {
        stream_id: u32,
        handler: u32,
        metadata: GuestMetadata,
        metadata_bytes: Vec<u8>,
        data: Vec<u8>,
    },
    /// Hand the payload to the receiver of its stream.
    Deliver(GuestPayload),
    /// Hand the error to the receiver of its stream.
    Error { stream_id: u32, error: PayloadError },
    /// The frame could not be handled.
    Failed(Error),
}

/// What a frame causes: the action, and whether a stream was ended
/// (`Some(true)` when the stream was open, `Some(false)` when there was
/// none to end).
#[derive(Debug)]
pub struct GuestOutcome {
    pub action: GuestAction,
    pub ended: Option<bool>,
}

/// Ending a stream: it is no longer open, and `ended` tells whether it was.
pub open spec fn ends_stream(s: GuestView, t: GuestView, stream_id: u32, ended: Option<bool>) -> bool {
    &&& t == (GuestView { streams: s.streams.remove(stream_id), ..s })
    &&& ended == Some(s.streams.contains(stream_id))
}

/// Ending the stream when the frame carries COMPLETE, and nothing else.
pub open spec fn ends_if(s: GuestView, t: GuestView, stream_id: u32, complete: bool, ended: Option<bool>) -> bool {
    if complete {
        ends_stream(s, t, stream_id, ended)
    } else {
        t == s && ended is None
    }
}

/// The decision on a complete request of the given kind: metadata that
/// does not parse fails with `StringDecode`; an operation with no
/// registered handler fails with `NoHandler`; otherwise the stream opens and
/// the handler is run on the data.
pub open spec fn starts_handler(
    s: GuestView,
    t: GuestView,
    handlers: Map<HandlerKey, u32>,
    r: GuestOutcome,
    stream_id: u32,
    metadata: Seq<u8>,
    data: Seq<u8>,
    kind: OperationKind,
) -> bool {
    &&& r.ended is None
    &&& match metadata_parse(metadata) {
        None => {
            &&& t == s
            &&& r.action matches GuestAction::Failed(Error::StringDecode)
        },
        Some((ns, op, inst)) => if !handlers.contains_key((kind, ns, op)) {
            &&& t == s
            &&& r.action matches GuestAction::Failed(Error::NoHandler)
        } else {
            &&& t == (GuestView { streams: s.streams.insert(stream_id), ..s })
            &&& r.action matches GuestAction::RequestResponse {
                stream_id: sid,
                handler: h,
                metadata: m,
                metadata_bytes: mb,
                data: d,
            }
            &&& sid == stream_id && h == handlers[(kind, ns, op)]
            &&& d@ == data && mb@ == metadata
            &&& m.namespace@ == ns && m.operation@ == op && m.instance@ == inst
        },
    }
}

/// Whether a request stream would find a handler: its metadata parses and
/// names an operation with a registered request/stream handler.
pub open spec fn stream_handler_found(handlers: Map<HandlerKey, u32>, metadata: Seq<u8>) -> bool {
    match metadata_parse(metadata) {
        Some((ns, op, _)) => handlers.contains_key((OperationKind::RequestStream, ns, op)),
        None => false,
    }
}

/// The frames a guest can handle in the state `s` with the given handlers:
/// not REQUEST_N or fire and forget, which it does not support; a completed
/// payload with NEXT or an ERROR only for an open stream; metadata that can
/// be read as far as parsing goes wherever it is parsed; and no complete
/// request/stream that finds a handler, since running one is not supported.
pub open spec fn guest_accepts(s: GuestView, handlers: Map<HandlerKey, u32>, f: FrameView) -> bool {
    match f {
        FrameView::Payload { stream_id, metadata, data, follows, next, .. } => !follows && next ==> {
            &&& s.streams.contains(stream_id)
            &&& metadata_readable(fragment_after(s, stream_id, metadata, data).metadata)
        },
        FrameView::Error { stream_id, .. } => s.streams.contains(stream_id),
        FrameView::RequestN { .. } => false,
        FrameView::RequestFnF(_) => false,
        FrameView::RequestResponse(p) => !p.follows ==> metadata_readable(p.metadata),
        FrameView::RequestStream(p) => !p.follows ==> metadata_readable(p.metadata)
            && !stream_handler_found(handlers, p.metadata),
        FrameView::RequestChannel(p) => !p.follows ==> metadata_readable(p.metadata),
        FrameView::Cancel { .. } => true,
    }
}

/// The decision of a guest on a frame, from the state before (`s`) to the
/// state after (`t`).
///
/// A PAYLOAD is added to the fragments of its stream; while more follow,
/// nothing else happens. The last fragment completes the payload: with NEXT
/// it is delivered to the stream with its metadata parsed; with COMPLETE the
/// stream ends. A CANCEL ends the stream; an ERROR is handed to the stream,
/// which ends. A complete REQUEST_RESPONSE or REQUEST_STREAM looks up the
/// handler of its operation (`starts_handler`); a REQUEST_CHANNEL does
/// nothing more.
pub open spec fn guest_decision(
    s: GuestView,
    t: GuestView,
    handlers: Map<HandlerKey, u32>,
    f: FrameView,
    r: GuestOutcome,
) -> bool {
    match f {
        FrameView::Payload { stream_id, metadata, data, follows, complete, next } => {
            let frag = fragment_after(s, stream_id, metadata, data);
            if follows {
                &&& t == (GuestView { fragments: s.fragments.insert(stream_id, frag), ..s })
                &&& r.action is Nothing
                &&& r.ended is None
            } else {
                let s1 = GuestView { fragments: s.fragments.remove(stream_id), ..s };
                if next {
                    match metadata_parse(frag.metadata) {
                        None => {
                            &&& t == s1
                            &&& r.action matches GuestAction::Failed(Error::StringDecode)
                            &&& r.ended is None
                        },
                        Some((ns, op, inst)) => {
                            &&& r.action matches GuestAction::Deliver(p)
                            &&& p.stream_id == stream_id && p.data@ == frag.data
                            &&& p.metadata.namespace@ == ns && p.metadata.operation@ == op
                            &&& p.metadata.instance@ == inst
                            &&& ends_if(s1, t, stream_id, complete, r.ended)
                        },
                    }
                } else {
                    &&& r.action is Nothing
                    &&& ends_if(s1, t, stream_id, complete, r.ended)
                }
            }
        },
        FrameView::Cancel { stream_id } => {
            &&& r.action is Nothing
            &&& ends_stream(s, t, stream_id, r.ended)
        },
        FrameView::Error { stream_id, code, message } => {
            &&& r.action matches GuestAction::Error { stream_id: sid, error }
            &&& sid == stream_id && error.code == code && error.msg@ == message
            &&& ends_stream(s, t, stream_id, r.ended)
        },
        FrameView::RequestResponse(p) => if p.follows {
            &&& t == s
            &&& r.ended is None
            &&& r.action is Nothing
        } else {
            starts_handler(
                s,
                t,
                handlers,
                r,
                p.stream_id,
                p.metadata,
                p.data,
                OperationKind::RequestResponse,
            )
        },
        FrameView::RequestStream(p) => if p.follows {
            &&& t == s
            &&& r.ended is None
            &&& r.action is Nothing
        } else {
            starts_handler(
                s,
                t,
                handlers,
                r,
                p.stream_id,
                p.metadata,
                p.data,
                OperationKind::RequestStream,
            )
        },
        FrameView::RequestChannel(p) => {
            &&& t == s
            &&& r.ended is None
            &&& r.action is Nothing
        },
        _ => true,
    }
}

impl GuestState {
    /// A new guest state: no streams, no fragments, and stream ids from 2.
    pub fn new() -> (r: GuestState)
        ensures
            r@.streams == Set::<u32>::empty(),
            r@.fragments == Map::<u32, FragmentView>::empty(),
            r@.stream_index == 2,
    {
        let r = GuestState { streams: HashSet::new(), fragments: HashMap::new(), stream_index: 2 };
        proof {
            assert(r@.fragments =~= Map::<u32, FragmentView>::empty());
        }
        r
    }

    /// Hands out the next stream id; ids advance by two, wrapping around.
    pub fn next_stream_id(&mut self) -> (r: u32)
        ensures
            r == old(self)@.stream_index,
            final(self)@ == (GuestView {
                stream_index: old(self)@.stream_index.wrapping_add(2),
                ..old(self)@
            }),
    {
        let id = self.stream_index;
        self.stream_index = self.stream_index.wrapping_add(2);
        id
    }

    /// Opens a stream.
    pub fn new_stream(&mut self, id: u32)
        ensures
            final(self)@ == (GuestView { streams: old(self)@.streams.insert(id), ..old(self)@ }),
    {
        self.streams.insert(id);
    }

    /// Whether a stream is open.
    pub fn get_stream(&self, id: u32) -> (r: bool)
        ensures
            r == self@.streams.contains(id),
    {
        self.streams.contains(&id)
    }

    /// Closes a stream.
    pub fn remove_stream(&mut self, id: u32)
        ensures
            final(self)@ == (GuestView { streams: old(self)@.streams.remove(id), ..old(self)@ }),
    {
        self.streams.remove(&id);
    }

    /// Ends a stream: closes it and tells whether it was open.
    pub fn end_stream(&mut self, id: u32) -> (r: bool)
        ensures
            r == old(self)@.streams.contains(id),
            final(self)@ == (GuestView { streams: old(self)@.streams.remove(id), ..old(self)@ }),
    {
        self.streams.remove(&id)
    }

    /// Adds the parts of a fragment to those received for a stream.
    pub fn update_fragment(&mut self, id: u32, fragment: Fragment)
        ensures
            final(self)@ == (GuestView {
                fragments: old(self)@.fragments.insert(
                    id,
                    fragment_after(old(self)@, id, fragment.metadata@, fragment.data@),
                ),
                ..old(self)@
            }),
    {
        let ghost frag = fragment_after(self@, id, fragment.metadata@, fragment.data@);
        match self.fragments.remove(&id) {
            Some(existing) => {
                let mut existing = existing;
                push_all(&mut existing.metadata, fragment.metadata.as_slice());
                push_all(&mut existing.data, fragment.data.as_slice());
                self.fragments.insert(id, existing);
            },
            None => {
                self.fragments.insert(id, fragment);
            },
        }
        proof {
            assert(self@.fragments =~= old(self)@.fragments.insert(id, frag));
        }
    }

    /// Takes out the parts received for a stream.
    pub fn get_fragment(&mut self, id: u32) -> (r: Option<Fragment>)
        ensures
            match r {
                Some(f) => old(self)@.fragments.contains_key(id) && fragment_view(f)
                    == old(self)@.fragments[id],
                None => !old(self)@.fragments.contains_key(id),
            },
            final(self)@ == (GuestView {
                fragments: old(self)@.fragments.remove(id),
                ..old(self)@
            }),
    {
        let r = self.fragments.remove(&id);
        proof {
            assert(self@.fragments =~= old(self)@.fragments.remove(id));
        }
        r
    }

    /// Starts a complete request of the given kind: parses its metadata,
    /// looks up the handler of its operation, and opens its stream.
    fn start_request(
        &mut self,
        kind: OperationKind,
        stream_id: u32,
        metadata_bytes: Vec<u8>,
        data: Vec<u8>,
        handlers: &HandlerRegistry,
    ) -> (r: GuestAction)
        requires
            metadata_readable(metadata_bytes@),
            kind == OperationKind::RequestStream ==> !stream_handler_found(
                handlers@,
                metadata_bytes@,
            ),
        ensures
            starts_handler(
                old(self)@,
                final(self)@,
                handlers@,
                GuestOutcome { action: r, ended: None },
                stream_id,
                metadata_bytes@,
                data@,
                kind,
            ),
    {
        let metadata = match parse_metadata(metadata_bytes.as_slice()) {
            Ok(m) => m,
            Err(e) => {
                return GuestAction::Failed(e);
            },
        };
        let handler = match handlers.lookup(kind, &metadata.namespace, &metadata.operation) {
            Some(h) => h,
            None => {
                return GuestAction::Failed(Error::NoHandler);
            },
        };
        self.new_stream(stream_id);
        GuestAction::RequestResponse { stream_id, handler, metadata, metadata_bytes, data }
    }

    /// Decides what a frame from the host does, with the registered handlers.
    pub fn handle_frame(&mut self, frame: Frame, handlers: &HandlerRegistry) -> (r: GuestOutcome)
        requires
            guest_accepts(old(self)@, handlers@, frame@),
        ensures
            guest_decision(old(self)@, final(self)@, handlers@, frame@, r),
    {
        match frame {
            Frame::PayloadFrame(f) => {
                let stream_id = f.stream_id;
                let follows = f.follows;
                let next = f.next;
                let complete = f.complete;
                self.update_fragment(stream_id, Fragment { metadata: f.metadata, data: f.data });
                if follows {
                    return GuestOutcome { action: GuestAction::Nothing, ended: None };
                }
                let ghost frag = fragment_after(old(self)@, stream_id, f.metadata@, f.data@);
                let whole = match self.get_fragment(stream_id) {
                    Some(w) => w,
                    None => {
                        proof {
                            assert(false);
                        }
                        return GuestOutcome { action: GuestAction::Nothing, ended: None };
                    },
                };
                proof {
                    assert(self@.fragments =~= old(self)@.fragments.remove(stream_id));
                    assert(self@ == (GuestView { fragments: old(self)@.fragments.remove(stream_id), ..old(self)@ }));
                    assert(whole.metadata@ == frag.metadata);
                    assert(whole.data@ == frag.data);
                }
                let action = if next {
                    match parse_metadata(whole.metadata.as_slice()) {
                        Ok(metadata) => GuestAction::Deliver(
                            GuestPayload::new(stream_id, whole.data, metadata),
                        ),
                        Err(e) => {
                            return GuestOutcome { action: GuestAction::Failed(e), ended: None };
                        },
                    }
                } else {
                    GuestAction::Nothing
                };
                let ended = if complete {
                    Some(self.end_stream(stream_id))
                } else {
                    None
                };
                GuestOutcome { action, ended }
            },
            Frame::Cancel(f) => {
                let ended = self.end_stream(f.stream_id);
                GuestOutcome { action: GuestAction::Nothing, ended: Some(ended) }
            },
            Frame::ErrorFrame(f) => {
                let stream_id = f.stream_id;
                let error = PayloadError::new(f.code, f.data);
                let ended = self.end_stream(stream_id);
                GuestOutcome { action: GuestAction::Error { stream_id, error }, ended: Some(ended) }
            },
            Frame::RequestResponse(f) => {
                if f.0.follows {
                    return GuestOutcome { action: GuestAction::Nothing, ended: None };
                }
                let action = self.start_request(
                    OperationKind::RequestResponse,
                    f.0.stream_id,
                    f.0.metadata,
                    f.0.data,
                    handlers,
                );
                GuestOutcome { action, ended: None }
            },
            Frame::RequestStream(f) => {
                if f.0.follows {
                    return GuestOutcome { action: GuestAction::Nothing, ended: None };
                }
                let action = self.start_request(
                    OperationKind::RequestStream,
                    f.0.stream_id,
                    f.0.metadata,
                    f.0.data,
                    handlers,
                );
                GuestOutcome { action, ended: None }
            },
            Frame::RequestChannel(f) => {
                if !f.0.follows {
                    let _ = parse_metadata(f.0.metadata.as_slice());
                }
                GuestOutcome { action: GuestAction::Nothing, ended: None }
            },
            Frame::RequestN(_) => {
                proof {
                    assert(false);
                }
                GuestOutcome { action: GuestAction::Nothing, ended: None }
            },
            Frame::RequestFnF(_) => {
                proof {
                    assert(false);
                }
                GuestOutcome { action: GuestAction::Nothing, ended: None }
            },
        }
    }
}

/// The frame that carries an answer of a guest handler: a payload with the
/// request's metadata bytes and no flags, or the handler's error.
pub fn guest_answer_frame(stream_id: u32, metadata_bytes: Vec<u8>, item: Result<Vec<u8>, PayloadError>) -> (r: Frame)
    ensures
        match item {
            Ok(d) => r@ == (FrameView::Payload {
                stream_id,
                metadata: metadata_bytes@,
                data: d@,
                follows: false,
                complete: false,
                next: false,
            }),
            Err(e) => r@ == (FrameView::Error { stream_id, code: e.code, message: e.msg@ }),
        },
{
    match item {
        Ok(d) => {
            let r = Frame::new_payload(stream_id, Payload::new(metadata_bytes, d), 0);
            assert(has_flag(0, FLAG_FOLLOW) == false) by (bit_vector);
            assert(has_flag(0, FLAG_COMPLETE) == false) by (bit_vector);
            assert(has_flag(0, FLAG_NEXT) == false) by (bit_vector);
            r
        },
        Err(e) => Frame::new_error(stream_id, e.code, e.msg.as_str()),
    }
}

impl Error {
    /// The error as it is displayed: every guest error displays as `Error`.
    pub fn display_text(&self) -> (r: &'static str)
        ensures
            r@ == "Error"@,
    {
        "Error"
    }
}

/// The frame a guest sends when the handler of a request fails to start: an
/// APPLICATION_ERROR carrying the failure as it is displayed.
pub fn handler_failed_frame(stream_id: u32, failure: &Error) -> (r: Frame)
    ensures
        r@ == (FrameView::Error { stream_id, code: 0x201, message: "Error"@ }),
{
    Frame::new_error(stream_id, 0x201, failure.display_text())
}

/// The bytes a guest writes to the host buffer for an encoded frame: the
/// frame's length in four big-endian bytes, then the frame.
pub fn host_buffer_bytes(frame_bytes: &[u8]) -> (r: Vec<u8>)
    requires
        frame_bytes@.len() < 0x1_0000_0000,
    ensures
        r@ == be32(frame_bytes@.len() as u32) + frame_bytes@,
{
    let mut out = to_u32_bytes(frame_bytes.len() as u32);
    push_all(&mut out, frame_bytes);
    out
}

/// Fragments concatenate: the parts of a payload that arrive in two
/// fragments for a stream with none before are the first parts followed by
/// the second.
pub proof fn law_fragments_concatenate(
    s: GuestView,
    stream_id: u32,
    m1: Seq<u8>,
    d1: Seq<u8>,
    m2: Seq<u8>,
    d2: Seq<u8>,
)
    requires
        !s.fragments.contains_key(stream_id),
    ensures
        fragment_after(
            GuestView {
                fragments: s.fragments.insert(stream_id, fragment_after(s, stream_id, m1, d1)),
                ..s
            },
            stream_id,
            m2,
            d2,
        ) == (FragmentView { metadata: m1 + m2, data: d1 + d2 }),
{
}

/// A payload sent in two fragments is delivered whole: when the first
/// fragment announces that more follow and the second completes it with
/// NEXT, the guest delivers the metadata and data of both, in order, and
/// keeps no fragment for the stream.
pub proof fn law_fragmented_payload_delivered(
    s: GuestView,
    t: GuestView,
    u: GuestView,
    handlers: Map<HandlerKey, u32>,
    first: FrameView,
    second: FrameView,
    r1: GuestOutcome,
    r2: GuestOutcome,
)
    requires
        first matches FrameView::Payload { follows: true, .. },
        second matches FrameView::Payload { follows: false, next: true, .. },
        view_stream_id(first) == view_stream_id(second),
        !s.fragments.contains_key(view_stream_id(first)),
        guest_decision(s, t, handlers, first, r1),
        guest_decision(t, u, handlers, second, r2),
        metadata_parse(view_metadata(first) + view_metadata(second)) is Some,
    ensures
        r1.action is Nothing,
        r2.action matches GuestAction::Deliver(p) && p.stream_id == view_stream_id(first) && p.data@
            == view_data(first) + view_data(second),
        !u.fragments.contains_key(view_stream_id(first)),
{
}

/// A completed PAYLOAD with COMPLETE ends its stream: for an open stream
/// with no fragment stored, the last fragment of a payload (no FOLLOWS)
/// that carries COMPLETE closes the stream and reports that it was open,
/// with or without NEXT, as long as a payload with NEXT has metadata that
/// parses (otherwise the guest fails before it ends the stream). The stream
/// keeps no fragment either way.
pub proof fn law_complete_ends_stream(
    s: GuestView,
    t: GuestView,
    handlers: Map<HandlerKey, u32>,
    stream_id: u32,
    metadata: Seq<u8>,
    data: Seq<u8>,
    next: bool,
    r: GuestOutcome,
)
    requires
        s.streams.contains(stream_id),
        !s.fragments.contains_key(stream_id),
        next ==> metadata_parse(metadata) is Some,
        guest_decision(
            s,
            t,
            handlers,
            FrameView::Payload { stream_id, metadata, data, follows: false, complete: true, next },
            r,
        ),
    ensures
        r.ended == Some(true),
        !t.streams.contains(stream_id),
        forall|k: u32| k != stream_id ==> (t.streams.contains(k) == s.streams.contains(k)),
        !t.fragments.contains_key(stream_id),
        !next ==> r.action is Nothing,
        next ==> r.action is Deliver,
{
}

/// Without COMPLETE a completed PAYLOAD leaves its stream open: for an open
/// stream, the last fragment of a payload (no FOLLOWS) without COMPLETE
/// ends nothing.
pub proof fn law_no_complete_keeps_stream(
    s: GuestView,
    t: GuestView,
    handlers: Map<HandlerKey, u32>,
    stream_id: u32,
    metadata: Seq<u8>,
    data: Seq<u8>,
    next: bool,
    r: GuestOutcome,
)
    requires
        s.streams.contains(stream_id),
        guest_decision(
            s,
            t,
            handlers,
            FrameView::Payload { stream_id, metadata, data, follows: false, complete: false, next },
            r,
        ),
    ensures
        r.ended is None,
        t.streams == s.streams,
{
}

/// A complete REQUEST_RESPONSE whose metadata names an operation runs the
/// handler registered for it: the stream opens and the action carries that
/// handler, the metadata and the data; with no handler registered the
/// guest fails with `NoHandler` and opens nothing.
pub proof fn law_request_runs_registered_handler(
    s: GuestView,
    t: GuestView,
    handlers: Map<HandlerKey, u32>,
    p: RequestPayloadView,
    namespace: Seq<char>,
    operation: Seq<char>,
    instance: Seq<u8>,
    r: GuestOutcome,
)
    requires
        !p.follows,
        metadata_parse(p.metadata) == Some((namespace, operation, instance)),
        guest_decision(s, t, handlers, FrameView::RequestResponse(p), r),
    ensures
        r.ended is None,
        handlers.contains_key((OperationKind::RequestResponse, namespace, operation)) ==> {
            &&& r.action is RequestResponse
            &&& r.action->RequestResponse_stream_id == p.stream_id
            &&& r.action->handler == handlers[(OperationKind::RequestResponse, namespace, operation)]
            &&& r.action->RequestResponse_data@ == p.data
            &&& r.action->RequestResponse_metadata.namespace@ == namespace
            &&& r.action->RequestResponse_metadata.operation@ == operation
            &&& t.streams == s.streams.insert(p.stream_id)
            &&& t.fragments == s.fragments
        },
        !handlers.contains_key((OperationKind::RequestResponse, namespace, operation)) ==> {
            &&& r.action is Failed
            &&& r.action->Failed_0 is NoHandler
            &&& t == s
        },
{
}

/// An ERROR frame is handed to its stream, which ends: the action carries
/// the frame's code and text, and the stream is no longer open.
pub proof fn law_error_ends_stream(
    s: GuestView,
    t: GuestView,
    handlers: Map<HandlerKey, u32>,
    stream_id: u32,
    code: u32,
    message: Seq<char>,
    r: GuestOutcome,
)
    requires
        s.streams.contains(stream_id),
        guest_decision(s, t, handlers, FrameView::Error { stream_id, code, message }, r),
    ensures
        r.action is Error,
        r.action->Error_stream_id == stream_id,
        r.action->error.code == code,
        r.action->error.msg@ == message,
        r.ended == Some(true),
        !t.streams.contains(stream_id),
{
}

} // verus!

//! wasmRS frames: their construction, binary encoding and decoding.
use vstd::prelude::*;
use vstd::slice::slice_subrange;
use vstd::utf8::{decode_utf8, encode_utf8, valid_utf8};
use crate::error::{Error, PayloadError};
use crate::header::{
    FrameFlags, FrameHeader, FLAG_COMPLETE, FLAG_FOLLOW, FLAG_METADATA, FLAG_NEXT, LEN_HEADER,
    flag_complete, flag_follows, flag_next, has_flag, header_bytes, header_has, header_stream_id,
    header_type,
};
use crate::kinds::FrameType;
use crate::payload::{
    announced_len,
    bytes_or_empty, flag_bits, is_multi_type, md_section_ok, md_section_readable, metadata_and_data, opt_bytes,
    read_md_section, request_decodable, request_decoding, request_encoding, request_flags, section_data,
    section_metadata, write_md_section, Payload, RequestPayload, RequestPayloadView,
};
use crate::text::{string_from_utf8, string_to_bytes};
use crate::util::{be24, be32, be32_value, copy_range, from_u32_bytes, push_all, to_u32_bytes};

verus! {

/// An ERROR frame: an error code and a message for a stream.
#[derive(Debug)]
pub struct ErrorFrame {
    /// The stream id this frame belongs to.
    pub stream_id: u32,
    /// The error code.
    pub code: u32,
    /// The error message.
    pub data: String,
}

/// A CANCEL frame.
#[derive(Debug)]
pub struct Cancel {
    /// The stream id this frame belongs to.
    pub stream_id: u32,
}

/// A REQUEST_N frame: more items requested on a stream.
#[derive(Debug)]
pub struct RequestN {
    /// The stream id this frame belongs to.
    pub stream_id: u32,
    /// The number of items requested.
    pub n: u32,
}

/// A PAYLOAD frame.
#[derive(Debug)]
pub struct PayloadFrame {
    /// The stream id this frame belongs to.
    pub stream_id: u32,
    /// Metadata bytes (empty when there is none).
    pub metadata: Vec<u8>,
    /// Data bytes.
    pub data: Vec<u8>,
    /// Whether more fragments of this payload follow.
    pub follows: bool,
    /// Whether this is the last payload of the stream.
    pub complete: bool,
    /// Whether this frame carries a payload item.
    pub next: bool,
}

/// A REQUEST_RESPONSE frame.
#[derive(Debug)]
pub struct RequestResponse(pub RequestPayload);

/// A REQUEST_FNF (fire and forget) frame.
#[derive(Debug)]
pub struct RequestFnF(pub RequestPayload);

/// A REQUEST_STREAM frame.
#[derive(Debug)]
pub struct RequestStream(pub RequestPayload);

/// A REQUEST_CHANNEL frame.
#[derive(Debug)]
pub struct RequestChannel(pub RequestPayload);

/// Any wasmRS frame.
#[derive(Debug)]
pub enum Frame {
    PayloadFrame(PayloadFrame),
    Cancel(Cancel),
    ErrorFrame(ErrorFrame),
    RequestN(RequestN),
    RequestResponse(RequestResponse),
    RequestFnF(RequestFnF),
    RequestStream(RequestStream),
    RequestChannel(RequestChannel),
}

/// The abstract content of a frame.
pub enum FrameView {
    Payload {
        stream_id: u32,
        metadata: Seq<u8>,
        data: Seq<u8>,
        follows: bool,
        complete: bool,
        next: bool,
    },
    Cancel { stream_id: u32 },
    Error { stream_id: u32, code: u32, message: Seq<char> },
    RequestN { stream_id: u32, n: u32 },
    RequestResponse(RequestPayloadView),
    RequestFnF(RequestPayloadView),
    RequestStream(RequestPayloadView),
    RequestChannel(RequestPayloadView),
}

impl View for Frame {
    type V = FrameView;

    open spec fn view(&self) -> FrameView {
        match self {
            Frame::PayloadFrame(f) => FrameView::Payload {
                stream_id: f.stream_id,
                metadata: f.metadata@,
                data: f.data@,
                follows: f.follows,
                complete: f.complete,
                next: f.next,
            },
            Frame::Cancel(f) => FrameView::Cancel { stream_id: f.stream_id },
            Frame::ErrorFrame(f) => FrameView::Error {
                stream_id: f.stream_id,
                code: f.code,
                message: f.data@,
            },
            Frame::RequestN(f) => FrameView::RequestN { stream_id: f.stream_id, n: f.n },
            Frame::RequestResponse(f) => FrameView::RequestResponse(f.0@),
            Frame::RequestFnF(f) => FrameView::RequestFnF(f.0@),
            Frame::RequestStream(f) => FrameView::RequestStream(f.0@),
            Frame::RequestChannel(f) => FrameView::RequestChannel(f.0@),
        }
    }
}

/// The stream id of a frame.
pub open spec fn view_stream_id(f: FrameView) -> u32 {
    match f {
        FrameView::Payload { stream_id, .. } => stream_id,
        FrameView::Cancel { stream_id } => stream_id,
        FrameView::Error { stream_id, .. } => stream_id,
        FrameView::RequestN { stream_id, .. } => stream_id,
        FrameView::RequestResponse(p) => p.stream_id,
        FrameView::RequestFnF(p) => p.stream_id,
        FrameView::RequestStream(p) => p.stream_id,
        FrameView::RequestChannel(p) => p.stream_id,
    }
}

/// The frame type of a frame.
pub open spec fn view_frame_type(f: FrameView) -> FrameType {
    match f {
        FrameView::Payload { .. } => FrameType::Payload,
        FrameView::Cancel { .. } => FrameType::Cancel,
        FrameView::Error { .. } => FrameType::Error,
        FrameView::RequestN { .. } => FrameType::RequestN,
        FrameView::RequestResponse(_) => FrameType::RequestResponse,
        FrameView::RequestFnF(_) => FrameType::RequestFnf,
        FrameView::RequestStream(_) => FrameType::RequestStream,
        FrameView::RequestChannel(_) => FrameType::RequestChannel,
    }
}

/// The flags of a payload frame.
pub open spec fn payload_flags(metadata: Seq<u8>, follows: bool, complete: bool, next: bool) -> u16 {
    flag_bits(metadata.len() > 0, follows, complete, next)
}

/// The flags a frame is encoded with.
pub open spec fn view_flags(f: FrameView) -> u16 {
    match f {
        FrameView::Payload { metadata, follows, complete, next, .. } => payload_flags(
            metadata,
            follows,
            complete,
            next,
        ),
        FrameView::Cancel { .. } => 0,
        FrameView::Error { .. } => 0,
        FrameView::RequestN { .. } => 0,
        FrameView::RequestResponse(p) => crate::payload::request_flags(p),
        FrameView::RequestFnF(p) => crate::payload::request_flags(p),
        FrameView::RequestStream(p) => crate::payload::request_flags(p),
        FrameView::RequestChannel(p) => crate::payload::request_flags(p),
    }
}

/// Whether a frame can be encoded: a request body must name a frame type
/// that has a wire number.
pub open spec fn view_encodable(f: FrameView) -> bool {
    match f {
        FrameView::RequestResponse(p) => p.frame_type != FrameType::Reserved,
        FrameView::RequestFnF(p) => p.frame_type != FrameType::Reserved,
        FrameView::RequestStream(p) => p.frame_type != FrameType::Reserved,
        FrameView::RequestChannel(p) => p.frame_type != FrameType::Reserved,
        _ => true,
    }
}

/// The encoding of a frame.
pub open spec fn frame_encoding(f: FrameView) -> Seq<u8> {
    match f {
        FrameView::Payload { stream_id, metadata, data, follows, complete, next } => header_bytes(
            stream_id,
            FrameType::Payload,
            payload_flags(metadata, follows, complete, next),
        ) + metadata_and_data(metadata, data),
        FrameView::Cancel { stream_id } => header_bytes(stream_id, FrameType::Cancel, 0),
        FrameView::Error { stream_id, code, message } => header_bytes(stream_id, FrameType::Error, 0)
            + be32(code) + encode_utf8(message),
        FrameView::RequestN { stream_id, n } => header_bytes(stream_id, FrameType::RequestN, 0)
            + be32(n),
        FrameView::RequestResponse(p) => request_encoding(p),
        FrameView::RequestFnF(p) => request_encoding(p),
        FrameView::RequestStream(p) => request_encoding(p),
        FrameView::RequestChannel(p) => request_encoding(p),
    }
}

/// The header part of frame bytes.
pub open spec fn head(bytes: Seq<u8>) -> Seq<u8> {
    bytes.subrange(0, LEN_HEADER as int)
}

/// The part of frame bytes after the header.
pub open spec fn body(bytes: Seq<u8>) -> Seq<u8> {
    bytes.subrange(LEN_HEADER as int, bytes.len() as int)
}

/// Whether a frame body can be decoded for the given header.
pub open spec fn body_decodable(h: Seq<u8>, b: Seq<u8>) -> bool {
    &&& h.len() >= LEN_HEADER
    &&& header_type(h) matches Some(t)
    &&& match t {
        FrameType::RequestResponse => request_decodable(h, b),
        FrameType::RequestFnf => request_decodable(h, b),
        FrameType::RequestStream => request_decodable(h, b),
        FrameType::RequestChannel => request_decodable(h, b),
        FrameType::RequestN => b.len() >= 4,
        FrameType::Cancel => true,
        FrameType::Payload => md_section_readable(header_has(h, FLAG_METADATA), b, 0),
        FrameType::Error => b.len() >= 4,
        _ => false,
    }
}

/// Whether frame bytes can be decoded: a full header of a known, supported
/// frame type, and a body long enough for what the header announces.
pub open spec fn frame_decodable(bytes: Seq<u8>) -> bool {
    bytes.len() >= LEN_HEADER && body_decodable(head(bytes), body(bytes))
}

/// The frame decoded from a header and a body; `None` when the message of
/// an ERROR frame is not valid UTF-8.
pub open spec fn body_decoding(h: Seq<u8>, b: Seq<u8>) -> Option<FrameView> {
    let t = header_type(h)->0;
    let sid = header_stream_id(h);
    if t == FrameType::RequestResponse {
        Some(FrameView::RequestResponse(request_decoding(h, b)))
    } else if t == FrameType::RequestFnf {
        Some(FrameView::RequestFnF(request_decoding(h, b)))
    } else if t == FrameType::RequestStream {
        Some(FrameView::RequestStream(request_decoding(h, b)))
    } else if t == FrameType::RequestChannel {
        Some(FrameView::RequestChannel(request_decoding(h, b)))
    } else if t == FrameType::RequestN {
        Some(FrameView::RequestN { stream_id: sid, n: be32_value(b[0], b[1], b[2], b[3]) })
    } else if t == FrameType::Cancel {
        Some(FrameView::Cancel { stream_id: sid })
    } else if t == FrameType::Payload {
        let m = header_has(h, FLAG_METADATA);
        Some(
            FrameView::Payload {
                stream_id: sid,
                metadata: section_metadata(m, b, 0),
                data: section_data(m, b, 0),
                follows: header_has(h, FLAG_FOLLOW),
                complete: header_has(h, FLAG_COMPLETE),
                next: header_has(h, FLAG_NEXT),
            },
        )
    } else {
        let text = b.subrange(4, b.len() as int);
        if valid_utf8(text) {
            Some(
                FrameView::Error {
                    stream_id: sid,
                    code: be32_value(b[0], b[1], b[2], b[3]),
                    message: decode_utf8(text),
                },
            )
        } else {
            None
        }
    }
}

/// The frame decoded from frame bytes.
pub open spec fn frame_decoding(bytes: Seq<u8>) -> Option<FrameView> {
    body_decoding(head(bytes), body(bytes))
}

impl ErrorFrame {
    /// The stream id of the frame.
    pub fn stream_id(&self) -> (r: u32)
        ensures
            r == self.stream_id,
    {
        self.stream_id
    }

    /// The header of the encoded frame.
    pub fn gen_header(&self) -> (r: FrameHeader)
        ensures
            r.header@ == header_bytes(self.stream_id, FrameType::Error, 0),
    {
        FrameHeader::new(self.stream_id, FrameType::Error, 0)
    }

    /// Decodes an ERROR frame from a header and its body. A header of another
    /// type gives `WrongType`; a message that is not UTF-8 gives
    /// `StringConversion`.
    pub fn decode_frame(header: &FrameHeader, buffer: &[u8]) -> (r: Result<ErrorFrame, Error>)
        requires
            header.header@.len() >= LEN_HEADER,
            header_type(header.header@) is Some,
            header_type(header.header@) == Some(FrameType::Error) ==> buffer@.len() >= 4,
        ensures
            header_type(header.header@) != Some(FrameType::Error) ==> r matches Err(
                Error::WrongType,
            ),
            header_type(header.header@) == Some(FrameType::Error) ==> {
                &&& r is Ok <==> body_decoding(header.header@, buffer@) is Some
                &&& r matches Err(e) ==> e is StringConversion
                &&& r matches Ok(f) ==> body_decoding(header.header@, buffer@) == Some(
                    FrameView::Error { stream_id: f.stream_id, code: f.code, message: f.data@ },
                )
            },
    {
        let t = header.frame_type();
        match t {
            FrameType::Error => {},
            _ => {
                return Err(Error::WrongType);
            },
        }
        let code = from_u32_bytes(buffer);
        let text = copy_range(buffer, 4, buffer.len());
        match string_from_utf8(text) {
            Some(data) => Ok(ErrorFrame { stream_id: header.stream_id(), code, data }),
            None => Err(Error::StringConversion),
        }
    }

    /// Decodes an ERROR frame from its bytes, header included.
    pub fn decode_all(buffer: &[u8]) -> (r: Result<ErrorFrame, Error>)
        requires
            buffer@.len() >= LEN_HEADER,
            header_type(head(buffer@)) is Some,
            header_type(head(buffer@)) == Some(FrameType::Error) ==> buffer@.len() >= LEN_HEADER
                + 4,
        ensures
            header_type(head(buffer@)) != Some(FrameType::Error) ==> r matches Err(
                Error::WrongType,
            ),
            header_type(head(buffer@)) == Some(FrameType::Error) ==> {
                &&& r is Ok <==> frame_decoding(buffer@) is Some
                &&& r matches Err(e) ==> e is StringConversion
                &&& r matches Ok(f) ==> frame_decoding(buffer@) == Some(
                    FrameView::Error { stream_id: f.stream_id, code: f.code, message: f.data@ },
                )
            },
    {
        let header = FrameHeader::from_bytes(copy_range(buffer, 0, LEN_HEADER));
        let rest = slice_subrange(buffer, LEN_HEADER, buffer.len());
        Self::decode_frame(&header, rest)
    }

    /// The encoded frame: header, error code, UTF-8 message.
    pub fn encode(self) -> (r: Vec<u8>)
        ensures
            r@ == frame_encoding(FrameView::Error { stream_id: self.stream_id, code: self.code, message: self.data@ }),
    {
        let mut out = self.gen_header().encode();
        let code = to_u32_bytes(self.code);
        push_all(&mut out, code.as_slice());
        let text = string_to_bytes(&self.data);
        push_all(&mut out, text.as_slice());
        proof {
            assert(out@ =~= frame_encoding(
                FrameView::Error { stream_id: self.stream_id, code: self.code, message: self.data@ },
            ));
        }
        out
    }
}

impl Cancel {
    /// The encoded frame: a header only.
    pub fn encode(self) -> (r: Vec<u8>)
        ensures
            r@ == frame_encoding(FrameView::Cancel { stream_id: self.stream_id }),
    {
        FrameHeader::new(self.stream_id, FrameType::Cancel, 0).encode()
    }
}

impl RequestN {
    /// The encoded frame: header and the requested count.
    pub fn encode(self) -> (r: Vec<u8>)
        ensures
            r@ == frame_encoding(FrameView::RequestN { stream_id: self.stream_id, n: self.n }),
    {
        let mut out = FrameHeader::new(self.stream_id, FrameType::RequestN, 0).encode();
        let n = to_u32_bytes(self.n);
        push_all(&mut out, n.as_slice());
        out
    }
}

impl PayloadFrame {
    /// The payload frame for a payload; missing metadata or data become empty,
    /// and FOLLOWS, COMPLETE and NEXT are taken from the flags.
    pub fn from_payload(stream_id: u32, payload: Payload, flags: FrameFlags) -> (r: PayloadFrame)
        ensures
            r.stream_id == stream_id,
            r.metadata@ == bytes_or_empty(payload.metadata),
            r.data@ == bytes_or_empty(payload.data),
            r.follows == has_flag(flags, FLAG_FOLLOW),
            r.complete == has_flag(flags, FLAG_COMPLETE),
            r.next == has_flag(flags, FLAG_NEXT),
    {
        let metadata = match payload.metadata {
            Some(m) => m,
            None => Vec::new(),
        };
        let data = match payload.data {
            Some(d) => d,
            None => Vec::new(),
        };
        PayloadFrame {
            stream_id,
            metadata,
            data,
            follows: flag_follows(flags),
            complete: flag_complete(flags),
            next: flag_next(flags),
        }
    }

    /// The flags the frame is encoded with.
    pub fn get_flag(&self) -> (r: FrameFlags)
        ensures
            r == payload_flags(self.metadata@, self.follows, self.complete, self.next),
    {
        let m = self.metadata.len() > 0;
        (if m { 256u16 } else { 0u16 }) | (if self.follows { 128u16 } else { 0u16 }) | (
        if self.complete {
            64u16
        } else {
            0u16
        }) | (if self.next { 32u16 } else { 0u16 })
    }

    /// The encoded frame: header, metadata section, data.
    pub fn encode(self) -> (r: Vec<u8>)
        ensures
            r@ == frame_encoding(
                FrameView::Payload {
                    stream_id: self.stream_id,
                    metadata: self.metadata@,
                    data: self.data@,
                    follows: self.follows,
                    complete: self.complete,
                    next: self.next,
                },
            ),
    {
        let flags = self.get_flag();
        let mut out = FrameHeader::new(self.stream_id, FrameType::Payload, flags).encode();
        write_md_section(&mut out, &self.metadata, &self.data);
        out
    }

    /// The payload the frame carries: its metadata and data.
    pub fn into_payload(self) -> (r: Payload)
        ensures
            opt_bytes(r.metadata) == Some(self.metadata@),
            opt_bytes(r.data) == Some(self.data@),
    {
        Payload { metadata: Some(self.metadata), data: Some(self.data) }
    }
}

impl RequestResponse {
    /// A REQUEST_RESPONSE frame for a payload.
    pub fn from_payload(stream_id: u32, payload: Payload, flags: FrameFlags, initial_n: u32) -> (r:
        RequestResponse)
        ensures
            r.0@ == (RequestPayloadView {
                frame_type: FrameType::RequestResponse,
                stream_id,
                metadata: bytes_or_empty(payload.metadata),
                data: bytes_or_empty(payload.data),
                follows: has_flag(flags, FLAG_FOLLOW),
                complete: has_flag(flags, FLAG_COMPLETE),
                initial_n,
            }),
    {
        RequestResponse(
            RequestPayload::from_payload(
                stream_id,
                payload,
                FrameType::RequestResponse,
                flags,
                initial_n,
            ),
        )
    }
}

impl RequestFnF {
    /// A REQUEST_FNF frame for a payload.
    pub fn from_payload(stream_id: u32, payload: Payload, flags: FrameFlags, initial_n: u32) -> (r:
        RequestFnF)
        ensures
            r.0@ == (RequestPayloadView {
                frame_type: FrameType::RequestFnf,
                stream_id,
                metadata: bytes_or_empty(payload.metadata),
                data: bytes_or_empty(payload.data),
                follows: has_flag(flags, FLAG_FOLLOW),
                complete: has_flag(flags, FLAG_COMPLETE),
                initial_n,
            }),
    {
        RequestFnF(
            RequestPayload::from_payload(stream_id, payload, FrameType::RequestFnf, flags, initial_n),
        )
    }
}

impl RequestStream {
    /// A REQUEST_STREAM frame for a payload.
    pub fn from_payload(stream_id: u32, payload: Payload, flags: FrameFlags, initial_n: u32) -> (r:
        RequestStream)
        ensures
            r.0@ == (RequestPayloadView {
                frame_type: FrameType::RequestStream,
                stream_id,
                metadata: bytes_or_empty(payload.metadata),
                data: bytes_or_empty(payload.data),
                follows: has_flag(flags, FLAG_FOLLOW),
                complete: has_flag(flags, FLAG_COMPLETE),
                initial_n,
            }),
    {
        RequestStream(
            RequestPayload::from_payload(
                stream_id,
                payload,
                FrameType::RequestStream,
                flags,
                initial_n,
            ),
        )
    }
}

impl RequestChannel {
    /// A REQUEST_CHANNEL frame for a payload.
    pub fn from_payload(stream_id: u32, payload: Payload, flags: FrameFlags, initial_n: u32) -> (r:
        RequestChannel)
        ensures
            r.0@ == (RequestPayloadView {
                frame_type: FrameType::RequestChannel,
                stream_id,
                metadata: bytes_or_empty(payload.metadata),
                data: bytes_or_empty(payload.data),
                follows: has_flag(flags, FLAG_FOLLOW),
                complete: has_flag(flags, FLAG_COMPLETE),
                initial_n,
            }),
    {
        RequestChannel(
            RequestPayload::from_payload(
                stream_id,
                payload,
                FrameType::RequestChannel,
                flags,
                initial_n,
            ),
        )
    }
}

impl Frame {
    /// The stream id of the frame.
    pub fn stream_id(&self) -> (r: u32)
        ensures
            r == view_stream_id(self@),
    {
        match self {
            Frame::PayloadFrame(frame) => frame.stream_id,
            Frame::Cancel(frame) => frame.stream_id,
            Frame::ErrorFrame(frame) => frame.stream_id,
            Frame::RequestN(frame) => frame.stream_id,
            Frame::RequestResponse(frame) => frame.0.stream_id,
            Frame::RequestFnF(frame) => frame.0.stream_id,
            Frame::RequestStream(frame) => frame.0.stream_id,
            Frame::RequestChannel(frame) => frame.0.stream_id,
        }
    }

    /// The flags of the frame, as they are encoded.
    pub fn get_flag(&self) -> (r: FrameFlags)
        ensures
            r == view_flags(self@),
    {
        match self {
            Frame::PayloadFrame(frame) => frame.get_flag(),
            Frame::Cancel(_) => 0,
            Frame::ErrorFrame(_) => 0,
            Frame::RequestN(_) => 0,
            Frame::RequestResponse(frame) => frame.0.get_flags(),
            Frame::RequestFnF(frame) => frame.0.get_flags(),
            Frame::RequestStream(frame) => frame.0.get_flags(),
            Frame::RequestChannel(frame) => frame.0.get_flags(),
        }
    }

    /// The frame type.
    pub fn frame_type(&self) -> (r: FrameType)
        ensures
            r == view_frame_type(self@),
    {
        match self {
            Frame::PayloadFrame(_) => FrameType::Payload,
            Frame::Cancel(_) => FrameType::Cancel,
            Frame::ErrorFrame(_) => FrameType::Error,
            Frame::RequestN(_) => FrameType::RequestN,
            Frame::RequestResponse(_) => FrameType::RequestResponse,
            Frame::RequestFnF(_) => FrameType::RequestFnf,
            Frame::RequestStream(_) => FrameType::RequestStream,
            Frame::RequestChannel(_) => FrameType::RequestChannel,
        }
    }

    /// Whether bytes hold a frame that `decode` takes: a full header of a
    /// known, supported frame type, and a body long enough for what the
    /// header announces.
    pub fn decodable(bytes: &[u8]) -> (r: bool)
        ensures
            r == frame_decodable(bytes@),
    {
        if bytes.len() < LEN_HEADER {
            return false;
        }
        let header = FrameHeader::from_bytes(copy_range(bytes, 0, LEN_HEADER));
        let rest = slice_subrange(bytes, LEN_HEADER, bytes.len());
        proof {
            assert(header.header@ == head(bytes@));
            assert(rest@ == body(bytes@));
        }
        let code: u8 = bytes[4] >> 2u8;
        let t = match FrameType::try_from(code) {
            Ok(t) => t,
            Err(_) => {
                return false;
            },
        };
        let m = header.has_metadata();
        match t {
            FrameType::RequestResponse => md_section_ok(m, rest, 0),
            FrameType::RequestFnf => md_section_ok(m, rest, 0),
            FrameType::RequestStream => md_section_ok(m, rest, 4),
            FrameType::RequestChannel => md_section_ok(m, rest, 4),
            FrameType::RequestN => rest.len() >= 4,
            FrameType::Cancel => true,
            FrameType::Payload => md_section_ok(m, rest, 0),
            FrameType::Error => rest.len() >= 4,
            _ => false,
        }
    }

    /// Decodes a frame from its bytes. A failure carries the stream id of the
    /// header; the only failure is an ERROR frame whose message is not UTF-8.
    pub fn decode(bytes: Vec<u8>) -> (r: Result<Frame, (u32, Error)>)
        requires
            frame_decodable(bytes@),
        ensures
            r is Ok <==> frame_decoding(bytes@) is Some,
            r matches Ok(f) ==> frame_decoding(bytes@) == Some(f@),
            r matches Err(e) ==> e.0 == header_stream_id(head(bytes@)) && e.1 is StringConversion,
    {
        let header = FrameHeader::from_bytes(copy_range(bytes.as_slice(), 0, LEN_HEADER));
        let stream_id = header.stream_id();
        let rest = slice_subrange(bytes.as_slice(), LEN_HEADER, bytes.len());
        match Self::_decode(header, rest) {
            Ok(f) => Ok(f),
            Err(e) => Err((stream_id, e)),
        }
    }

    /// Decodes a frame from its header and the bytes after it.
    pub fn _decode(header: FrameHeader, buffer: &[u8]) -> (r: Result<Frame, Error>)
        requires
            body_decodable(header.header@, buffer@),
        ensures
            r is Ok <==> body_decoding(header.header@, buffer@) is Some,
            r matches Ok(f) ==> body_decoding(header.header@, buffer@) == Some(f@),
            r matches Err(e) ==> e is StringConversion,
    {
        let t = header.frame_type();
        match t {
            FrameType::RequestResponse => {
                let p = RequestPayload::decode(&header, buffer);
                match p {
                    Ok(p) => Ok(Frame::RequestResponse(RequestResponse(p))),
                    Err(e) => Err(e),
                }
            },
            FrameType::RequestFnf => {
                let p = RequestPayload::decode(&header, buffer);
                match p {
                    Ok(p) => Ok(Frame::RequestFnF(RequestFnF(p))),
                    Err(e) => Err(e),
                }
            },
            FrameType::RequestStream => {
                let p = RequestPayload::decode(&header, buffer);
                match p {
                    Ok(p) => Ok(Frame::RequestStream(RequestStream(p))),
                    Err(e) => Err(e),
                }
            },
            FrameType::RequestChannel => {
                let p = RequestPayload::decode(&header, buffer);
                match p {
                    Ok(p) => Ok(Frame::RequestChannel(RequestChannel(p))),
                    Err(e) => Err(e),
                }
            },
            FrameType::RequestN => Ok(
                Frame::RequestN(RequestN { stream_id: header.stream_id(), n: from_u32_bytes(buffer) }),
            ),
            FrameType::Cancel => Ok(Frame::Cancel(Cancel { stream_id: header.stream_id() })),
            FrameType::Payload => {
                let has_metadata = header.has_metadata();
                let (metadata, data) = read_md_section(has_metadata, buffer, 0);
                Ok(
                    Frame::PayloadFrame(
                        PayloadFrame {
                            stream_id: header.stream_id(),
                            metadata,
                            data,
                            follows: header.has_follows(),
                            complete: header.has_complete(),
                            next: header.has_next(),
                        },
                    ),
                )
            },
            _ => {
                let f = ErrorFrame::decode_frame(&header, buffer);
                match f {
                    Ok(f) => Ok(Frame::ErrorFrame(f)),
                    Err(e) => Err(e),
                }
            },
        }
    }

    /// Encodes the frame into bytes.
    pub fn encode(self) -> (r: Vec<u8>)
        requires
            view_encodable(self@),
        ensures
            r@ == frame_encoding(self@),
    {
        match self {
            Frame::PayloadFrame(f) => f.encode(),
            Frame::Cancel(f) => f.encode(),
            Frame::ErrorFrame(f) => f.encode(),
            Frame::RequestN(f) => f.encode(),
            Frame::RequestResponse(f) => f.0.encode(),
            Frame::RequestFnF(f) => f.0.encode(),
            Frame::RequestStream(f) => f.0.encode(),
            Frame::RequestChannel(f) => f.0.encode(),
        }
    }

    /// A copy of the frame.
    pub fn duplicate(&self) -> (r: Frame)
        ensures
            r@ == self@,
    {
        match self {
            Frame::PayloadFrame(f) => {
                let metadata = copy_range(f.metadata.as_slice(), 0, f.metadata.len());
                let data = copy_range(f.data.as_slice(), 0, f.data.len());
                assert(metadata@ =~= f.metadata@);
                assert(data@ =~= f.data@);
                Frame::PayloadFrame(
                    PayloadFrame {
                        stream_id: f.stream_id,
                        metadata,
                        data,
                        follows: f.follows,
                        complete: f.complete,
                        next: f.next,
                    },
                )
            },
            Frame::Cancel(f) => Frame::Cancel(Cancel { stream_id: f.stream_id }),
            Frame::ErrorFrame(f) => Frame::ErrorFrame(
                ErrorFrame { stream_id: f.stream_id, code: f.code, data: f.data.clone() },
            ),
            Frame::RequestN(f) => Frame::RequestN(RequestN { stream_id: f.stream_id, n: f.n }),
            Frame::RequestResponse(f) => Frame::RequestResponse(RequestResponse(f.0.duplicate())),
            Frame::RequestFnF(f) => Frame::RequestFnF(RequestFnF(f.0.duplicate())),
            Frame::RequestStream(f) => Frame::RequestStream(RequestStream(f.0.duplicate())),
            Frame::RequestChannel(f) => Frame::RequestChannel(RequestChannel(f.0.duplicate())),
        }
    }

    /// A new ERROR frame.
    pub fn new_error(stream_id: u32, code: u32, data: &str) -> (r: Frame)
        ensures
            r@ == (FrameView::Error { stream_id, code, message: data@ }),
    {
        Frame::ErrorFrame(ErrorFrame { stream_id, code, data: data.to_owned() })
    }

    /// A new CANCEL frame.
    pub fn new_cancel(stream_id: u32) -> (r: Frame)
        ensures
            r@ == (FrameView::Cancel { stream_id }),
    {
        Frame::Cancel(Cancel { stream_id })
    }

    /// A new REQUEST_N frame. The flags are not used.
    pub fn new_request_n(stream_id: u32, n: u32, _flags: FrameFlags) -> (r: Frame)
        ensures
            r@ == (FrameView::RequestN { stream_id, n }),
    {
        Frame::RequestN(RequestN { stream_id, n })
    }

    /// A new REQUEST_RESPONSE frame.
    pub fn new_request_response(stream_id: u32, payload: Payload, flags: FrameFlags) -> (r: Frame)
        ensures
            r@ == FrameView::RequestResponse(
                request_view(FrameType::RequestResponse, stream_id, payload, flags, 0),
            ),
    {
        Frame::RequestResponse(RequestResponse::from_payload(stream_id, payload, flags, 0))
    }

    /// A new REQUEST_STREAM frame.
    pub fn new_request_stream(stream_id: u32, payload: Payload, flags: FrameFlags) -> (r: Frame)
        ensures
            r@ == FrameView::RequestStream(
                request_view(FrameType::RequestStream, stream_id, payload, flags, 0),
            ),
    {
        Frame::RequestStream(RequestStream::from_payload(stream_id, payload, flags, 0))
    }

    /// A new REQUEST_CHANNEL frame.
    pub fn new_request_channel(
        stream_id: u32,
        payload: Payload,
        flags: FrameFlags,
        initial_n: u32,
    ) -> (r: Frame)
        ensures
            r@ == FrameView::RequestChannel(
                request_view(FrameType::RequestChannel, stream_id, payload, flags, initial_n),
            ),
    {
        Frame::RequestChannel(RequestChannel::from_payload(stream_id, payload, flags, initial_n))
    }

    /// A new REQUEST_FNF (fire and forget) frame.
    pub fn new_request_fnf(stream_id: u32, payload: Payload, flags: FrameFlags) -> (r: Frame)
        ensures
            r@ == FrameView::RequestFnF(
                request_view(FrameType::RequestFnf, stream_id, payload, flags, 0),
            ),
    {
        Frame::RequestFnF(RequestFnF::from_payload(stream_id, payload, flags, 0))
    }

    /// A new PAYLOAD frame.
    pub fn new_payload(stream_id: u32, payload: Payload, flags: FrameFlags) -> (r: Frame)
        ensures
            r@ == (FrameView::Payload {
                stream_id,
                metadata: bytes_or_empty(payload.metadata),
                data: bytes_or_empty(payload.data),
                follows: has_flag(flags, FLAG_FOLLOW),
                complete: has_flag(flags, FLAG_COMPLETE),
                next: has_flag(flags, FLAG_NEXT),
            }),
    {
        Frame::PayloadFrame(PayloadFrame::from_payload(stream_id, payload, flags))
    }

    /// What a received frame delivers to a requester: the payload of a
    /// payload or request frame, or the error of an ERROR frame. CANCEL and
    /// REQUEST_N frames deliver nothing of the kind.
    pub fn into_payload_result(self) -> (r: Result<Option<Payload>, PayloadError>)
        requires
            !(self@ is Cancel),
            !(self@ is RequestN),
        ensures
            self@ matches FrameView::Error { code, message, .. } ==> (r matches Err(e) && e.code
                == code && e.msg@ == message),
            !(self@ is Error) ==> (r matches Ok(Some(p)) && opt_bytes(p.metadata) == Some(
                view_metadata(self@),
            ) && opt_bytes(p.data) == Some(view_data(self@))),
    {
        match self {
            Frame::PayloadFrame(f) => Ok(Some(f.into_payload())),
            Frame::ErrorFrame(f) => Err(PayloadError::new(f.code, f.data)),
            Frame::RequestResponse(f) => Ok(Some(f.0.into_payload())),
            Frame::RequestFnF(f) => Ok(Some(f.0.into_payload())),
            Frame::RequestStream(f) => Ok(Some(f.0.into_payload())),
            Frame::RequestChannel(f) => Ok(Some(f.0.into_payload())),
            Frame::Cancel(_) => {
                proof {
                    assert(false);
                }
                Ok(None)
            },
            Frame::RequestN(_) => {
                proof {
                    assert(false);
                }
                Ok(None)
            },
        }
    }
}

/// The request body built from a payload.
pub open spec fn request_view(
    frame_type: FrameType,
    stream_id: u32,
    payload: Payload,
    flags: u16,
    initial_n: u32,
) -> RequestPayloadView {
    RequestPayloadView {
        frame_type,
        stream_id,
        metadata: bytes_or_empty(payload.metadata),
        data: bytes_or_empty(payload.data),
        follows: has_flag(flags, FLAG_FOLLOW),
        complete: has_flag(flags, FLAG_COMPLETE),
        initial_n,
    }
}

/// The metadata a payload or request frame carries.
pub open spec fn view_metadata(f: FrameView) -> Seq<u8> {
    match f {
        FrameView::Payload { metadata, .. } => metadata,
        FrameView::RequestResponse(p) => p.metadata,
        FrameView::RequestFnF(p) => p.metadata,
        FrameView::RequestStream(p) => p.metadata,
        FrameView::RequestChannel(p) => p.metadata,
        _ => Seq::empty(),
    }
}

/// The data a payload or request frame carries.
pub open spec fn view_data(f: FrameView) -> Seq<u8> {
    match f {
        FrameView::Payload { data, .. } => data,
        FrameView::RequestResponse(p) => p.data,
        FrameView::RequestFnF(p) => p.data,
        FrameView::RequestStream(p) => p.data,
        FrameView::RequestChannel(p) => p.data,
        _ => Seq::empty(),
    }
}

/// Whether a frame is in the form its encoding preserves: stream ids fit in
/// 31 bits, metadata lengths fit in 24 bits, and request bodies carry only
/// what the encoding writes (the type of their frame, no FOLLOWS, COMPLETE
/// only on a channel, an initial count only on a stream or channel).
pub open spec fn frame_canonical(f: FrameView) -> bool {
    &&& view_stream_id(f) < 0x8000_0000
    &&& match f {
        FrameView::Payload { metadata, .. } => metadata.len() < 0x100_0000,
        FrameView::RequestResponse(p) => request_canonical(p, FrameType::RequestResponse),
        FrameView::RequestFnF(p) => request_canonical(p, FrameType::RequestFnf),
        FrameView::RequestStream(p) => request_canonical(p, FrameType::RequestStream),
        FrameView::RequestChannel(p) => request_canonical(p, FrameType::RequestChannel),
        _ => true,
    }
}

/// Whether a request body is in the form its encoding preserves.
pub open spec fn request_canonical(p: RequestPayloadView, t: FrameType) -> bool {
    &&& p.frame_type == t
    &&& !p.follows
    &&& p.complete ==> t == FrameType::RequestChannel
    &&& !is_multi_type(t) ==> p.initial_n == 0
    &&& p.metadata.len() < 0x100_0000
}

proof fn lemma_head_body(h: Seq<u8>, rest: Seq<u8>)
    requires
        h.len() == LEN_HEADER,
    ensures
        head(h + rest) == h,
        body(h + rest) == rest,
        (h + rest).len() >= LEN_HEADER,
{
    assert(head(h + rest) =~= h);
    assert(body(h + rest) =~= rest);
}

proof fn lemma_md_section(prefix: Seq<u8>, metadata: Seq<u8>, data: Seq<u8>)
    requires
        metadata.len() < 0x100_0000,
    ensures
        md_section_readable(
            metadata.len() > 0,
            prefix + metadata_and_data(metadata, data),
            prefix.len() as int,
        ),
        section_metadata(
            metadata.len() > 0,
            prefix + metadata_and_data(metadata, data),
            prefix.len() as int,
        ) == metadata,
        section_data(
            metadata.len() > 0,
            prefix + metadata_and_data(metadata, data),
            prefix.len() as int,
        ) == data,
{
    let b = prefix + metadata_and_data(metadata, data);
    let off = prefix.len() as int;
    if metadata.len() > 0 {
        let l = metadata.len() as u32;
        crate::util::lemma_be24_roundtrip(l);
        assert(b[off] == be24(l)[0] && b[off + 1] == be24(l)[1] && b[off + 2] == be24(l)[2]);
        assert(announced_len(b, off) == metadata.len());
        assert(b.subrange(off + 3, off + 3 + metadata.len()) =~= metadata);
        assert(b.subrange(off + 3 + metadata.len(), b.len() as int) =~= data);
    } else {
        assert(b.subrange(off, b.len() as int) =~= data);
    }
}

proof fn lemma_header_reads(stream_id: u32, t: FrameType, flags: u16)
    requires
        stream_id < 0x8000_0000,
        flags < 1024,
    ensures
        header_bytes(stream_id, t, flags).len() == LEN_HEADER,
        header_stream_id(header_bytes(stream_id, t, flags)) == stream_id,
        header_type(header_bytes(stream_id, t, flags)) == Some(t),
        header_has(header_bytes(stream_id, t, flags), FLAG_METADATA) == has_flag(flags, FLAG_METADATA),
        header_has(header_bytes(stream_id, t, flags), FLAG_FOLLOW) == has_flag(flags, FLAG_FOLLOW),
        header_has(header_bytes(stream_id, t, flags), FLAG_COMPLETE) == has_flag(flags, FLAG_COMPLETE),
        header_has(header_bytes(stream_id, t, flags), FLAG_NEXT) == has_flag(flags, FLAG_NEXT),
{
    crate::header::law_header_stream_id(stream_id, t, flags);
    assert(stream_id & 0x7fff_ffffu32 == stream_id) by (bit_vector)
        requires
            stream_id < 0x8000_0000u32,
    ;
    crate::header::law_header_type_and_flags(stream_id, t, flags);
    crate::header::law_header_flags(stream_id, t, flags, FLAG_METADATA);
    crate::header::law_header_flags(stream_id, t, flags, FLAG_FOLLOW);
    crate::header::law_header_flags(stream_id, t, flags, FLAG_COMPLETE);
    crate::header::law_header_flags(stream_id, t, flags, FLAG_NEXT);
}

proof fn lemma_request_roundtrip(p: RequestPayloadView, t: FrameType)
    requires
        request_canonical(p, t),
        p.stream_id < 0x8000_0000,
        t == FrameType::RequestResponse || t == FrameType::RequestFnf || t
            == FrameType::RequestStream || t == FrameType::RequestChannel,
    ensures
        request_encoding(p).len() >= LEN_HEADER,
        header_type(head(request_encoding(p))) == Some(t),
        request_decodable(head(request_encoding(p)), body(request_encoding(p))),
        request_decoding(head(request_encoding(p)), body(request_encoding(p))) == p,
{
    let flags = crate::payload::request_flags(p);
    crate::payload::lemma_flag_bits(
        p.metadata.len() > 0,
        false,
        p.complete && p.frame_type == FrameType::RequestChannel,
        false,
    );
    lemma_header_reads(p.stream_id, t, flags);
    let h = header_bytes(p.stream_id, t, flags);
    let nb = if is_multi_type(t) { be32(p.initial_n) } else { Seq::empty() };
    let rest = nb + metadata_and_data(p.metadata, p.data);
    assert(request_encoding(p) =~= h + rest);
    lemma_head_body(h, rest);
    lemma_md_section(nb, p.metadata, p.data);
    if is_multi_type(t) {
        crate::util::lemma_be32_roundtrip(p.initial_n);
        assert(rest[0] == nb[0] && rest[1] == nb[1] && rest[2] == nb[2] && rest[3] == nb[3]);
    }
    assert(request_decoding(h, rest) =~= p);
}

/// Decoding the encoding of a frame gives the frame back, for every frame in
/// the form the encoding preserves.
pub proof fn law_frame_roundtrip(f: FrameView)
    requires
        frame_canonical(f),
    ensures
        frame_decodable(frame_encoding(f)),
        frame_decoding(frame_encoding(f)) == Some(f),
{
    match f {
        FrameView::Payload { stream_id, metadata, data, follows, complete, next } => {
            let flags = payload_flags(metadata, follows, complete, next);
            crate::payload::lemma_flag_bits(metadata.len() > 0, follows, complete, next);
            lemma_header_reads(stream_id, FrameType::Payload, flags);
            let h = header_bytes(stream_id, FrameType::Payload, flags);
            let rest = metadata_and_data(metadata, data);
            lemma_head_body(h, rest);
            lemma_md_section(Seq::empty(), metadata, data);
            assert(Seq::<u8>::empty() + rest =~= rest);
        },
        FrameView::Cancel { stream_id } => {
            lemma_header_reads(stream_id, FrameType::Cancel, 0);
            let h = header_bytes(stream_id, FrameType::Cancel, 0);
            lemma_head_body(h, Seq::empty());
            assert(h + Seq::<u8>::empty() =~= h);
        },
        FrameView::Error { stream_id, code, message } => {
            lemma_header_reads(stream_id, FrameType::Error, 0);
            let h = header_bytes(stream_id, FrameType::Error, 0);
            let rest = be32(code) + encode_utf8(message);
            assert(frame_encoding(f) =~= h + rest);
            lemma_head_body(h, rest);
            crate::util::lemma_be32_roundtrip(code);
            crate::text::lemma_string_bytes_roundtrip(message);
            assert(rest.subrange(4, rest.len() as int) =~= encode_utf8(message));
        },
        FrameView::RequestN { stream_id, n } => {
            lemma_header_reads(stream_id, FrameType::RequestN, 0);
            let h = header_bytes(stream_id, FrameType::RequestN, 0);
            lemma_head_body(h, be32(n));
            crate::util::lemma_be32_roundtrip(n);
        },
        FrameView::RequestResponse(p) => {
            lemma_request_roundtrip(p, FrameType::RequestResponse);
        },
        FrameView::RequestFnF(p) => {
            lemma_request_roundtrip(p, FrameType::RequestFnf);
        },
        FrameView::RequestStream(p) => {
            lemma_request_roundtrip(p, FrameType::RequestStream);
        },
        FrameView::RequestChannel(p) => {
            lemma_request_roundtrip(p, FrameType::RequestChannel);
        },
    }
}

/// The header flags of a request body: METADATA when there is metadata,
/// COMPLETE when asked for.
proof fn lemma_request_flag_bits(metadata: bool, complete: bool)
    ensures
        flag_bits(metadata, false, complete, false) == (if metadata { FLAG_METADATA } else { 0u16 })
            | (if complete { FLAG_COMPLETE } else { 0u16 }),
{
    assert((256u16 | 0u16 | 64u16 | 0u16) == (256u16 | 64u16)) by (bit_vector);
    assert((256u16 | 0u16 | 0u16 | 0u16) == (256u16 | 0u16)) by (bit_vector);
    assert((0u16 | 0u16 | 64u16 | 0u16) == (0u16 | 64u16)) by (bit_vector);
    assert((0u16 | 0u16 | 0u16 | 0u16) == (0u16 | 0u16)) by (bit_vector);
}

/// Request frames on the wire: after the header, REQUEST_STREAM and
/// REQUEST_CHANNEL carry their initial request count in four big-endian
/// bytes and REQUEST_RESPONSE and REQUEST_FNF carry none; then come the
/// metadata section and the data. The header carries METADATA when there is
/// metadata, and COMPLETE only on a channel.
pub proof fn law_request_wire_format(p: RequestPayloadView)
    ensures
        p.frame_type == FrameType::RequestStream ==> frame_encoding(FrameView::RequestStream(p))
            == header_bytes(
            p.stream_id,
            FrameType::RequestStream,
            if p.metadata.len() > 0 { FLAG_METADATA } else { 0u16 },
        ) + be32(p.initial_n) + metadata_and_data(p.metadata, p.data),
        p.frame_type == FrameType::RequestChannel ==> frame_encoding(FrameView::RequestChannel(p))
            == header_bytes(
            p.stream_id,
            FrameType::RequestChannel,
            (if p.metadata.len() > 0 { FLAG_METADATA } else { 0u16 }) | (if p.complete {
                FLAG_COMPLETE
            } else {
                0u16
            }),
        ) + be32(p.initial_n) + metadata_and_data(p.metadata, p.data),
        p.frame_type == FrameType::RequestResponse ==> frame_encoding(FrameView::RequestResponse(p))
            == header_bytes(
            p.stream_id,
            FrameType::RequestResponse,
            if p.metadata.len() > 0 { FLAG_METADATA } else { 0u16 },
        ) + metadata_and_data(p.metadata, p.data),
        p.frame_type == FrameType::RequestFnf ==> frame_encoding(FrameView::RequestFnF(p))
            == header_bytes(
            p.stream_id,
            FrameType::RequestFnf,
            if p.metadata.len() > 0 { FLAG_METADATA } else { 0u16 },
        ) + metadata_and_data(p.metadata, p.data),
{
    lemma_request_flag_bits(p.metadata.len() > 0, false);
    lemma_request_flag_bits(p.metadata.len() > 0, p.complete);
    if p.frame_type == FrameType::RequestStream || p.frame_type == FrameType::RequestChannel {
        assert(request_encoding(p) =~= header_bytes(p.stream_id, p.frame_type, request_flags(p))
            + be32(p.initial_n) + metadata_and_data(p.metadata, p.data));
    } else {
        assert(request_encoding(p) =~= header_bytes(p.stream_id, p.frame_type, request_flags(p))
            + metadata_and_data(p.metadata, p.data));
    }
    if p.metadata.len() > 0 {
        assert((FLAG_METADATA | 0u16) == FLAG_METADATA) by (bit_vector);
    } else {
        assert((0u16 | 0u16) == 0u16) by (bit_vector);
    }
}

/// Reading a request body without metadata: REQUEST_STREAM and
/// REQUEST_CHANNEL take their initial count from the first four bytes and
/// their data after them, and need those four bytes; REQUEST_RESPONSE and
/// REQUEST_FNF have no count and take all the bytes as data.
pub proof fn law_request_body_reading(h: Seq<u8>, b: Seq<u8>)
    requires
        h.len() >= LEN_HEADER,
        !header_has(h, FLAG_METADATA),
    ensures
        header_type(h) == Some(FrameType::RequestStream) || header_type(h) == Some(
            FrameType::RequestChannel,
        ) ==> {
            &&& body_decodable(h, b) == (b.len() >= 4)
            &&& b.len() >= 4 ==> request_decoding(h, b).initial_n == be32_value(b[0], b[1], b[2], b[3])
            &&& b.len() >= 4 ==> request_decoding(h, b).data == b.subrange(4, b.len() as int)
            &&& request_decoding(h, b).metadata == Seq::<u8>::empty()
        },
        header_type(h) == Some(FrameType::RequestResponse) || header_type(h) == Some(
            FrameType::RequestFnf,
        ) ==> {
            &&& body_decodable(h, b)
            &&& request_decoding(h, b).initial_n == 0
            &&& request_decoding(h, b).data == b
            &&& request_decoding(h, b).metadata == Seq::<u8>::empty()
        },
{
    assert(b.subrange(0, b.len() as int) =~= b);
}

/// The two header bytes that hold a frame type's number and the flags.
proof fn lemma_type_bytes(code: u16, flags: u16)
    requires
        code < 64,
        flags < 1024,
    ensures
        ((((code << 10u16) | flags) >> 8u16) as u8) as int == code * 4 + flags / 256,
        (((code << 10u16) | flags) as u8) as int == flags % 256,
{
    assert(((((code << 10u16) | flags) >> 8u16) as u8) == ((code * 4 + flags / 256) as u8))
        by (bit_vector)
        requires
            code < 64,
            flags < 1024,
    ;
    assert((((code << 10u16) | flags) as u8) == ((flags % 256) as u8)) by (bit_vector)
        requires
            code < 64,
            flags < 1024,
    ;
}

/// PAYLOAD, CANCEL, ERROR and REQUEST_N frames on the wire: the stream id in
/// four big-endian bytes; a byte that holds the frame type's number (PAYLOAD
/// 10, CANCEL 9, ERROR 11, REQUEST_N 8) times four plus the METADATA bit; a
/// byte of the FOLLOWS (0x80), COMPLETE (0x40) and NEXT (0x20) bits; then
/// the body: the metadata section and data of a payload, the code and UTF-8
/// text of an error, the count of a REQUEST_N, nothing for a CANCEL.
pub proof fn law_frame_wire_format(
    stream_id: u32,
    metadata: Seq<u8>,
    data: Seq<u8>,
    follows: bool,
    complete: bool,
    next: bool,
    code: u32,
    message: Seq<char>,
    n: u32,
)
    ensures
        frame_encoding(FrameView::Payload { stream_id, metadata, data, follows, complete, next })
            == be32(stream_id) + seq![
            (40 + (if metadata.len() > 0 { 1int } else { 0 })) as u8,
            ((if follows { 0x80int } else { 0 }) + (if complete { 0x40int } else { 0 }) + (if next {
                0x20int
            } else {
                0
            })) as u8,
        ] + metadata_and_data(metadata, data),
        frame_encoding(FrameView::Cancel { stream_id }) == be32(stream_id) + seq![0x24u8, 0u8],
        frame_encoding(FrameView::Error { stream_id, code, message }) == be32(stream_id) + seq![
            0x2cu8,
            0u8,
        ] + be32(code) + encode_utf8(message),
        frame_encoding(FrameView::RequestN { stream_id, n }) == be32(stream_id) + seq![0x20u8, 0u8]
            + be32(n),
{
    let f = flag_bits(metadata.len() > 0, follows, complete, next);
    crate::payload::lemma_flag_bits(metadata.len() > 0, follows, complete, next);
    let a: u16 = if metadata.len() > 0 { 256u16 } else { 0u16 };
    let b: u16 = if follows { 128u16 } else { 0u16 };
    let c: u16 = if complete { 64u16 } else { 0u16 };
    let d: u16 = if next { 32u16 } else { 0u16 };
    assert((a | b | c | d) == a + b + c + d) by (bit_vector)
        requires
            a == 0u16 || a == 256u16,
            b == 0u16 || b == 128u16,
            c == 0u16 || c == 64u16,
            d == 0u16 || d == 32u16,
    ;
    lemma_type_bytes(10, f);
    lemma_type_bytes(9, 0);
    lemma_type_bytes(11, 0);
    lemma_type_bytes(8, 0);
    let hp = header_bytes(stream_id, FrameType::Payload, f);
    assert(hp =~= be32(stream_id) + seq![
        (40 + (if metadata.len() > 0 { 1int } else { 0 })) as u8,
        ((if follows { 0x80int } else { 0 }) + (if complete { 0x40int } else { 0 }) + (if next {
            0x20int
        } else {
            0
        })) as u8,
    ]);
    assert(header_bytes(stream_id, FrameType::Cancel, 0) =~= be32(stream_id) + seq![0x24u8, 0u8]);
    assert(header_bytes(stream_id, FrameType::Error, 0) =~= be32(stream_id) + seq![0x2cu8, 0u8]);
    assert(header_bytes(stream_id, FrameType::RequestN, 0) =~= be32(stream_id) + seq![0x20u8, 0u8]);
}

} // verus!

//! Payloads (metadata and data bytes) and the body shared by the four
//! request frames.
use vstd::prelude::*;
use vstd::slice::slice_subrange;
use crate::error::Error;
use crate::header::{
    FrameFlags, FrameHeader, FLAG_COMPLETE, FLAG_FOLLOW, FLAG_METADATA, FLAG_NEXT, LEN_HEADER,
    flag_complete, flag_follows, has_flag, header_bytes, header_has, header_stream_id, header_type,
};
use crate::kinds::FrameType;
use crate::util::{
    be24, be24_value, be32, be32_value, copy_range, from_u24_bytes, from_u32_bytes, push_all,
    to_u24_bytes, to_u32_bytes,
};

verus! {

/// The bytes held by an optional buffer.
pub open spec fn opt_bytes(o: Option<Vec<u8>>) -> Option<Seq<u8>> {
    match o {
        Some(v) => Some(v@),
        None => None,
    }
}

/// The bytes of an optional buffer, or no bytes when there is none.
pub open spec fn bytes_or_empty(o: Option<Vec<u8>>) -> Seq<u8> {
    match o {
        Some(v) => v@,
        None => Seq::empty(),
    }
}

/// A complete payload: metadata and data bytes, each optional.
#[derive(Debug)]
pub struct Payload {
    /// Metadata bytes if they exist.
    pub metadata: Option<Vec<u8>>,
    /// The core payload data bytes if they exist.
    pub data: Option<Vec<u8>>,
}

/// Metadata associated with a frame: the index of an operation.
#[derive(Clone, Copy, Debug)]
pub struct Metadata {
    /// The operation index.
    pub index: u32,
}

impl Payload {
    /// A payload with the given metadata and data bytes.
    pub fn new(metadata: Vec<u8>, data: Vec<u8>) -> (r: Payload)
        ensures
            opt_bytes(r.metadata) == Some(metadata@),
            opt_bytes(r.data) == Some(data@),
    {
        Payload { metadata: Some(metadata), data: Some(data) }
    }

    /// A payload with the given optional metadata and data.
    pub fn new_data(metadata: Option<Vec<u8>>, data: Option<Vec<u8>>) -> (r: Payload)
        ensures
            opt_bytes(r.metadata) == opt_bytes(metadata),
            opt_bytes(r.data) == opt_bytes(data),
    {
        Payload { metadata, data }
    }

    /// An empty payload: neither metadata nor data.
    pub fn empty() -> (r: Payload)
        ensures
            r.metadata is None,
            r.data is None,
    {
        Payload { metadata: None, data: None }
    }

    /// Reads the operation index held in the first four metadata bytes.
    /// A payload without metadata gives `MetadataNotFound`; metadata shorter
    /// than four bytes has no index to read.
    pub fn parse_metadata(&self) -> (r: Result<Metadata, Error>)
        requires
            self.metadata matches Some(m) ==> m@.len() >= 4,
        ensures
            self.metadata is None <==> r matches Err(Error::MetadataNotFound),
            self.metadata matches Some(m) ==> r matches Ok(md) && md.index == be32_value(
                m@[0],
                m@[1],
                m@[2],
                m@[3],
            ),
    {
        match &self.metadata {
            None => Err(Error::MetadataNotFound),
            Some(bytes) => {
                let index = from_u32_bytes(bytes.as_slice());
                Ok(Metadata { index })
            },
        }
    }
}

impl Metadata {
    /// Metadata for the operation with the given index.
    pub fn new(index: u32) -> (r: Metadata)
        ensures
            r.index == index,
    {
        Metadata { index }
    }

    /// The four big-endian bytes of the operation index.
    pub fn encode(&self) -> (r: Vec<u8>)
        ensures
            r@ == be32(self.index),
    {
        to_u32_bytes(self.index)
    }
}

/// Flags from the four boolean frame properties.
pub open spec fn flag_bits(metadata: bool, follows: bool, complete: bool, next: bool) -> u16 {
    (if metadata { 256u16 } else { 0u16 }) | (if follows { 128u16 } else { 0u16 }) | (if complete {
        64u16
    } else {
        0u16
    }) | (if next { 32u16 } else { 0u16 })
}

/// Each flag of `flag_bits` reads back as it was given, and the bits stay
/// below the frame-type bits.
pub proof fn lemma_flag_bits(metadata: bool, follows: bool, complete: bool, next: bool)
    ensures
        has_flag(flag_bits(metadata, follows, complete, next), FLAG_METADATA) == metadata,
        has_flag(flag_bits(metadata, follows, complete, next), FLAG_FOLLOW) == follows,
        has_flag(flag_bits(metadata, follows, complete, next), FLAG_COMPLETE) == complete,
        has_flag(flag_bits(metadata, follows, complete, next), FLAG_NEXT) == next,
        flag_bits(metadata, follows, complete, next) < 1024,
{
    let a: u16 = if metadata { 256u16 } else { 0u16 };
    let b: u16 = if follows { 128u16 } else { 0u16 };
    let c: u16 = if complete { 64u16 } else { 0u16 };
    let d: u16 = if next { 32u16 } else { 0u16 };
    assert(((a | b | c | d) & 256u16 == 256u16) == (a == 256u16) && ((a | b | c | d) & 128u16
        == 128u16) == (b == 128u16) && ((a | b | c | d) & 64u16 == 64u16) == (c == 64u16) && ((a
        | b | c | d) & 32u16 == 32u16) == (d == 32u16) && (a | b | c | d) < 1024u16)
        by (bit_vector)
        requires
            a == 0u16 || a == 256u16,
            b == 0u16 || b == 128u16,
            c == 0u16 || c == 64u16,
            d == 0u16 || d == 32u16,
    ;
}

/// The abstract content of a request body.
pub struct RequestPayloadView {
    pub frame_type: FrameType,
    pub stream_id: u32,
    pub metadata: Seq<u8>,
    pub data: Seq<u8>,
    pub follows: bool,
    pub complete: bool,
    pub initial_n: u32,
}

/// Whether a request type carries an initial request count (stream and
/// channel requests).
pub open spec fn is_multi_type(t: FrameType) -> bool {
    t == FrameType::RequestChannel || t == FrameType::RequestStream
}

/// The flags a request body is encoded with.
pub open spec fn request_flags(v: RequestPayloadView) -> u16 {
    flag_bits(v.metadata.len() > 0, false, v.complete && v.frame_type == FrameType::RequestChannel,
        false)
}

/// The bytes after the header that carry the metadata and data: a 24-bit
/// metadata length and the metadata, when there is metadata, then the data.
pub open spec fn metadata_and_data(metadata: Seq<u8>, data: Seq<u8>) -> Seq<u8> {
    (if metadata.len() > 0 {
        be24(metadata.len() as u32) + metadata
    } else {
        Seq::empty()
    }) + data
}

/// The encoding of a request body.
pub open spec fn request_encoding(v: RequestPayloadView) -> Seq<u8> {
    header_bytes(v.stream_id, v.frame_type, request_flags(v)) + (if is_multi_type(v.frame_type) {
        be32(v.initial_n)
    } else {
        Seq::empty()
    }) + metadata_and_data(v.metadata, v.data)
}

/// The length of the metadata that a body announces at `off`.
pub open spec fn announced_len(body: Seq<u8>, off: int) -> int {
    be24_value(body[off], body[off + 1], body[off + 2]) as int
}

/// Whether the metadata and data section starting at `off` can be read: the
/// length prefix and the metadata it announces lie in the body.
pub open spec fn md_section_readable(has_metadata: bool, body: Seq<u8>, off: int) -> bool {
    &&& 0 <= off <= body.len()
    &&& has_metadata ==> {
        &&& off + 3 <= body.len()
        &&& off + 3 + announced_len(body, off) <= body.len()
    }
}

/// The metadata read from the section at `off`.
pub open spec fn section_metadata(has_metadata: bool, body: Seq<u8>, off: int) -> Seq<u8> {
    if has_metadata {
        body.subrange(off + 3, off + 3 + announced_len(body, off))
    } else {
        Seq::empty()
    }
}

/// The data read from the section at `off`.
pub open spec fn section_data(has_metadata: bool, body: Seq<u8>, off: int) -> Seq<u8> {
    if has_metadata {
        body.subrange(off + 3 + announced_len(body, off), body.len() as int)
    } else {
        body.subrange(off, body.len() as int)
    }
}

/// Where the metadata section of a request body starts.
pub open spec fn request_md_offset(t: FrameType) -> int {
    if is_multi_type(t) { 4 } else { 0 }
}

/// Whether a request body with the given header can be decoded.
pub open spec fn request_decodable(h: Seq<u8>, body: Seq<u8>) -> bool {
    &&& h.len() >= LEN_HEADER
    &&& header_type(h) is Some
    &&& md_section_readable(header_has(h, FLAG_METADATA), body, request_md_offset(header_type(h)->0))
}

/// The request body decoded from a header and the bytes after it.
pub open spec fn request_decoding(h: Seq<u8>, body: Seq<u8>) -> RequestPayloadView {
    let t = header_type(h)->0;
    let off = request_md_offset(t);
    let m = header_has(h, FLAG_METADATA);
    RequestPayloadView {
        frame_type: t,
        stream_id: header_stream_id(h),
        metadata: section_metadata(m, body, off),
        data: section_data(m, body, off),
        follows: header_has(h, FLAG_FOLLOW),
        complete: header_has(h, FLAG_COMPLETE),
        initial_n: if is_multi_type(t) { be32_value(body[0], body[1], body[2], body[3]) } else { 0 },
    }
}

/// The body of a request frame (request/response, fire and forget, stream,
/// channel).
#[derive(Debug)]
pub struct RequestPayload {
    /// The type of request this payload creates.
    pub frame_type: FrameType,
    /// The stream id this frame belongs to.
    pub stream_id: u32,
    /// Any metadata associated with the payload as raw bytes.
    pub metadata: Vec<u8>,
    /// The payload data as raw bytes.
    pub data: Vec<u8>,
    /// Whether this payload is broken up into multiple frames.
    pub follows: bool,
    /// Whether this frame is the last frame in a stream.
    pub complete: bool,
    /// The initial request count of stream and channel requests.
    pub initial_n: u32,
}

impl View for RequestPayload {
    type V = RequestPayloadView;

    open spec fn view(&self) -> RequestPayloadView {
        RequestPayloadView {
            frame_type: self.frame_type,
            stream_id: self.stream_id,
            metadata: self.metadata@,
            data: self.data@,
            follows: self.follows,
            complete: self.complete,
            initial_n: self.initial_n,
        }
    }
}

/// Whether the metadata and data section of a body starting at `off` can be
/// read.
pub fn md_section_ok(has_metadata: bool, body: &[u8], off: usize) -> (r: bool)
    ensures
        r == md_section_readable(has_metadata, body@, off as int),
{
    if off > body.len() {
        return false;
    }
    if !has_metadata {
        return true;
    }
    if body.len() - off < 3 {
        return false;
    }
    let rest = slice_subrange(body, off, body.len());
    let mlen = from_u24_bytes(rest) as usize;
    mlen <= body.len() - off - 3
}

/// Reads the metadata and data section of a body starting at `off`.
pub fn read_md_section(has_metadata: bool, body: &[u8], off: usize) -> (r: (Vec<u8>, Vec<u8>))
    requires
        md_section_readable(has_metadata, body@, off as int),
    ensures
        r.0@ == section_metadata(has_metadata, body@, off as int),
        r.1@ == section_data(has_metadata, body@, off as int),
{
    if has_metadata {
        let rest = slice_subrange(body, off, body.len());
        let mlen = from_u24_bytes(rest) as usize;
        let start = off + 3;
        let metadata = copy_range(body, start, start + mlen);
        let data = copy_range(body, start + mlen, body.len());
        (metadata, data)
    } else {
        (Vec::new(), copy_range(body, off, body.len()))
    }
}

/// Appends the metadata and data section for the given bytes.
pub fn write_md_section(out: &mut Vec<u8>, metadata: &Vec<u8>, data: &Vec<u8>)
    ensures
        final(out)@ == old(out)@ + metadata_and_data(metadata@, data@),
{
    if metadata.len() > 0 {
        let mlen = to_u24_bytes(metadata.len() as u32);
        push_all(out, mlen.as_slice());
        push_all(out, metadata.as_slice());
    }
    push_all(out, data.as_slice());
    proof {
        assert(final(out)@ =~= old(out)@ + metadata_and_data(metadata@, data@));
    }
}

impl RequestPayload {
    /// The request body for a payload; missing metadata or data become empty.
    pub fn from_payload(
        stream_id: u32,
        payload: Payload,
        frame_type: FrameType,
        flags: FrameFlags,
        initial_n: u32,
    ) -> (r: RequestPayload)
        ensures
            r@ == (RequestPayloadView {
                frame_type,
                stream_id,
                metadata: bytes_or_empty(payload.metadata),
                data: bytes_or_empty(payload.data),
                follows: has_flag(flags, FLAG_FOLLOW),
                complete: has_flag(flags, FLAG_COMPLETE),
                initial_n,
            }),
    {
        let metadata = match payload.metadata {
            Some(m) => m,
            None => Vec::new(),
        };
        let data = match payload.data {
            Some(d) => d,
            None => Vec::new(),
        };
        RequestPayload {
            stream_id,
            metadata,
            data,
            follows: flag_follows(flags),
            complete: flag_complete(flags),
            frame_type,
            initial_n,
        }
    }

    /// The flags the body is encoded with: METADATA when there is metadata,
    /// COMPLETE for a completed channel request.
    pub fn get_flags(&self) -> (r: FrameFlags)
        ensures
            r == request_flags(self@),
    {
        let is_channel = match self.frame_type {
            FrameType::RequestChannel => true,
            _ => false,
        };
        let m = self.metadata.len() > 0;
        let c = self.complete && is_channel;
        (if m { 256u16 } else { 0u16 }) | (if false { 128u16 } else { 0u16 }) | (if c {
            64u16
        } else {
            0u16
        }) | (if false { 32u16 } else { 0u16 })
    }

    /// Whether a request type carries an initial request count.
    pub fn is_multi(frame_type: FrameType) -> (r: bool)
        ensures
            r == is_multi_type(frame_type),
    {
        match frame_type {
            FrameType::RequestChannel => true,
            FrameType::RequestStream => true,
            _ => false,
        }
    }

    /// Decodes a request body from its header and the bytes after it.
    pub fn decode(header: &FrameHeader, buffer: &[u8]) -> (r: Result<RequestPayload, Error>)
        requires
            request_decodable(header.header@, buffer@),
        ensures
            r matches Ok(p) && p@ == request_decoding(header.header@, buffer@),
    {
        let frame_type = header.frame_type();
        let multi = Self::is_multi(frame_type);
        let initial_n = if multi {
            from_u32_bytes(buffer)
        } else {
            0
        };
        let off: usize = if multi { 4 } else { 0 };
        let has_metadata = header.has_metadata();
        let (metadata, data) = read_md_section(has_metadata, buffer, off);
        Ok(
            RequestPayload {
                frame_type,
                stream_id: header.stream_id(),
                metadata,
                data,
                follows: header.has_follows(),
                complete: header.has_complete(),
                initial_n,
            },
        )
    }

    /// The header of the encoded body.
    pub fn gen_header(&self) -> (r: FrameHeader)
        requires
            self.frame_type != FrameType::Reserved,
        ensures
            r.header@ == header_bytes(self.stream_id, self.frame_type, request_flags(self@)),
    {
        FrameHeader::new(self.stream_id, self.frame_type, self.get_flags())
    }

    /// The encoded frame: header, initial request count for stream and
    /// channel requests, metadata section, data.
    pub fn encode(self) -> (r: Vec<u8>)
        requires
            self.frame_type != FrameType::Reserved,
        ensures
            r@ == request_encoding(self@),
    {
        let ghost v = self@;
        let mut out = self.gen_header().encode();
        if Self::is_multi(self.frame_type) {
            let n = to_u32_bytes(self.initial_n);
            push_all(&mut out, n.as_slice());
        }
        write_md_section(&mut out, &self.metadata, &self.data);
        proof {
            assert(out@ =~= request_encoding(v));
        }
        out
    }

    /// A copy of the request body.
    pub fn duplicate(&self) -> (r: RequestPayload)
        ensures
            r@ == self@,
    {
        let metadata = copy_range(self.metadata.as_slice(), 0, self.metadata.len());
        let data = copy_range(self.data.as_slice(), 0, self.data.len());
        assert(metadata@ =~= self.metadata@);
        assert(data@ =~= self.data@);
        RequestPayload {
            frame_type: self.frame_type,
            stream_id: self.stream_id,
            metadata,
            data,
            follows: self.follows,
            complete: self.complete,
            initial_n: self.initial_n,
        }
    }

    /// The payload a request body carries: its metadata and data.
    pub fn into_payload(self) -> (r: Payload)
        ensures
            opt_bytes(r.metadata) == Some(self.metadata@),
            opt_bytes(r.data) == Some(self.data@),
    {
        Payload { metadata: Some(self.metadata), data: Some(self.data) }
    }
}

} // verus!

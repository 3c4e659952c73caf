//! Records of the frames a socket sends and receives. Each record keeps the
//! side of the socket, the stream of the frame and the frame's bytes as
//! standard base64 text, from which the frame can be decoded again.
use vstd::prelude::*;
use crate::error::Error;
use crate::frame::{
    frame_canonical, frame_decodable, frame_decoding, frame_encoding, law_frame_roundtrip,
    view_encodable, view_stream_id, Frame, FrameView,
};
use crate::socket::SocketSide;
use crate::text::decimal_string;

verus! {

/// The base64 text of bytes, in the standard alphabet with padding.
pub uninterp spec fn base64_standard(bytes: Seq<u8>) -> Seq<char>;

/// The message of the error that standard base64 decoding gives for a text.
pub uninterp spec fn base64_decode_error(text: Seq<char>) -> Seq<char>;

/// Encodes bytes as base64 text: `base64::Engine::encode` on the engine
/// `base64::engine::general_purpose::STANDARD` (standard alphabet, padding).
/// Trusted, not proved: the text is the named encoding of the bytes, and no
/// other bytes have that encoding (standard padded base64 is one-to-one).
#[verifier::external_body]
fn base64_encode(bytes: &[u8]) -> (r: String)
    ensures
        r@ == base64_standard(bytes@),
        forall|b: Seq<u8>| #[trigger] base64_standard(b) == r@ ==> b == bytes@,
{
    base64::Engine::encode(&base64::engine::general_purpose::STANDARD, bytes)
}

/// Decodes base64 text: `base64::Engine::decode` on the engine
/// `base64::engine::general_purpose::STANDARD`, which requires canonical
/// padding and no trailing bits. Trusted, not proved: a text that is the
/// encoding of some bytes decodes to those bytes; any bytes it gives have
/// the text as their encoding; a failure carries the text that the engine's
/// `DecodeError` displays, named for the input text.
#[verifier::external_body]
fn base64_decode(text: &str) -> (r: Result<Vec<u8>, String>)
    ensures
        forall|b: Seq<u8>| #[trigger] base64_standard(b) == text@ ==> r is Ok && r->Ok_0@ == b,
        r matches Ok(v) ==> base64_standard(v@) == text@,
        r matches Err(m) ==> m@ == base64_decode_error(text@),
{
    match base64::Engine::decode(&base64::engine::general_purpose::STANDARD, text) {
        Ok(v) => Ok(v),
        Err(e) => Err(e.to_string()),
    }
}

/// A frame sent or received by a socket, kept as base64 text.
#[derive(Debug, Clone)]
pub enum FrameRecord {
    /// An incoming frame.
    Incoming {
        /// Whether the frame was received by the host or the guest.
        side: SocketSide,
        /// The stream id the frame belongs to.
        stream_id: u32,
        /// The frame encoded as base64.
        frame: String,
    },
    /// An outgoing frame.
    Outgoing {
        /// Whether the frame was sent by the host or the guest.
        side: SocketSide,
        /// The stream id the frame belongs to.
        stream_id: u32,
        /// The frame encoded as base64.
        frame: String,
    },
}

/// The base64 text a record keeps.
pub open spec fn record_text(r: FrameRecord) -> Seq<char> {
    match r {
        FrameRecord::Incoming { frame, .. } => frame@,
        FrameRecord::Outgoing { frame, .. } => frame@,
    }
}

/// The side a record was made on.
pub open spec fn record_side(r: FrameRecord) -> SocketSide {
    match r {
        FrameRecord::Incoming { side, .. } => side,
        FrameRecord::Outgoing { side, .. } => side,
    }
}

/// The stream id a record keeps.
pub open spec fn record_stream_id(r: FrameRecord) -> u32 {
    match r {
        FrameRecord::Incoming { stream_id, .. } => stream_id,
        FrameRecord::Outgoing { stream_id, .. } => stream_id,
    }
}

/// Whether every byte string that a text is the base64 encoding of holds a
/// frame that can be decoded.
pub open spec fn record_decodable(text: Seq<char>) -> bool {
    forall|b: Seq<u8>| #[trigger] base64_standard(b) == text ==> frame_decodable(b)
}

/// Whether `r` records the frame `f`, sent (`outgoing`) or received on the
/// given side: its stream id, and the base64 text of its bytes.
pub open spec fn records_frame(r: FrameRecord, outgoing: bool, side: SocketSide, f: FrameView) -> bool {
    &&& (r is Outgoing) == outgoing
    &&& record_side(r) == side
    &&& record_stream_id(r) == view_stream_id(f)
    &&& record_text(r) == base64_standard(frame_encoding(f))
}

/// Digits padded with zeros on the left to at least three.
pub open spec fn pad3(digits: Seq<char>) -> Seq<char> {
    if digits.len() >= 3 {
        digits
    } else if digits.len() == 2 {
        "0"@ + digits
    } else {
        "00"@ + digits
    }
}

/// The message of the error given when recorded bytes do not decode as a
/// frame.
pub open spec fn undecodable_frame_message() -> Seq<char> {
    "Frame data is not valid UTF-8"@
}

/// A recorded frame decodes back to itself: where the text of a record is
/// the encoding of the bytes of a frame, and of no other bytes, those bytes
/// decode, and they decode to the frame, for every frame in the form its
/// encoding preserves.
pub proof fn law_record_roundtrip(text: Seq<char>, f: FrameView)
    requires
        frame_canonical(f),
        text == base64_standard(frame_encoding(f)),
        forall|b: Seq<u8>| #[trigger] base64_standard(b) == text ==> b == frame_encoding(f),
    ensures
        record_decodable(text),
        forall|b: Seq<u8>| #[trigger] base64_standard(b) == text ==> frame_decoding(b) == Some(f),
{
    law_frame_roundtrip(f);
}

impl FrameRecord {
    /// True if the frame was sent out of the socket.
    pub fn is_outgoing(&self) -> (r: bool)
        ensures
            r == (*self is Outgoing),
    {
        match self {
            FrameRecord::Outgoing { .. } => true,
            FrameRecord::Incoming { .. } => false,
        }
    }

    /// True if the frame was received by the socket.
    pub fn is_incoming(&self) -> (r: bool)
        ensures
            r == (*self is Incoming),
    {
        match self {
            FrameRecord::Incoming { .. } => true,
            FrameRecord::Outgoing { .. } => false,
        }
    }

    /// The direction of the frame: "in" or "out".
    pub fn dir(&self) -> (r: &'static str)
        ensures
            r@ == (if *self is Incoming { "in"@ } else { "out"@ }),
    {
        match self {
            FrameRecord::Incoming { .. } => "in",
            FrameRecord::Outgoing { .. } => "out",
        }
    }

    /// The stream id the frame belongs to.
    pub fn stream_id(&self) -> (r: u32)
        ensures
            r == record_stream_id(*self),
    {
        match self {
            FrameRecord::Incoming { stream_id, .. } => *stream_id,
            FrameRecord::Outgoing { stream_id, .. } => *stream_id,
        }
    }

    /// The base64 representation of the frame.
    pub fn encoded(&self) -> (r: &str)
        ensures
            r@ == record_text(*self),
    {
        match self {
            FrameRecord::Incoming { frame, .. } => frame.as_str(),
            FrameRecord::Outgoing { frame, .. } => frame.as_str(),
        }
    }

    /// The name of the side the frame was recorded on.
    pub fn side(&self) -> (r: String)
        ensures
            r@ == (match record_side(*self) {
                SocketSide::Guest => "guest"@,
                SocketSide::Host => "host"@,
            }),
    {
        let side = match self {
            FrameRecord::Incoming { side, .. } => *side,
            FrameRecord::Outgoing { side, .. } => *side,
        };
        String::from_str(side.name())
    }

    /// The label of the record, as it is displayed: `s`, the stream id, the
    /// side and the direction, joined by dashes (such as `s1-guest-out`).
    pub fn label(&self) -> (r: String)
        ensures
            r@ == "s"@ + crate::text::decimal(record_stream_id(*self) as nat) + "-"@ + (match record_side(
                *self,
            ) {
                SocketSide::Guest => "guest"@,
                SocketSide::Host => "host"@,
            }) + "-"@ + (if *self is Incoming { "in"@ } else { "out"@ }),
    {
        let mut s = String::from_str("s");
        let id = decimal_string(self.stream_id() as u64);
        s.append(id.as_str());
        s.append("-");
        let side = self.side();
        s.append(side.as_str());
        s.append("-");
        s.append(self.dir());
        s
    }

    /// The name of the file a record is dumped to as the `index`-th record:
    /// `s`, the stream id, `-n`, the index in at least three digits, the
    /// side and the direction, then `.frame` (such as `s1-n007-guest-out.frame`).
    pub fn dump_file_name(&self, index: usize) -> (r: String)
        ensures
            r@ == "s"@ + crate::text::decimal(record_stream_id(*self) as nat) + "-n"@ + pad3(
                crate::text::decimal(index as nat),
            ) + "-"@ + (match record_side(*self) {
                SocketSide::Guest => "guest"@,
                SocketSide::Host => "host"@,
            }) + "-"@ + (if *self is Incoming { "in"@ } else { "out"@ }) + ".frame"@,
    {
        let mut s = String::from_str("s");
        let id = decimal_string(self.stream_id() as u64);
        s.append(id.as_str());
        s.append("-n");
        let n = decimal_string(index as u64);
        proof {
            crate::text::lemma_decimal_len(index as nat);
            reveal_strlit("0");
            reveal_strlit("00");
        }
        if index < 10 {
            s.append("00");
        } else if index < 100 {
            s.append("0");
        }
        s.append(n.as_str());
        s.append("-");
        let side = self.side();
        s.append(side.as_str());
        s.append("-");
        s.append(self.dir());
        s.append(".frame");
        s
    }

    /// Decodes the frame from the base64 text. Text that is the encoding of
    /// no bytes gives the decoder's error; bytes whose ERROR message is not
    /// UTF-8 give an error too.
    pub fn frame(&self) -> (r: Result<Frame, Error>)
        requires
            record_decodable(record_text(*self)),
        ensures
            forall|b: Seq<u8>| #[trigger]
                base64_standard(b) == record_text(*self) ==> {
                    &&& (r is Ok <==> frame_decoding(b) is Some)
                    &&& (r matches Ok(f) ==> frame_decoding(b) == Some(f@))
                    &&& (r matches Err(e) ==> (e matches Error::Record(m) && m@
                        == undecodable_frame_message()))
                },
            (forall|b: Seq<u8>| base64_standard(b) != record_text(*self)) ==> (r matches Err(
                Error::Record(m),
            ) && m@ == base64_decode_error(record_text(*self))),
    {
        let text = self.encoded();
        match base64_decode(text) {
            Ok(bytes) => {
                proof {
                    assert(base64_standard(bytes@) == record_text(*self));
                    assert(frame_decodable(bytes@));
                }
                match Frame::decode(bytes) {
                    Ok(f) => Ok(f),
                    Err(_) => Err(Error::Record(String::from_str("Frame data is not valid UTF-8"))),
                }
            },
            Err(m) => {
                proof {
                    assert forall|b: Seq<u8>| base64_standard(b) != record_text(*self) by {
                        if base64_standard(b) == record_text(*self) {
                            assert(base64_standard(b) == text@);
                        }
                    }
                }
                Err(Error::Record(m))
            },
        }
    }

    /// Decodes the frame when the recorded bytes hold a frame that can be
    /// decoded, as `frame` does; gives `None` when the text is the base64 of
    /// bytes that do not.
    pub fn try_frame(&self) -> (r: Option<Result<Frame, Error>>)
        ensures
            r is None <==> !record_decodable(record_text(*self)),
            r matches Some(res) ==> forall|b: Seq<u8>| #[trigger]
                base64_standard(b) == record_text(*self) ==> {
                    &&& (res is Ok <==> frame_decoding(b) is Some)
                    &&& (res matches Ok(f) ==> frame_decoding(b) == Some(f@))
                },
            r matches Some(res) ==> ((forall|b: Seq<u8>| base64_standard(b) != record_text(*self))
                ==> (res matches Err(Error::Record(m)) && m@ == base64_decode_error(
                record_text(*self),
            ))),
    {
        let text = self.encoded();
        match base64_decode(text) {
            Ok(bytes) => {
                if Frame::decodable(bytes.as_slice()) {
                    proof {
                        assert forall|b: Seq<u8>| #[trigger]
                            base64_standard(b) == record_text(*self) implies frame_decodable(b) by {
                            assert(base64_standard(b) == text@);
                        }
                    }
                    Some(self.frame())
                } else {
                    proof {
                        assert(base64_standard(bytes@) == record_text(*self));
                    }
                    None
                }
            },
            Err(_) => {
                proof {
                    assert forall|b: Seq<u8>| #[trigger]
                        base64_standard(b) == record_text(*self) implies frame_decodable(b) by {
                        assert(base64_standard(b) == text@);
                    }
                }
                Some(self.frame())
            },
        }
    }
}

/// The frames sent and received by a socket, in the order they were
/// recorded.
#[derive(Debug)]
pub struct FrameRecords {
    /// The records, oldest first.
    pub frames: Vec<FrameRecord>,
}

impl FrameRecords {
    /// An empty set of records.
    pub fn new() -> (r: FrameRecords)
        ensures
            r.frames@ == Seq::<FrameRecord>::empty(),
    {
        FrameRecords { frames: Vec::new() }
    }

    /// Adds a record after the others.
    pub fn push(&mut self, record: FrameRecord)
        ensures
            final(self).frames@ == old(self).frames@.push(record),
    {
        self.frames.push(record);
    }
}

/// Takes out all the records, oldest first, and leaves none.
pub fn get_records(records: &mut FrameRecords) -> (r: Vec<FrameRecord>)
    ensures
        r@ == old(records).frames@,
        final(records).frames@ == Seq::<FrameRecord>::empty(),
{
    let mut out: Vec<FrameRecord> = Vec::new();
    std::mem::swap(&mut out, &mut records.frames);
    out
}

/// The record of a frame sent or received on a side.
fn record_of(outgoing: bool, side: SocketSide, frame: &Frame) -> (r: FrameRecord)
    requires
        view_encodable(frame@),
    ensures
        records_frame(r, outgoing, side, frame@),
        forall|b: Seq<u8>| #[trigger] base64_standard(b) == record_text(r) ==> b == frame_encoding(
            frame@,
        ),
{
    let stream_id = frame.stream_id();
    let bytes = frame.duplicate().encode();
    let text = base64_encode(bytes.as_slice());
    if outgoing {
        FrameRecord::Outgoing { side, stream_id, frame: text }
    } else {
        FrameRecord::Incoming { side, stream_id, frame: text }
    }
}

/// Records a frame sent on a side. A frame in the form its encoding
/// preserves is recorded so that it decodes back to itself.
pub fn write_outgoing_record(records: &mut FrameRecords, side: SocketSide, frame: &Frame)
    requires
        view_encodable(frame@),
    ensures
        final(records).frames@.len() == old(records).frames@.len() + 1,
        final(records).frames@.drop_last() == old(records).frames@,
        records_frame(final(records).frames@.last(), true, side, frame@),
        frame_canonical(frame@) ==> record_decodable(record_text(final(records).frames@.last())),
        frame_canonical(frame@) ==> forall|b: Seq<u8>| #[trigger]
            base64_standard(b) == record_text(final(records).frames@.last()) ==> frame_decoding(b)
                == Some(frame@),
{
    let r = record_of(true, side, frame);
    proof {
        if frame_canonical(frame@) {
            law_record_roundtrip(record_text(r), frame@);
        }
    }
    records.push(r);
    proof {
        assert(final(records).frames@.drop_last() =~= old(records).frames@);
    }
}

/// Records a frame received on a side. A frame in the form its encoding
/// preserves is recorded so that it decodes back to itself.
pub fn write_incoming_record(records: &mut FrameRecords, side: SocketSide, frame: &Frame)
    requires
        view_encodable(frame@),
    ensures
        final(records).frames@.len() == old(records).frames@.len() + 1,
        final(records).frames@.drop_last() == old(records).frames@,
        records_frame(final(records).frames@.last(), false, side, frame@),
        frame_canonical(frame@) ==> record_decodable(record_text(final(records).frames@.last())),
        frame_canonical(frame@) ==> forall|b: Seq<u8>| #[trigger]
            base64_standard(b) == record_text(final(records).frames@.last()) ==> frame_decoding(b)
                == Some(frame@),
{
    let r = record_of(false, side, frame);
    proof {
        if frame_canonical(frame@) {
            law_record_roundtrip(record_text(r), frame@);
        }
    }
    records.push(r);
    proof {
        assert(final(records).frames@.drop_last() =~= old(records).frames@);
    }
}

} // verus!

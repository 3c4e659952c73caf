//! The six-byte frame header: a stream id (31 bits), a frame type (6 bits)
//! and frame flags (10 bits).
use vstd::prelude::*;
use crate::kinds::{FrameType, frame_type_code, frame_type_name, frame_type_of_code};
use crate::text::{decimal, decimal_string};
use crate::util::{be16, be16_value, be32, be32_value, to_u32_bytes};

verus! {

/// The type that holds the bitmask of frame flags.
pub type FrameFlags = u16;

/// The number of bytes in every frame header.
pub const LEN_HEADER: usize = 6;
/// The IGNORE flag.
pub const FLAG_IGNORE: u16 = 16;
/// The NEXT flag.
pub const FLAG_NEXT: u16 = 32;
/// The COMPLETE flag.
pub const FLAG_COMPLETE: u16 = 64;
/// The FOLLOWS flag.
pub const FLAG_FOLLOW: u16 = 128;
/// The METADATA flag.
pub const FLAG_METADATA: u16 = 256;
/// The maximum number of N for REQUEST_N.
pub const REQUEST_MAX: u32 = 0x7FFF_FFFF;

/// Whether every bit of `flag` is set in `flags`.
pub open spec fn has_flag(flags: u16, flag: u16) -> bool {
    flags & flag == flag
}

/// Whether the NEXT flag is set.
pub fn flag_next(flags: FrameFlags) -> (r: bool)
    ensures
        r == has_flag(flags, FLAG_NEXT),
{
    flags & FLAG_NEXT == FLAG_NEXT
}

/// Whether the METADATA flag is set.
pub fn flag_metadata(flags: FrameFlags) -> (r: bool)
    ensures
        r == has_flag(flags, FLAG_METADATA),
{
    flags & FLAG_METADATA == FLAG_METADATA
}

/// Whether the COMPLETE flag is set.
pub fn flag_complete(flags: FrameFlags) -> (r: bool)
    ensures
        r == has_flag(flags, FLAG_COMPLETE),
{
    flags & FLAG_COMPLETE == FLAG_COMPLETE
}

/// Whether the FOLLOWS flag is set.
pub fn flag_follows(flags: FrameFlags) -> (r: bool)
    ensures
        r == has_flag(flags, FLAG_FOLLOW),
{
    flags & FLAG_FOLLOW == FLAG_FOLLOW
}

/// Whether the IGNORE flag is set.
pub fn flag_ignore(flags: FrameFlags) -> (r: bool)
    ensures
        r == has_flag(flags, FLAG_IGNORE),
{
    flags & FLAG_IGNORE == FLAG_IGNORE
}

/// The 16-bit word that holds the frame type in its top six bits and the
/// flags below.
pub open spec fn header_word(t: FrameType, flags: u16) -> u16 {
    ((frame_type_code(t) as u16) << 10u16) | flags
}

/// The six header bytes for a stream id, frame type and flags.
pub open spec fn header_bytes(stream_id: u32, t: FrameType, flags: u16) -> Seq<u8> {
    be32(stream_id) + be16(header_word(t, flags))
}

/// The stream id that header bytes carry (the top bit is masked off).
pub open spec fn header_stream_id(h: Seq<u8>) -> u32 {
    be32_value(h[0] & 0x7fu8, h[1], h[2], h[3])
}

/// The type-and-flags word that header bytes carry.
pub open spec fn header_n(h: Seq<u8>) -> u16 {
    be16_value(h[4], h[5])
}

/// The wire number of the frame type that header bytes carry.
pub open spec fn header_type_code(h: Seq<u8>) -> u8 {
    h[4] >> 2u8
}

/// The frame type that header bytes carry, if the number is a known type.
pub open spec fn header_type(h: Seq<u8>) -> Option<FrameType> {
    frame_type_of_code(header_type_code(h) as int)
}

/// Whether header bytes carry the given flag.
pub open spec fn header_has(h: Seq<u8>, flag: u16) -> bool {
    has_flag(header_n(h), flag)
}

/// Six (6) bytes reserved for frame header information.
#[derive(Debug)]
pub struct FrameHeader {
    /// The header bytes.
    pub header: Vec<u8>,
}

impl FrameHeader {
    /// The header of a frame with the given stream id, type and flags.
    pub fn new(stream_id: u32, frame_type: FrameType, frame_flags: u16) -> (r: FrameHeader)
        requires
            frame_type != FrameType::Reserved,
        ensures
            r.header@ == header_bytes(stream_id, frame_type, frame_flags),
    {
        let code = frame_type.into_u32();
        let code16 = code as u16;
        let word: u16 = (code16 << 10u16) | frame_flags;
        let mut header = to_u32_bytes(stream_id);
        header.push((word >> 8u16) as u8);
        header.push(word as u8);
        proof {
            assert(header@ =~= header_bytes(stream_id, frame_type, frame_flags));
        }
        FrameHeader { header }
    }

    /// A header made of the given bytes.
    pub fn from_bytes(header: Vec<u8>) -> (r: FrameHeader)
        ensures
            r.header@ == header@,
    {
        FrameHeader { header }
    }

    /// The header bytes.
    pub fn encode(self) -> (r: Vec<u8>)
        ensures
            r@ == self.header@,
    {
        self.header
    }

    /// The stream id of the frame.
    pub fn stream_id(&self) -> (r: u32)
        requires
            self.header@.len() >= LEN_HEADER,
        ensures
            r == header_stream_id(self.header@),
    {
        let b0 = self.header[0] & 0x7fu8;
        ((b0 as u32) << 24u32) | ((self.header[1] as u32) << 16u32) | ((self.header[2] as u32)
            << 8u32) | (self.header[3] as u32)
    }

    /// The word that holds the frame type and flags.
    pub fn n(&self) -> (r: u16)
        requires
            self.header@.len() >= LEN_HEADER,
        ensures
            r == header_n(self.header@),
    {
        ((self.header[4] as u16) << 8u16) | (self.header[5] as u16)
    }

    /// The frame type. A header whose type number is unknown has no type.
    pub fn frame_type(&self) -> (r: FrameType)
        requires
            self.header@.len() >= LEN_HEADER,
            header_type(self.header@) is Some,
        ensures
            header_type(self.header@) == Some(r),
    {
        let id: u8 = self.header[4] >> 2u8;
        match FrameType::try_from(id) {
            Ok(t) => t,
            Err(_) => {
                proof {
                    assert(false);
                }
                FrameType::Reserved
            },
        }
    }

    /// Whether every bit of `flag` is set in the header.
    pub fn check(&self, flag: FrameFlags) -> (r: bool)
        requires
            self.header@.len() >= LEN_HEADER,
        ensures
            r == header_has(self.header@, flag),
    {
        self.n() & flag == flag
    }

    /// Whether the METADATA flag is set.
    pub fn has_metadata(&self) -> (r: bool)
        requires
            self.header@.len() >= LEN_HEADER,
        ensures
            r == header_has(self.header@, FLAG_METADATA),
    {
        self.check(FLAG_METADATA)
    }

    /// Whether the FOLLOWS flag is set.
    pub fn has_follows(&self) -> (r: bool)
        requires
            self.header@.len() >= LEN_HEADER,
        ensures
            r == header_has(self.header@, FLAG_FOLLOW),
    {
        self.check(FLAG_FOLLOW)
    }

    /// Whether the NEXT flag is set.
    pub fn has_next(&self) -> (r: bool)
        requires
            self.header@.len() >= LEN_HEADER,
        ensures
            r == header_has(self.header@, FLAG_NEXT),
    {
        self.check(FLAG_NEXT)
    }

    /// Whether the COMPLETE flag is set.
    pub fn has_complete(&self) -> (r: bool)
        requires
            self.header@.len() >= LEN_HEADER,
        ensures
            r == header_has(self.header@, FLAG_COMPLETE),
    {
        self.check(FLAG_COMPLETE)
    }

    /// Whether the IGNORE flag is set.
    pub fn has_ignore(&self) -> (r: bool)
        requires
            self.header@.len() >= LEN_HEADER,
        ensures
            r == header_has(self.header@, FLAG_IGNORE),
    {
        self.check(FLAG_IGNORE)
    }
}

/// A header built for a stream id gives back that id with its top bit
/// cleared.
pub proof fn law_header_stream_id(stream_id: u32, t: FrameType, flags: u16)
    ensures
        header_bytes(stream_id, t, flags).len() == LEN_HEADER,
        header_stream_id(header_bytes(stream_id, t, flags)) == stream_id & 0x7fff_ffffu32,
{
    let v = stream_id;
    let h = header_bytes(stream_id, t, flags);
    let b0 = (v >> 24u32) as u8;
    let b1 = (v >> 16u32) as u8;
    let b2 = (v >> 8u32) as u8;
    let b3 = v as u8;
    assert(h[0] == b0 && h[1] == b1 && h[2] == b2 && h[3] == b3);
    assert(((((b0 & 0x7fu8) as u32) << 24u32) | ((b1 as u32) << 16u32) | ((b2 as u32) << 8u32)
        | (b3 as u32)) == v & 0x7fff_ffffu32) by (bit_vector)
        requires
            b0 == (v >> 24u32) as u8,
            b1 == (v >> 16u32) as u8,
            b2 == (v >> 8u32) as u8,
            b3 == v as u8,
    ;
}

/// A header built for a frame type and flags gives back the type-and-flags
/// word; when the flags fit in their ten bits it gives back the frame type.
pub proof fn law_header_type_and_flags(stream_id: u32, t: FrameType, flags: u16)
    ensures
        header_n(header_bytes(stream_id, t, flags)) == header_word(t, flags),
        flags < 1024 ==> header_type(header_bytes(stream_id, t, flags)) == Some(t),
{
    let h = header_bytes(stream_id, t, flags);
    let w = header_word(t, flags);
    crate::util::lemma_be16_roundtrip(w);
    assert(h[4] == (w >> 8u16) as u8 && h[5] == w as u8);
    let c = frame_type_code(t) as u16;
    assert(c < 64);
    assert(w == (c << 10u16) | flags);
    if flags < 1024 {
        assert(((((c << 10u16) | flags) >> 8u16) as u8) >> 2u8 == c as u8) by (bit_vector)
            requires
                c < 64,
                flags < 1024,
        ;
        assert(header_type_code(h) == c as u8);
        crate::kinds::law_frame_type_code_roundtrip(t);
    }
}

/// Every flag below the frame-type bits is read back from a header exactly
/// as it was given.
pub proof fn law_header_flags(stream_id: u32, t: FrameType, flags: u16, flag: u16)
    requires
        flag < 1024,
    ensures
        header_has(header_bytes(stream_id, t, flags), flag) == has_flag(flags, flag),
{
    law_header_type_and_flags(stream_id, t, flags);
    let c = frame_type_code(t) as u16;
    assert(c < 64);
    assert((((c << 10u16) | flags) & flag == flag) == (flags & flag == flag)) by (bit_vector)
        requires
            c < 64,
            flag < 1024,
    ;
}

/// Names joined by `|`.
pub open spec fn join_bar(names: Seq<Seq<char>>) -> Seq<char>
    decreases names.len(),
{
    if names.len() == 0 {
        Seq::empty()
    } else if names.len() == 1 {
        names[0]
    } else {
        join_bar(names.drop_last()) + "|"@ + names.last()
    }
}

/// The short names of the flags a header carries, in the order they are
/// shown: N (next), CL (complete), FRS (follows), M (metadata), I (ignore).
pub open spec fn header_flag_names(h: Seq<u8>) -> Seq<Seq<char>> {
    (if header_has(h, FLAG_NEXT) { seq!["N"@] } else { Seq::empty() }) + (if header_has(
        h,
        FLAG_COMPLETE,
    ) {
        seq!["CL"@]
    } else {
        Seq::empty()
    }) + (if header_has(h, FLAG_FOLLOW) { seq!["FRS"@] } else { Seq::empty() }) + (if header_has(
        h,
        FLAG_METADATA,
    ) {
        seq!["M"@]
    } else {
        Seq::empty()
    }) + (if header_has(h, FLAG_IGNORE) { seq!["I"@] } else { Seq::empty() })
}

/// How a header is displayed: its stream id, type and flags.
pub open spec fn header_description(h: Seq<u8>) -> Seq<char> {
    "FrameHeader{id="@ + decimal(header_stream_id(h) as nat) + ",type="@ + frame_type_name(
        header_type(h)->0,
    ) + ",flag="@ + join_bar(header_flag_names(h)) + "}"@
}

/// Appends a flag name to the names shown so far.
fn push_flag_name(out: &mut String, names: Ghost<Seq<Seq<char>>>, name: &str)
    requires
        old(out)@ == join_bar(names@),
        forall|i: int| 0 <= i < names@.len() ==> #[trigger] names@[i].len() > 0,
        name@.len() > 0,
    ensures
        final(out)@ == join_bar(names@.push(name@)),
        forall|i: int| 0 <= i < names@.push(name@).len() ==> #[trigger] names@.push(name@)[i].len() > 0,
{
    proof {
        assert(names@.push(name@).drop_last() =~= names@);
    }
    if out.as_str().is_empty() {
        proof {
            if names@.len() > 0 {
                lemma_join_bar_nonempty(names@);
            }
        }
        out.append(name);
        proof {
            assert(names@.len() == 0);
            assert(names@.push(name@).len() == 1);
            assert(final(out)@ =~= join_bar(names@.push(name@)));
        }
    } else {
        out.append("|");
        out.append(name);
    }
}

/// Nonempty names joined by `|` are not empty.
proof fn lemma_join_bar_nonempty(names: Seq<Seq<char>>)
    requires
        names.len() > 0,
        forall|i: int| 0 <= i < names.len() ==> #[trigger] names[i].len() > 0,
    ensures
        join_bar(names).len() > 0,
    decreases names.len(),
{
    if names.len() > 1 {
        assert(names.last().len() > 0);
    } else {
        assert(names[0].len() > 0);
    }
}

impl FrameHeader {
    /// The header as it is displayed, such as
    /// `FrameHeader{id=3,type=PAYLOAD,flag=N|CL}`.
    pub fn describe(&self) -> (r: String)
        requires
            self.header@.len() >= LEN_HEADER,
            header_type(self.header@) is Some,
        ensures
            r@ == header_description(self.header@),
    {
        let ghost h = self.header@;
        proof {
            reveal_strlit("N");
            reveal_strlit("CL");
            reveal_strlit("FRS");
            reveal_strlit("M");
            reveal_strlit("I");
        }
        let mut flags = String::new();
        let ghost mut names: Seq<Seq<char>> = Seq::empty();
        if self.has_next() {
            push_flag_name(&mut flags, Ghost(names), "N");
            proof { names = names.push("N"@); }
        }
        if self.has_complete() {
            push_flag_name(&mut flags, Ghost(names), "CL");
            proof { names = names.push("CL"@); }
        }
        if self.has_follows() {
            push_flag_name(&mut flags, Ghost(names), "FRS");
            proof { names = names.push("FRS"@); }
        }
        if self.has_metadata() {
            push_flag_name(&mut flags, Ghost(names), "M");
            proof { names = names.push("M"@); }
        }
        if self.has_ignore() {
            push_flag_name(&mut flags, Ghost(names), "I");
            proof { names = names.push("I"@); }
        }
        proof {
            assert(names =~= header_flag_names(h));
        }
        let mut out = String::from_str("FrameHeader{id=");
        let id = decimal_string(self.stream_id() as u64);
        out.append(id.as_str());
        out.append(",type=");
        out.append(self.frame_type().name());
        out.append(",flag=");
        out.append(flags.as_str());
        out.append("}");
        out
    }
}

} // verus!

//! Decoding of MessagePack data, the encoding that wasmRS payloads carry.
//!
//! A MessagePack value is read as the sequence of its tokens in prefix
//! order: a scalar is one token; an array token announces its `n` elements
//! and a map token its `n` keys and `n` values, which follow it. Floats are
//! kept as the bits of their IEEE 754 representation.
use vstd::prelude::*;
use crate::util::copy_range;

verus! {

/// Why MessagePack data could not be decoded.
#[derive(Clone, Copy, Debug, PartialEq, Eq, Structural)]
pub enum DecodeError {
    /// The data ended before the value did.
    EndOfBuffer,
    /// The marker byte 0xc1, which MessagePack never uses.
    ReservedMarker,
    /// The marker is not the one the reader asked for.
    InvalidType,
    /// A newtype variant is not held in an array of one element.
    InvalidNewTypeLength,
    /// A tuple or struct variant does not have the expected number of parts.
    OutOfBounds,
}

/// One token of MessagePack data.
#[derive(Debug)]
pub enum Token {
    /// nil.
    Nil,
    /// A boolean.
    Bool(bool),
    /// An unsigned integer (positive fixint, uint 8 to uint 64).
    UInt(u64),
    /// A signed integer (negative fixint, int 8 to int 64).
    Int(i64),
    /// A float 32, as its bits.
    F32(u32),
    /// A float 64, as its bits.
    F64(u64),
    /// The bytes of a string.
    Str(Vec<u8>),
    /// Binary data.
    Bin(Vec<u8>),
    /// An extension: its type and data.
    Ext(i8, Vec<u8>),
    /// The start of an array of the given number of elements.
    ArrayHeader(u32),
    /// The start of a map of the given number of entries.
    MapHeader(u32),
}

/// The abstract content of a token.
pub enum TokenView {
    Nil,
    Bool(bool),
    UInt(u64),
    Int(i64),
    F32(u32),
    F64(u64),
    Str(Seq<u8>),
    Bin(Seq<u8>),
    Ext(i8, Seq<u8>),
    ArrayHeader(u32),
    MapHeader(u32),
}

impl View for Token {
    type V = TokenView;

    open spec fn view(&self) -> TokenView {
        match self {
            Token::Nil => TokenView::Nil,
            Token::Bool(b) => TokenView::Bool(*b),
            Token::UInt(v) => TokenView::UInt(*v),
            Token::Int(v) => TokenView::Int(*v),
            Token::F32(v) => TokenView::F32(*v),
            Token::F64(v) => TokenView::F64(*v),
            Token::Str(s) => TokenView::Str(s@),
            Token::Bin(s) => TokenView::Bin(s@),
            Token::Ext(t, s) => TokenView::Ext(*t, s@),
            Token::ArrayHeader(n) => TokenView::ArrayHeader(*n),
            Token::MapHeader(n) => TokenView::MapHeader(*n),
        }
    }
}

/// The unsigned big-endian number that bytes hold.
pub open spec fn be(s: Seq<u8>) -> nat
    decreases s.len(),
{
    if s.len() == 0 {
        0
    } else {
        be(s.drop_last()) * 256 + s.last() as nat
    }
}

/// 256 to the power `n`.
pub open spec fn pow256(n: nat) -> nat
    decreases n,
{
    if n == 0 {
        1
    } else {
        256 * pow256((n - 1) as nat)
    }
}

/// The big-endian number in the `n` bytes at `pos`, if they are there.
pub open spec fn number_at(b: Seq<u8>, pos: int, n: int) -> Option<nat> {
    if 0 <= pos && 0 <= n && pos + n <= b.len() {
        Some(be(b.subrange(pos, pos + n)))
    } else {
        None
    }
}

/// The `len` bytes at `pos` and the position after them, if they are there.
pub open spec fn bytes_at(b: Seq<u8>, pos: int, len: int) -> Option<(Seq<u8>, int)> {
    if 0 <= pos && 0 <= len && pos + len <= b.len() {
        Some((b.subrange(pos, pos + len), pos + len))
    } else {
        None
    }
}

/// The bytes whose length is the `lsize`-byte number at `pos`.
pub open spec fn chunk_at(b: Seq<u8>, pos: int, lsize: int) -> Option<(Seq<u8>, int)> {
    match number_at(b, pos, lsize) {
        Some(len) => bytes_at(b, pos + lsize, len as int),
        None => None,
    }
}

/// An extension at `pos` whose data length is the `lsize`-byte number
/// there: the type byte follows the length, the data follows the type.
pub open spec fn ext_at(b: Seq<u8>, pos: int, lsize: int) -> Option<(TokenView, int)> {
    match number_at(b, pos, lsize) {
        Some(len) => if pos + lsize < b.len() {
            match bytes_at(b, pos + lsize + 1, len as int) {
                Some((d, e)) => Some((TokenView::Ext(b[pos + lsize] as i8, d), e)),
                None => None,
            }
        } else {
            None
        },
        None => None,
    }
}

/// A fixed-size extension at `pos`: the type byte, then `len` data bytes.
pub open spec fn fixext_at(b: Seq<u8>, pos: int, len: int) -> Option<(TokenView, int)> {
    if 0 <= pos < b.len() {
        match bytes_at(b, pos + 1, len) {
            Some((d, e)) => Some((TokenView::Ext(b[pos] as i8, d), e)),
            None => None,
        }
    } else {
        None
    }
}

/// The signed integer that the `n`-byte two's complement number `v` stands
/// for.
pub open spec fn signed(v: nat, n: int) -> i64 {
    if n == 1 {
        (v as u8) as i8 as i64
    } else if n == 2 {
        (v as u16) as i16 as i64
    } else if n == 4 {
        (v as u32) as i32 as i64
    } else {
        (v as u64) as i64
    }
}

/// A token at `pos` read as the `n`-byte number there: unsigned (`kind`
/// 0), signed (1), float 32 bits (2) or float 64 bits (3).
pub open spec fn number_token(b: Seq<u8>, pos: int, n: int, kind: int) -> Option<(TokenView, int)> {
    match number_at(b, pos, n) {
        Some(v) => Some(
            (
                if kind == 0 {
                    TokenView::UInt(v as u64)
                } else if kind == 1 {
                    TokenView::Int(signed(v, n))
                } else if kind == 2 {
                    TokenView::F32(v as u32)
                } else {
                    TokenView::F64(v as u64)
                },
                pos + n,
            ),
        ),
        None => None,
    }
}

/// A string (`is_str`) or binary token whose length is the `lsize`-byte
/// number at `pos`.
pub open spec fn chunk_token(b: Seq<u8>, pos: int, lsize: int, is_str: bool) -> Option<(TokenView, int)> {
    match chunk_at(b, pos, lsize) {
        Some((d, e)) => Some((if is_str { TokenView::Str(d) } else { TokenView::Bin(d) }, e)),
        None => None,
    }
}

/// A token with no children, or the end of the buffer.
pub open spec fn leaf(o: Option<(TokenView, int)>) -> Result<(TokenView, int, nat), DecodeError> {
    match o {
        Some((t, e)) => Ok((t, e, 0)),
        None => Err(DecodeError::EndOfBuffer),
    }
}

/// An array (`is_map` false) or map token whose count is the `lsize`-byte
/// number at `pos`, with the number of tokens it announces.
pub open spec fn container(b: Seq<u8>, pos: int, lsize: int, is_map: bool) -> Result<
    (TokenView, int, nat),
    DecodeError,
> {
    match number_at(b, pos, lsize) {
        Some(n) => if is_map {
            Ok((TokenView::MapHeader(n as u32), pos + lsize, 2 * n))
        } else {
            Ok((TokenView::ArrayHeader(n as u32), pos + lsize, n))
        },
        None => Err(DecodeError::EndOfBuffer),
    }
}

/// The token at `pos`: the token, the position after it, and the number of
/// tokens it announces.
pub open spec fn token_at(b: Seq<u8>, pos: int) -> Result<(TokenView, int, nat), DecodeError> {
    let m = b[pos];
    let p = pos + 1;
    if m <= 0x7f {
        Ok((TokenView::UInt(m as u64), p, 0))
    } else if m <= 0x8f {
        Ok((TokenView::MapHeader((m - 0x80) as u32), p, (2 * (m - 0x80)) as nat))
    } else if m <= 0x9f {
        Ok((TokenView::ArrayHeader((m - 0x90) as u32), p, (m - 0x90) as nat))
    } else if m <= 0xbf {
        leaf(
            match bytes_at(b, p, m - 0xa0) {
                Some((d, e)) => Some((TokenView::Str(d), e)),
                None => None,
            },
        )
    } else if m == 0xc0 {
        Ok((TokenView::Nil, p, 0))
    } else if m == 0xc1 {
        Err(DecodeError::ReservedMarker)
    } else if m == 0xc2 {
        Ok((TokenView::Bool(false), p, 0))
    } else if m == 0xc3 {
        Ok((TokenView::Bool(true), p, 0))
    } else if m == 0xc4 {
        leaf(chunk_token(b, p, 1, false))
    } else if m == 0xc5 {
        leaf(chunk_token(b, p, 2, false))
    } else if m == 0xc6 {
        leaf(chunk_token(b, p, 4, false))
    } else if m == 0xc7 {
        leaf(ext_at(b, p, 1))
    } else if m == 0xc8 {
        leaf(ext_at(b, p, 2))
    } else if m == 0xc9 {
        leaf(ext_at(b, p, 4))
    } else if m == 0xca {
        leaf(number_token(b, p, 4, 2))
    } else if m == 0xcb {
        leaf(number_token(b, p, 8, 3))
    } else if m == 0xcc {
        leaf(number_token(b, p, 1, 0))
    } else if m == 0xcd {
        leaf(number_token(b, p, 2, 0))
    } else if m == 0xce {
        leaf(number_token(b, p, 4, 0))
    } else if m == 0xcf {
        leaf(number_token(b, p, 8, 0))
    } else if m == 0xd0 {
        leaf(number_token(b, p, 1, 1))
    } else if m == 0xd1 {
        leaf(number_token(b, p, 2, 1))
    } else if m == 0xd2 {
        leaf(number_token(b, p, 4, 1))
    } else if m == 0xd3 {
        leaf(number_token(b, p, 8, 1))
    } else if m == 0xd4 {
        leaf(fixext_at(b, p, 1))
    } else if m == 0xd5 {
        leaf(fixext_at(b, p, 2))
    } else if m == 0xd6 {
        leaf(fixext_at(b, p, 4))
    } else if m == 0xd7 {
        leaf(fixext_at(b, p, 8))
    } else if m == 0xd8 {
        leaf(fixext_at(b, p, 16))
    } else if m == 0xd9 {
        leaf(chunk_token(b, p, 1, true))
    } else if m == 0xda {
        leaf(chunk_token(b, p, 2, true))
    } else if m == 0xdb {
        leaf(chunk_token(b, p, 4, true))
    } else if m == 0xdc {
        container(b, p, 2, false)
    } else if m == 0xdd {
        container(b, p, 4, false)
    } else if m == 0xde {
        container(b, p, 2, true)
    } else if m == 0xdf {
        container(b, p, 4, true)
    } else {
        Ok((TokenView::Int(m as i8 as i64), p, 0))
    }
}

/// A token ends after its marker and within the data.
pub proof fn lemma_token_advances(b: Seq<u8>, pos: int)
    requires
        0 <= pos < b.len(),
    ensures
        token_at(b, pos) matches Ok((_, next, _)) ==> pos < next <= b.len(),
{
}

/// The tokens of `pending` values starting at `pos`, and the position after
/// them. Every value takes at least one byte, so a token that leaves more
/// values pending than bytes remain ends the data early.
pub open spec fn tokens_from(b: Seq<u8>, pos: int, pending: nat) -> Result<(Seq<TokenView>, int), DecodeError>
    decreases b.len() - pos,
{
    if pending == 0 {
        Ok((Seq::empty(), pos))
    } else if pos < 0 || pos >= b.len() {
        Err(DecodeError::EndOfBuffer)
    } else {
        proof {
            lemma_token_advances(b, pos);
        }
        match token_at(b, pos) {
            Err(e) => Err(e),
            Ok((t, next, children)) => {
                if pending - 1 + children > b.len() - next {
                    Err(DecodeError::EndOfBuffer)
                } else {
                    match tokens_from(b, next, (pending - 1 + children) as nat) {
                        Err(e) => Err(e),
                        Ok((ts, end)) => Ok((seq![t] + ts, end)),
                    }
                }
            },
        }
    }
}

/// The tokens of the first value in the data.
pub open spec fn value_tokens(b: Seq<u8>) -> Result<(Seq<TokenView>, int), DecodeError> {
    tokens_from(b, 0, 1)
}

/// A big-endian number of up to eight bytes stays below 256 to the power
/// of its length.
proof fn lemma_be_bound(s: Seq<u8>)
    ensures
        be(s) < pow256(s.len()),
    decreases s.len(),
{
    if s.len() > 0 {
        let init = s.drop_last();
        lemma_be_bound(init);
        let a = be(init);
        let p = pow256(init.len());
        assert(a * 256 + s.last() < 256 * p) by (nonlinear_arith)
            requires
                a < p,
                s.last() < 256,
        ;
    }
}

/// The powers of 256 up to the eighth.
proof fn lemma_pow256_values()
    ensures
        pow256(0) == 1,
        pow256(1) == 0x100,
        pow256(2) == 0x1_0000,
        pow256(3) == 0x100_0000,
        pow256(4) == 0x1_0000_0000,
        pow256(5) == 0x100_0000_0000,
        pow256(6) == 0x1_0000_0000_0000,
        pow256(7) == 0x100_0000_0000_0000,
        pow256(8) == 0x1_0000_0000_0000_0000,
{
    reveal_with_fuel(pow256, 9);
}

/// Reads the big-endian number in the `n` bytes at `pos`.
fn read_be(buf: &[u8], pos: usize, n: usize) -> (r: u64)
    requires
        n <= 8,
        pos + n <= buf@.len(),
    ensures
        r as nat == be(buf@.subrange(pos as int, pos + n)),
{
    let mut acc: u64 = 0;
    let mut i: usize = 0;
    while i < n
        invariant
            i <= n <= 8,
            pos + n <= buf.len(),
            acc as nat == be(buf@.subrange(pos as int, pos + i)),
        decreases n - i,
    {
        proof {
            let s = buf@.subrange(pos as int, pos + i);
            lemma_be_bound(s);
            lemma_pow256_values();
            assert(i == 0 || i == 1 || i == 2 || i == 3 || i == 4 || i == 5 || i == 6 || i == 7);
            assert(acc < 0x100_0000_0000_0000);
            let t = buf@.subrange(pos as int, pos + i + 1);
            assert(t.drop_last() =~= s);
        }
        acc = acc * 256 + buf[pos + i] as u64;
        i = i + 1;
    }
    acc
}

/// Reads the big-endian number in the `n` bytes at `pos`, if they are
/// there.
fn read_number(buf: &[u8], pos: usize, n: usize) -> (r: Option<u64>)
    requires
        n <= 8,
    ensures
        r is Some <==> pos + n <= buf.len(),
        match number_at(buf@, pos as int, n as int) {
            Some(v) => r == Some(v as u64) && v < 0x1_0000_0000_0000_0000,
            None => r is None,
        },
{
    if n > buf.len() || pos > buf.len() - n {
        None
    } else {
        let v = read_be(buf, pos, n);
        Some(v)
    }
}

/// Reads the `len` bytes at `pos`, if they are there.
fn read_bytes(buf: &[u8], pos: usize, len: u64) -> (r: Option<(Vec<u8>, usize)>)
    ensures
        match bytes_at(buf@, pos as int, len as int) {
            Some((d, e)) => r matches Some((v, end)) && v@ == d && end == e,
            None => r is None,
        },
{
    if pos > buf.len() || len > (buf.len() - pos) as u64 {
        None
    } else {
        let l = len as usize;
        let v = copy_range(buf, pos, pos + l);
        Some((v, pos + l))
    }
}

/// Reads the bytes whose length is the `lsize`-byte number at `pos`.
fn read_chunk(buf: &[u8], pos: usize, lsize: usize) -> (r: Option<(Vec<u8>, usize)>)
    requires
        lsize <= 4,
    ensures
        match chunk_at(buf@, pos as int, lsize as int) {
            Some((d, e)) => r matches Some((v, end)) && v@ == d && end == e,
            None => r is None,
        },
{
    match read_number(buf, pos, lsize) {
        None => None,
        Some(len) => read_bytes(buf, pos + lsize, len),
    }
}

/// Reads an extension whose data length is the `lsize`-byte number at `pos`.
fn read_ext(buf: &[u8], pos: usize, lsize: usize) -> (r: Option<(Token, usize)>)
    requires
        lsize <= 4,
    ensures
        match ext_at(buf@, pos as int, lsize as int) {
            Some((t, e)) => r matches Some((tok, end)) && tok@ == t && end == e,
            None => r is None,
        },
{
    match read_number(buf, pos, lsize) {
        None => None,
        Some(len) => {
            if pos + lsize >= buf.len() {
                None
            } else {
                let ty = buf[pos + lsize] as i8;
                match read_bytes(buf, pos + lsize + 1, len) {
                    Some((d, e)) => Some((Token::Ext(ty, d), e)),
                    None => None,
                }
            }
        },
    }
}

/// Reads a fixed-size extension at `pos`: the type byte, then `len` bytes.
fn read_fixext(buf: &[u8], pos: usize, len: u64) -> (r: Option<(Token, usize)>)
    ensures
        match fixext_at(buf@, pos as int, len as int) {
            Some((t, e)) => r matches Some((tok, end)) && tok@ == t && end == e,
            None => r is None,
        },
{
    if pos >= buf.len() {
        None
    } else {
        let ty = buf[pos] as i8;
        match read_bytes(buf, pos + 1, len) {
            Some((d, e)) => Some((Token::Ext(ty, d), e)),
            None => None,
        }
    }
}

/// Reads the `n`-byte number at `pos` as a token of the given kind:
/// unsigned (0), signed (1), float 32 bits (2) or float 64 bits (3).
fn read_number_token(buf: &[u8], pos: usize, n: usize, kind: u8) -> (r: Option<(Token, usize)>)
    requires
        n == 1 || n == 2 || n == 4 || n == 8,
    ensures
        match number_token(buf@, pos as int, n as int, kind as int) {
            Some((t, e)) => r matches Some((tok, end)) && tok@ == t && end == e,
            None => r is None,
        },
{
    match read_number(buf, pos, n) {
        None => None,
        Some(v) => {
            let t = if kind == 0 {
                Token::UInt(v)
            } else if kind == 1 {
                let s: i64 = if n == 1 {
                    v as u8 as i8 as i64
                } else if n == 2 {
                    v as u16 as i16 as i64
                } else if n == 4 {
                    v as u32 as i32 as i64
                } else {
                    v as i64
                };
                Token::Int(s)
            } else if kind == 2 {
                Token::F32(v as u32)
            } else {
                Token::F64(v)
            };
            Some((t, pos + n))
        },
    }
}

/// Reads a string (`is_str`) or binary token whose length is the
/// `lsize`-byte number at `pos`.
fn read_chunk_token(buf: &[u8], pos: usize, lsize: usize, is_str: bool) -> (r: Option<(Token, usize)>)
    requires
        lsize <= 4,
    ensures
        match chunk_token(buf@, pos as int, lsize as int, is_str) {
            Some((t, e)) => r matches Some((tok, end)) && tok@ == t && end == e,
            None => r is None,
        },
{
    match read_chunk(buf, pos, lsize) {
        None => None,
        Some((d, e)) => Some((if is_str { Token::Str(d) } else { Token::Bin(d) }, e)),
    }
}

/// A token with no children, or the end of the buffer.
fn to_leaf(o: Option<(Token, usize)>) -> (r: Result<(Token, usize, u64), DecodeError>)
    ensures
        match o {
            Some((t, e)) => r matches Ok((tok, end, c)) && tok@ == t@ && end == e && c == 0,
            None => r == Err::<(Token, usize, u64), DecodeError>(DecodeError::EndOfBuffer),
        },
{
    match o {
        Some((t, e)) => Ok((t, e, 0)),
        None => Err(DecodeError::EndOfBuffer),
    }
}

/// Reads an array or map token whose count is the `lsize`-byte number at
/// `pos`.
fn read_container(buf: &[u8], pos: usize, lsize: usize, is_map: bool) -> (r: Result<
    (Token, usize, u64),
    DecodeError,
>)
    requires
        lsize == 2 || lsize == 4,
    ensures
        match container(buf@, pos as int, lsize as int, is_map) {
            Ok((t, e, c)) => r matches Ok((tok, end, ch)) && tok@ == t && end == e && ch == c,
            Err(err) => r == Err::<(Token, usize, u64), DecodeError>(err),
        },
{
    match read_number(buf, pos, lsize) {
        None => Err(DecodeError::EndOfBuffer),
        Some(n) => {
            proof {
                lemma_be_bound(buf@.subrange(pos as int, pos + lsize));
                lemma_pow256_values();
            }
            if is_map {
                Ok((Token::MapHeader(n as u32), pos + lsize, 2 * n))
            } else {
                Ok((Token::ArrayHeader(n as u32), pos + lsize, n))
            }
        },
    }
}

/// Reads the token at `pos`: the token, the position after it, and the
/// number of tokens it announces.
pub fn read_token(buf: &[u8], pos: usize) -> (r: Result<(Token, usize, u64), DecodeError>)
    requires
        pos < buf@.len(),
    ensures
        match token_at(buf@, pos as int) {
            Ok((t, e, c)) => r matches Ok((tok, end, ch)) && tok@ == t && end == e && ch == c,
            Err(err) => r == Err::<(Token, usize, u64), DecodeError>(err),
        },
{
    let m = buf[pos];
    let p = pos + 1;
    if m <= 0x7f {
        Ok((Token::UInt(m as u64), p, 0))
    } else if m <= 0x8f {
        Ok((Token::MapHeader((m - 0x80) as u32), p, (2 * (m - 0x80)) as u64))
    } else if m <= 0x9f {
        Ok((Token::ArrayHeader((m - 0x90) as u32), p, (m - 0x90) as u64))
    } else if m <= 0xbf {
        let o = match read_bytes(buf, p, (m - 0xa0) as u64) {
            Some((d, e)) => Some((Token::Str(d), e)),
            None => None,
        };
        to_leaf(o)
    } else if m == 0xc0 {
        Ok((Token::Nil, p, 0))
    } else if m == 0xc1 {
        Err(DecodeError::ReservedMarker)
    } else if m == 0xc2 {
        Ok((Token::Bool(false), p, 0))
    } else if m == 0xc3 {
        Ok((Token::Bool(true), p, 0))
    } else if m == 0xc4 {
        to_leaf(read_chunk_token(buf, p, 1, false))
    } else if m == 0xc5 {
        to_leaf(read_chunk_token(buf, p, 2, false))
    } else if m == 0xc6 {
        to_leaf(read_chunk_token(buf, p, 4, false))
    } else if m == 0xc7 {
        to_leaf(read_ext(buf, p, 1))
    } else if m == 0xc8 {
        to_leaf(read_ext(buf, p, 2))
    } else if m == 0xc9 {
        to_leaf(read_ext(buf, p, 4))
    } else if m == 0xca {
        to_leaf(read_number_token(buf, p, 4, 2))
    } else if m == 0xcb {
        to_leaf(read_number_token(buf, p, 8, 3))
    } else if m == 0xcc {
        to_leaf(read_number_token(buf, p, 1, 0))
    } else if m == 0xcd {
        to_leaf(read_number_token(buf, p, 2, 0))
    } else if m == 0xce {
        to_leaf(read_number_token(buf, p, 4, 0))
    } else if m == 0xcf {
        to_leaf(read_number_token(buf, p, 8, 0))
    } else if m == 0xd0 {
        to_leaf(read_number_token(buf, p, 1, 1))
    } else if m == 0xd1 {
        to_leaf(read_number_token(buf, p, 2, 1))
    } else if m == 0xd2 {
        to_leaf(read_number_token(buf, p, 4, 1))
    } else if m == 0xd3 {
        to_leaf(read_number_token(buf, p, 8, 1))
    } else if m == 0xd4 {
        to_leaf(read_fixext(buf, p, 1))
    } else if m == 0xd5 {
        to_leaf(read_fixext(buf, p, 2))
    } else if m == 0xd6 {
        to_leaf(read_fixext(buf, p, 4))
    } else if m == 0xd7 {
        to_leaf(read_fixext(buf, p, 8))
    } else if m == 0xd8 {
        to_leaf(read_fixext(buf, p, 16))
    } else if m == 0xd9 {
        to_leaf(read_chunk_token(buf, p, 1, true))
    } else if m == 0xda {
        to_leaf(read_chunk_token(buf, p, 2, true))
    } else if m == 0xdb {
        to_leaf(read_chunk_token(buf, p, 4, true))
    } else if m == 0xdc {
        read_container(buf, p, 2, false)
    } else if m == 0xdd {
        read_container(buf, p, 4, false)
    } else if m == 0xde {
        read_container(buf, p, 2, true)
    } else if m == 0xdf {
        read_container(buf, p, 4, true)
    } else {
        Ok((Token::Int(m as i8 as i64), p, 0))
    }
}

/// The views of a sequence of tokens.
pub open spec fn token_views(v: Seq<Token>) -> Seq<TokenView> {
    v.map_values(|t: Token| t@)
}

/// Tokens already read, put in front of the result of reading the rest.
pub open spec fn after(prefix: Seq<TokenView>, rest: Result<(Seq<TokenView>, int), DecodeError>) -> Result<
    (Seq<TokenView>, int),
    DecodeError,
> {
    match rest {
        Ok((ts, e)) => Ok((prefix + ts, e)),
        Err(e) => Err(e),
    }
}

/// Reads the tokens of `pending` values starting at `pos`, and the position
/// after them.
pub fn read_values(buf: &[u8], pos: usize, pending: usize) -> (r: Result<(Vec<Token>, usize), DecodeError>)
    requires
        pos <= buf@.len(),
    ensures
        match tokens_from(buf@, pos as int, pending as nat) {
            Ok((ts, e)) => r matches Ok((v, end)) && token_views(v@) == ts && end == e,
            Err(err) => r == Err::<(Vec<Token>, usize), DecodeError>(err),
        },
{
    let mut out: Vec<Token> = Vec::new();
    let mut at = pos;
    let mut left = pending;
    while left > 0
        invariant
            at <= buf.len(),
            after(token_views(out@), tokens_from(buf@, at as int, left as nat)) == tokens_from(
                buf@,
                pos as int,
                pending as nat,
            ),
        decreases buf.len() - at,
    {
        if at >= buf.len() {
            return Err(DecodeError::EndOfBuffer);
        }
        proof {
            lemma_token_advances(buf@, at as int);
        }
        match read_token(buf, at) {
            Err(e) => {
                return Err(e);
            },
            Ok((t, next, children)) => {
                let avail = buf.len() - next;
                let keep = left - 1;
                if keep > avail || children > (avail - keep) as u64 {
                    return Err(DecodeError::EndOfBuffer);
                }
                let ghost old_out = token_views(out@);
                let ghost tv = t@;
                left = keep + children as usize;
                out.push(t);
                at = next;
                proof {
                    assert(token_views(out@) =~= old_out.push(tv));
                    match tokens_from(buf@, at as int, left as nat) {
                        Ok((ts, e)) => {
                            assert(old_out + (seq![tv] + ts) =~= old_out.push(tv) + ts);
                        },
                        Err(e) => {},
                    }
                }
            },
        }
    }
    proof {
        assert(token_views(out@) + Seq::<TokenView>::empty() =~= token_views(out@));
    }
    Ok((out, at))
}

/// Reads the first value in the data as its tokens.
pub fn from_slice(buf: &[u8]) -> (r: Result<Vec<Token>, DecodeError>)
    ensures
        match value_tokens(buf@) {
            Ok((ts, _)) => r matches Ok(v) && token_views(v@) == ts,
            Err(err) => r == Err::<Vec<Token>, DecodeError>(err),
        },
{
    match read_values(buf, 0, 1) {
        Ok((v, _)) => Ok(v),
        Err(e) => Err(e),
    }
}

/// The number of elements an array header at the start of the data
/// announces, and the length of the header.
pub open spec fn array_len_at(b: Seq<u8>) -> Result<(nat, int), DecodeError> {
    if b.len() == 0 {
        Err(DecodeError::EndOfBuffer)
    } else if 0x90 <= b[0] <= 0x9f {
        Ok(((b[0] - 0x90) as nat, 1))
    } else if b[0] == 0xdc {
        match number_at(b, 1, 2) {
            Some(n) => Ok((n, 3)),
            None => Err(DecodeError::EndOfBuffer),
        }
    } else if b[0] == 0xdd {
        match number_at(b, 1, 4) {
            Some(n) => Ok((n, 5)),
            None => Err(DecodeError::EndOfBuffer),
        }
    } else {
        Err(DecodeError::InvalidType)
    }
}

/// The number of entries a map header at the start of the data announces,
/// and the length of the header.
pub open spec fn map_len_at(b: Seq<u8>) -> Result<(nat, int), DecodeError> {
    if b.len() == 0 {
        Err(DecodeError::EndOfBuffer)
    } else if 0x80 <= b[0] <= 0x8f {
        Ok(((b[0] - 0x80) as nat, 1))
    } else if b[0] == 0xde {
        match number_at(b, 1, 2) {
            Some(n) => Ok((n, 3)),
            None => Err(DecodeError::EndOfBuffer),
        }
    } else if b[0] == 0xdf {
        match number_at(b, 1, 4) {
            Some(n) => Ok((n, 5)),
            None => Err(DecodeError::EndOfBuffer),
        }
    } else {
        Err(DecodeError::InvalidType)
    }
}

/// Reads the header of a map (`is_map`) or array at the start of the data:
/// the count and the header's length.
fn read_len(buf: &[u8], is_map: bool) -> (r: Result<(usize, usize), DecodeError>)
    ensures
        match (if is_map { map_len_at(buf@) } else { array_len_at(buf@) }) {
            Ok((n, h)) => r matches Ok((count, hl)) && count == n && hl == h,
            Err(err) => r == Err::<(usize, usize), DecodeError>(err),
        },
{
    if buf.len() == 0 {
        return Err(DecodeError::EndOfBuffer);
    }
    let m = buf[0];
    let (lo, hi, m16, m32): (u8, u8, u8, u8) = if is_map {
        (0x80, 0x8f, 0xde, 0xdf)
    } else {
        (0x90, 0x9f, 0xdc, 0xdd)
    };
    if lo <= m && m <= hi {
        Ok(((m - lo) as usize, 1))
    } else if m == m16 || m == m32 {
        let size: usize = if m == m16 { 2 } else { 4 };
        match read_number(buf, 1, size) {
            Some(n) => {
                proof {
                    lemma_be_bound(buf@.subrange(1, 1 + size));
                    lemma_pow256_values();
                }
                Ok((n as usize, 1 + size))
            },
            None => Err(DecodeError::EndOfBuffer),
        }
    } else {
        Err(DecodeError::InvalidType)
    }
}

/// Reads the header of an array at the start of the data: the number of
/// elements and the header's length. Data that starts with no array header
/// gives `InvalidType`.
pub fn read_array_len(buf: &[u8]) -> (r: Result<(usize, usize), DecodeError>)
    ensures
        match array_len_at(buf@) {
            Ok((n, h)) => r matches Ok((count, hl)) && count == n && hl == h,
            Err(err) => r == Err::<(usize, usize), DecodeError>(err),
        },
{
    read_len(buf, false)
}

/// Reads the header of a map at the start of the data: the number of
/// entries and the header's length. Data that starts with no map header
/// gives `InvalidType`.
pub fn read_map_len(buf: &[u8]) -> (r: Result<(usize, usize), DecodeError>)
    ensures
        match map_len_at(buf@) {
            Ok((n, h)) => r matches Ok((count, hl)) && count == n && hl == h,
            Err(err) => r == Err::<(usize, usize), DecodeError>(err),
        },
{
    read_len(buf, true)
}

/// Reads the header of the array that holds the value of a newtype enum
/// variant: it must hold exactly one element. Gives the header's length.
pub fn newtype_variant_header(buf: &[u8]) -> (r: Result<usize, DecodeError>)
    ensures
        match array_len_at(buf@) {
            Ok((n, h)) => if n == 1 {
                r == Ok::<usize, DecodeError>(h as usize)
            } else {
                r == Err::<usize, DecodeError>(DecodeError::InvalidNewTypeLength)
            },
            Err(e) => r == Err::<usize, DecodeError>(e),
        },
{
    let (len, header_len) = match read_array_len(buf) {
        Ok(x) => x,
        Err(e) => {
            return Err(e);
        },
    };
    if len == 1 {
        Ok(header_len)
    } else {
        Err(DecodeError::InvalidNewTypeLength)
    }
}

/// Reads the header of the array that holds a tuple enum variant of
/// `v_len` fields: it must hold exactly that many. Gives the count and the
/// header's length.
pub fn tuple_variant_header(buf: &[u8], v_len: usize) -> (r: Result<(usize, usize), DecodeError>)
    ensures
        match array_len_at(buf@) {
            Ok((n, h)) => if n == v_len {
                r matches Ok((count, hl)) && count == n && hl == h
            } else {
                r == Err::<(usize, usize), DecodeError>(DecodeError::OutOfBounds)
            },
            Err(e) => r == Err::<(usize, usize), DecodeError>(e),
        },
{
    let (len, header_len) = match read_array_len(buf) {
        Ok(x) => x,
        Err(e) => {
            return Err(e);
        },
    };
    if len != v_len {
        return Err(DecodeError::OutOfBounds);
    }
    Ok((len, header_len))
}

/// Reads the header of the map that holds a struct enum variant of
/// `n_fields` fields: it must hold exactly that many entries. Gives the
/// count and the header's length.
pub fn struct_variant_header(buf: &[u8], n_fields: usize) -> (r: Result<(usize, usize), DecodeError>)
    ensures
        match map_len_at(buf@) {
            Ok((n, h)) => if n == n_fields {
                r matches Ok((count, hl)) && count == n && hl == h
            } else {
                r == Err::<(usize, usize), DecodeError>(DecodeError::OutOfBounds)
            },
            Err(e) => r == Err::<(usize, usize), DecodeError>(e),
        },
{
    let (len, header_len) = match read_map_len(buf) {
        Ok(x) => x,
        Err(e) => {
            return Err(e);
        },
    };
    if len != n_fields {
        return Err(DecodeError::OutOfBounds);
    }
    Ok((len, header_len))
}

/// The big-endian number in one, two, four or eight bytes, written out.
proof fn lemma_be_written_out(s: Seq<u8>)
    ensures
        s.len() == 1 ==> be(s) == s[0] as nat,
        s.len() == 2 ==> be(s) == s[0] * 256 + s[1],
        s.len() == 4 ==> be(s) == ((s[0] * 256 + s[1]) * 256 + s[2]) * 256 + s[3],
        s.len() == 8 ==> be(s) == ((((((s[0] * 256 + s[1]) * 256 + s[2]) * 256 + s[3]) * 256
            + s[4]) * 256 + s[5]) * 256 + s[6]) * 256 + s[7],
{
    if s.len() == 1 || s.len() == 2 || s.len() == 4 || s.len() == 8 {
        assert(be(s.subrange(0, 0)) == 0);
        lemma_be_prefix(s, 1);
        lemma_be_prefix(s, 2);
        lemma_be_prefix(s, 3);
        lemma_be_prefix(s, 4);
        lemma_be_prefix(s, 5);
        lemma_be_prefix(s, 6);
        lemma_be_prefix(s, 7);
        lemma_be_prefix(s, 8);
        assert(s.subrange(0, s.len() as int) =~= s);
    }
}

/// The number in the first `k` bytes is that of the first `k - 1` bytes,
/// shifted, plus the `k`-th byte.
proof fn lemma_be_prefix(s: Seq<u8>, k: int)
    ensures
        1 <= k <= s.len() ==> be(s.subrange(0, k)) == be(s.subrange(0, k - 1)) * 256 + s[k - 1],
{
    if 1 <= k <= s.len() {
        assert(s.subrange(0, k).drop_last() =~= s.subrange(0, k - 1));
    }
}

/// Unsigned integers: a positive fixint is its own value, and uint 8, 16,
/// 32 and 64 are the big-endian number in the one, two, four or eight
/// bytes after the marker, as long as those bytes are there; otherwise the
/// data ends too early.
pub proof fn law_unsigned_tokens(b: Seq<u8>, pos: int)
    requires
        0 <= pos < b.len(),
    ensures
        b[pos] <= 0x7f ==> token_at(b, pos) == Ok::<(TokenView, int, nat), DecodeError>(
            (TokenView::UInt(b[pos] as u64), pos + 1, 0),
        ),
        b[pos] == 0xcc && pos + 1 < b.len() ==> token_at(b, pos) == Ok::<(TokenView, int, nat), DecodeError>(
            (TokenView::UInt(b[pos + 1] as u64), pos + 2, 0),
        ),
        b[pos] == 0xcd && pos + 2 < b.len() ==> token_at(b, pos) == Ok::<(TokenView, int, nat), DecodeError>(
            (TokenView::UInt((b[pos + 1] * 256 + b[pos + 2]) as u64), pos + 3, 0),
        ),
        b[pos] == 0xce && pos + 4 < b.len() ==> token_at(b, pos) == Ok::<(TokenView, int, nat), DecodeError>(
            (
                TokenView::UInt(
                    (((b[pos + 1] * 256 + b[pos + 2]) * 256 + b[pos + 3]) * 256 + b[pos + 4]) as u64,
                ),
                pos + 5,
                0,
            ),
        ),
        b[pos] == 0xcf && pos + 8 < b.len() ==> token_at(b, pos) == Ok::<(TokenView, int, nat), DecodeError>(
            (
                TokenView::UInt(
                    (((((((b[pos + 1] * 256 + b[pos + 2]) * 256 + b[pos + 3]) * 256 + b[pos + 4])
                        * 256 + b[pos + 5]) * 256 + b[pos + 6]) * 256 + b[pos + 7]) * 256 + b[pos
                        + 8]) as u64,
                ),
                pos + 9,
                0,
            ),
        ),
        (b[pos] == 0xcc && pos + 1 >= b.len()) || (b[pos] == 0xcd && pos + 2 >= b.len()) || (b[pos]
            == 0xce && pos + 4 >= b.len()) || (b[pos] == 0xcf && pos + 8 >= b.len())
            ==> token_at(b, pos) == Err::<(TokenView, int, nat), DecodeError>(
            DecodeError::EndOfBuffer,
        ),
{
    let p = pos + 1;
    if b[pos] == 0xcc || b[pos] == 0xcd || b[pos] == 0xce || b[pos] == 0xcf {
        let n: int = if b[pos] == 0xcc { 1 } else if b[pos] == 0xcd { 2 } else if b[pos] == 0xce { 4 } else { 8 };
        if p + n <= b.len() {
            let s = b.subrange(p, p + n);
            lemma_be_written_out(s);
            assert(s[0] == b[p]);
            assert(n >= 2 ==> s[1] == b[p + 1]);
            assert(n >= 4 ==> s[2] == b[p + 2] && s[3] == b[p + 3]);
            assert(n >= 8 ==> s[4] == b[p + 4] && s[5] == b[p + 5] && s[6] == b[p + 6] && s[7]
                == b[p + 7]);
        }
    }
}

/// Two's complement: a byte is the signed number it stands for.
proof fn lemma_signed_8(x: u8)
    ensures
        (x as i8) as int == (if x >= 128u8 { x - 256 } else { x as int }),
{
    assert((x as i8) as i64 == (if x >= 128u8 { ((x as i64) - 256i64) as i64 } else { x as i64 }))
        by (bit_vector);
}

/// Two's complement in two bytes.
proof fn lemma_signed_16(x: u16)
    ensures
        (x as i16) as int == (if x >= 0x8000u16 { x - 0x1_0000 } else { x as int }),
{
    assert((x as i16) as i64 == (if x >= 0x8000u16 {
        ((x as i64) - 0x1_0000i64) as i64
    } else {
        x as i64
    })) by (bit_vector);
}

/// Two's complement in four bytes.
proof fn lemma_signed_32(x: u32)
    ensures
        (x as i32) as int == (if x >= 0x8000_0000u32 { x - 0x1_0000_0000 } else { x as int }),
{
    assert((x as i32) as i64 == (if x >= 0x8000_0000u32 {
        ((x as i64) - 0x1_0000_0000i64) as i64
    } else {
        x as i64
    })) by (bit_vector);
}

/// Signed integers: a negative fixint (0xe0 to 0xff) and int 8 and int 16
/// stand for the two's complement value of their bytes, the marker byte
/// itself for a negative fixint.
pub proof fn law_signed_tokens(b: Seq<u8>, pos: int)
    requires
        0 <= pos < b.len(),
    ensures
        b[pos] >= 0xe0 ==> token_at(b, pos) == Ok::<(TokenView, int, nat), DecodeError>(
            (TokenView::Int((b[pos] - 256) as i64), pos + 1, 0),
        ),
        b[pos] == 0xd0 && pos + 1 < b.len() ==> token_at(b, pos) == Ok::<(TokenView, int, nat), DecodeError>(
            (
                TokenView::Int(
                    (if b[pos + 1] >= 128 { b[pos + 1] - 256 } else { b[pos + 1] as int }) as i64,
                ),
                pos + 2,
                0,
            ),
        ),
        b[pos] == 0xd1 && pos + 2 < b.len() ==> token_at(b, pos) == Ok::<(TokenView, int, nat), DecodeError>(
            (
                TokenView::Int(
                    (if b[pos + 1] >= 128 {
                        b[pos + 1] * 256 + b[pos + 2] - 0x1_0000
                    } else {
                        b[pos + 1] * 256 + b[pos + 2]
                    }) as i64,
                ),
                pos + 3,
                0,
            ),
        ),
        b[pos] == 0xd2 && pos + 4 < b.len() ==> token_at(b, pos) == Ok::<(TokenView, int, nat), DecodeError>(
            (
                TokenView::Int(
                    (if b[pos + 1] >= 128 {
                        ((b[pos + 1] * 256 + b[pos + 2]) * 256 + b[pos + 3]) * 256 + b[pos + 4]
                            - 0x1_0000_0000
                    } else {
                        ((b[pos + 1] * 256 + b[pos + 2]) * 256 + b[pos + 3]) * 256 + b[pos + 4]
                    }) as i64,
                ),
                pos + 5,
                0,
            ),
        ),
{
    let p = pos + 1;
    let m = b[pos];
    if m >= 0xe0 {
        lemma_signed_8(m);
    }
    if m == 0xd0 || m == 0xd1 || m == 0xd2 {
        let n: int = if m == 0xd0 { 1 } else if m == 0xd1 { 2 } else { 4 };
        if p + n <= b.len() {
            let s = b.subrange(p, p + n);
            lemma_be_written_out(s);
            assert(s[0] == b[p]);
            assert(n >= 2 ==> s[1] == b[p + 1]);
            assert(n >= 4 ==> s[2] == b[p + 2] && s[3] == b[p + 3]);
            let v = be(s);
            if n == 1 {
                lemma_signed_8(v as u8);
            } else if n == 2 {
                assert(v < 0x1_0000) by (nonlinear_arith)
                    requires v == s[0] * 256 + s[1], s[0] < 256, s[1] < 256;
                assert(v >= 0x8000 <==> s[0] >= 128) by (nonlinear_arith)
                    requires v == s[0] * 256 + s[1], s[0] < 256, s[1] < 256;
                lemma_signed_16(v as u16);
            } else {
                let w = (s[0] * 256 + s[1]) * 256 + s[2];
                assert(w < 0x100_0000 && (w >= 0x80_0000 <==> s[0] >= 128)) by (nonlinear_arith)
                    requires w == (s[0] * 256 + s[1]) * 256 + s[2], s[0] < 256, s[1] < 256, s[2] < 256;
                assert(v < 0x1_0000_0000 && (v >= 0x8000_0000 <==> s[0] >= 128)) by (nonlinear_arith)
                    requires v == w * 256 + s[3], w < 0x100_0000, (w >= 0x80_0000 <==> s[0] >= 128), s[3] < 256;
                lemma_signed_32(v as u32);
            }
        }
    }
}

/// The markers that stand alone: nil, false and true, and the marker 0xc1,
/// which MessagePack never uses.
pub proof fn law_simple_tokens(b: Seq<u8>, pos: int)
    requires
        0 <= pos < b.len(),
    ensures
        b[pos] == 0xc0 ==> token_at(b, pos) == Ok::<(TokenView, int, nat), DecodeError>(
            (TokenView::Nil, pos + 1, 0),
        ),
        b[pos] == 0xc2 ==> token_at(b, pos) == Ok::<(TokenView, int, nat), DecodeError>(
            (TokenView::Bool(false), pos + 1, 0),
        ),
        b[pos] == 0xc3 ==> token_at(b, pos) == Ok::<(TokenView, int, nat), DecodeError>(
            (TokenView::Bool(true), pos + 1, 0),
        ),
        b[pos] == 0xc1 ==> token_at(b, pos) == Err::<(TokenView, int, nat), DecodeError>(
            DecodeError::ReservedMarker,
        ),
{
}

/// A uint 8 on its own is the value it holds: the data `[0xcc, x]` reads as
/// exactly the token `UInt(x)`, for every byte `x`.
pub proof fn law_uint8_value(x: u8)
    ensures
        value_tokens(seq![0xccu8, x]) == Ok::<(Seq<TokenView>, int), DecodeError>(
            (seq![TokenView::UInt(x as u64)], 2),
        ),
{
    let b = seq![0xccu8, x];
    law_unsigned_tokens(b, 0);
    assert(tokens_from(b, 2, 0) == Ok::<(Seq<TokenView>, int), DecodeError>((Seq::empty(), 2)));
    assert(seq![TokenView::UInt(x as u64)] + Seq::<TokenView>::empty() =~= seq![TokenView::UInt(x as u64)]);
}

/// Strings, binary data and containers: a fixstr holds the next
/// `marker - 0xa0` bytes, a str 8 and a bin 8 the number of bytes their
/// length byte gives; a fixarray announces `marker - 0x90` elements and a
/// fixmap `marker - 0x80` entries (twice as many tokens), an array 16 and a
/// map 16 the big-endian count in their two bytes.
pub proof fn law_text_and_container_tokens(b: Seq<u8>, pos: int)
    requires
        0 <= pos < b.len(),
    ensures
        0xa0 <= b[pos] <= 0xbf && pos + 1 + (b[pos] - 0xa0) <= b.len() ==> token_at(b, pos) == Ok::<
            (TokenView, int, nat),
            DecodeError,
        >(
            (
                TokenView::Str(b.subrange(pos + 1, pos + 1 + (b[pos] - 0xa0))),
                pos + 1 + (b[pos] - 0xa0),
                0,
            ),
        ),
        b[pos] == 0xd9 && pos + 1 < b.len() && pos + 2 + b[pos + 1] <= b.len() ==> token_at(b, pos)
            == Ok::<(TokenView, int, nat), DecodeError>(
            (
                TokenView::Str(b.subrange(pos + 2, pos + 2 + b[pos + 1])),
                pos + 2 + b[pos + 1],
                0,
            ),
        ),
        b[pos] == 0xc4 && pos + 1 < b.len() && pos + 2 + b[pos + 1] <= b.len() ==> token_at(b, pos)
            == Ok::<(TokenView, int, nat), DecodeError>(
            (
                TokenView::Bin(b.subrange(pos + 2, pos + 2 + b[pos + 1])),
                pos + 2 + b[pos + 1],
                0,
            ),
        ),
        0x90 <= b[pos] <= 0x9f ==> token_at(b, pos) == Ok::<(TokenView, int, nat), DecodeError>(
            (TokenView::ArrayHeader((b[pos] - 0x90) as u32), pos + 1, (b[pos] - 0x90) as nat),
        ),
        0x80 <= b[pos] <= 0x8f ==> token_at(b, pos) == Ok::<(TokenView, int, nat), DecodeError>(
            (TokenView::MapHeader((b[pos] - 0x80) as u32), pos + 1, (2 * (b[pos] - 0x80)) as nat),
        ),
        b[pos] == 0xdc && pos + 2 < b.len() ==> token_at(b, pos) == Ok::<(TokenView, int, nat), DecodeError>(
            (
                TokenView::ArrayHeader((b[pos + 1] * 256 + b[pos + 2]) as u32),
                pos + 3,
                (b[pos + 1] * 256 + b[pos + 2]) as nat,
            ),
        ),
        b[pos] == 0xde && pos + 2 < b.len() ==> token_at(b, pos) == Ok::<(TokenView, int, nat), DecodeError>(
            (
                TokenView::MapHeader((b[pos + 1] * 256 + b[pos + 2]) as u32),
                pos + 3,
                (2 * (b[pos + 1] * 256 + b[pos + 2])) as nat,
            ),
        ),
{
    let p = pos + 1;
    if p + 2 <= b.len() {
        let s = b.subrange(p, p + 2);
        lemma_be_written_out(s);
        assert(s[0] == b[p] && s[1] == b[p + 1]);
    }
    if p + 1 <= b.len() {
        let s = b.subrange(p, p + 1);
        lemma_be_written_out(s);
        assert(s[0] == b[p]);
    }
}

} // verus!

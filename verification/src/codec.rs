//! Byte-level building blocks of the binary encoding.
//!
//! Integers that stand for a length or a variant index are written as a
//! variable-length integer: a value up to 250 is one byte; a larger one is a
//! marker byte (251, 252 or 253) followed by the value in 2, 4 or 8 bytes,
//! little-endian. Byte strings are a length followed by the bytes, and text
//! is its UTF-8 bytes written as a byte string.
//!
//! Every item has a `spec_*` function that gives its bytes, a `parse_*`
//! function that reads it back from the front of a sequence, and a lemma that
//! the second undoes the first whatever follows the item.

use vstd::prelude::*;
use vstd::slice::slice_subrange;
use vstd::slice::slice_to_vec;
use vstd::utf8::decode_utf8;
use vstd::utf8::encode_utf8;
use vstd::utf8::encode_utf8_decode_utf8;
use vstd::utf8::encode_utf8_valid_utf8;
use vstd::utf8::valid_utf8;

verus! {

/// Why a sequence of bytes is not the encoding of a value.
#[derive(Clone, Copy, Debug, PartialEq, Eq, Structural)]
pub enum DecodeError {
    /// The bytes end before the value does.
    UnexpectedEnd,
    /// A variable-length integer starts with a marker that is not in use, or
    /// with one for a wider integer than the place allows.
    InvalidInteger,
    /// A length does not fit in this machine's `usize`.
    LengthOverflow,
    /// A text is not valid UTF-8.
    InvalidUtf8,
    /// A variant index names no variant.
    UnexpectedVariant,
    /// A boolean is neither 0 nor 1.
    InvalidBoolean,
}

/// The text that describes `error` to a client.
pub open spec fn spec_decode_message(error: DecodeError) -> Seq<char> {
    match error {
        DecodeError::UnexpectedEnd => "Unable to decode the request: unexpected end"@,
        DecodeError::InvalidInteger => "Unable to decode the request: invalid integer"@,
        DecodeError::LengthOverflow => "Unable to decode the request: length out of range"@,
        DecodeError::InvalidUtf8 => "Unable to decode the request: invalid UTF-8"@,
        DecodeError::UnexpectedVariant => "Unable to decode the request: unexpected variant"@,
        DecodeError::InvalidBoolean => "Unable to decode the request: invalid boolean"@,
    }
}

impl DecodeError {
    /// The text that describes this error to a client.
    pub fn message(&self) -> (text: String)
        ensures
            text@ == spec_decode_message(*self),
    {
        match self {
            DecodeError::UnexpectedEnd => "Unable to decode the request: unexpected end".to_owned(),
            DecodeError::InvalidInteger => "Unable to decode the request: invalid integer".to_owned(),
            DecodeError::LengthOverflow => "Unable to decode the request: length out of range".to_owned(),
            DecodeError::InvalidUtf8 => "Unable to decode the request: invalid UTF-8".to_owned(),
            DecodeError::UnexpectedVariant => "Unable to decode the request: unexpected variant".to_owned(),
            DecodeError::InvalidBoolean => "Unable to decode the request: invalid boolean".to_owned(),
        }
    }
}

/// The largest value that a variable-length integer holds in its first byte.
pub const SINGLE_BYTE_MAX: u8 = 250;

/// Marker of a variable-length integer held in the next 2 bytes.
pub const U16_MARKER: u8 = 251;

/// Marker of a variable-length integer held in the next 4 bytes.
pub const U32_MARKER: u8 = 252;

/// Marker of a variable-length integer held in the next 8 bytes.
pub const U64_MARKER: u8 = 253;

/// What is left of `bytes` from the position `pos` on: nothing where `pos`
/// lies behind the end.
pub open spec fn rest_at(bytes: Seq<u8>, pos: usize) -> Seq<u8> {
    if pos <= bytes.len() {
        bytes.skip(pos as int)
    } else {
        Seq::empty()
    }
}

/// The 2 little-endian bytes of `n`.
pub open spec fn spec_le2(n: u64) -> Seq<u8> {
    seq![(n % 256) as u8, (n / 256 % 256) as u8]
}

/// The 4 little-endian bytes of `n`.
pub open spec fn spec_le4(n: u64) -> Seq<u8> {
    seq![
        (n % 256) as u8,
        (n / 256 % 256) as u8,
        (n / 65536 % 256) as u8,
        (n / 16777216 % 256) as u8,
    ]
}

/// The 8 little-endian bytes of `n`.
pub open spec fn spec_le8(n: u64) -> Seq<u8> {
    seq![
        (n % 256) as u8,
        (n / 256 % 256) as u8,
        (n / 65536 % 256) as u8,
        (n / 16777216 % 256) as u8,
        (n / 4294967296 % 256) as u8,
        (n / 1099511627776 % 256) as u8,
        (n / 281474976710656 % 256) as u8,
        (n / 72057594037927936 % 256) as u8,
    ]
}

/// The number that the first 2 bytes of `s` hold, little-endian.
pub open spec fn le2_value(s: Seq<u8>) -> u64 {
    (s[0] as int + 256 * (s[1] as int)) as u64
}

/// The number that the first 4 bytes of `s` hold, little-endian.
pub open spec fn le4_value(s: Seq<u8>) -> u64 {
    (s[0] as int + 256 * (s[1] as int) + 65536 * (s[2] as int) + 16777216 * (s[3] as int)) as u64
}

/// The number that the first 8 bytes of `s` hold, little-endian.
pub open spec fn le8_value(s: Seq<u8>) -> u64 {
    (s[0] as int + 256 * (s[1] as int) + 65536 * (s[2] as int) + 16777216 * (s[3] as int)
        + 4294967296 * (s[4] as int) + 1099511627776 * (s[5] as int) + 281474976710656 * (
    s[6] as int) + 72057594037927936 * (s[7] as int)) as u64
}

/// The bytes of `n` as a variable-length integer: the shortest of the four
/// forms that holds it.
pub open spec fn spec_varint(n: u64) -> Seq<u8> {
    if n <= SINGLE_BYTE_MAX {
        seq![n as u8]
    } else if n <= 0xffff {
        seq![U16_MARKER] + spec_le2(n)
    } else if n <= 0xffff_ffff {
        seq![U32_MARKER] + spec_le4(n)
    } else {
        seq![U64_MARKER] + spec_le8(n)
    }
}

/// Reads a variable-length integer from the front of `s`: the value and the
/// number of bytes it took. Any of the four forms is read, also one that is
/// longer than the value needs.
pub open spec fn parse_varint(s: Seq<u8>) -> Result<(u64, int), DecodeError> {
    if s.len() == 0 {
        Err(DecodeError::UnexpectedEnd)
    } else if s[0] <= SINGLE_BYTE_MAX {
        Ok((s[0] as u64, 1))
    } else if s[0] == U16_MARKER {
        if s.len() < 3 {
            Err(DecodeError::UnexpectedEnd)
        } else {
            Ok((le2_value(s.subrange(1, 3)), 3))
        }
    } else if s[0] == U32_MARKER {
        if s.len() < 5 {
            Err(DecodeError::UnexpectedEnd)
        } else {
            Ok((le4_value(s.subrange(1, 5)), 5))
        }
    } else if s[0] == U64_MARKER {
        if s.len() < 9 {
            Err(DecodeError::UnexpectedEnd)
        } else {
            Ok((le8_value(s.subrange(1, 9)), 9))
        }
    } else {
        Err(DecodeError::InvalidInteger)
    }
}

/// Reads a variant index from the front of `s`: a variable-length integer of
/// at most 32 bits.
pub open spec fn parse_variant(s: Seq<u8>) -> Result<(u64, int), DecodeError> {
    if s.len() > 0 && s[0] == U64_MARKER {
        Err(DecodeError::InvalidInteger)
    } else {
        parse_varint(s)
    }
}

/// The bytes of a byte string: its length, then the bytes.
pub open spec fn spec_bytes(b: Seq<u8>) -> Seq<u8> {
    spec_varint(b.len() as u64) + b
}

/// Reads a byte string from the front of `s`: the bytes and how many bytes
/// were taken in all.
pub open spec fn parse_bytes(s: Seq<u8>) -> Result<(Seq<u8>, int), DecodeError> {
    match parse_varint(s) {
        Err(e) => Err(e),
        Ok((len, used)) => if len > usize::MAX {
            Err(DecodeError::LengthOverflow)
        } else if s.len() - used < len {
            Err(DecodeError::UnexpectedEnd)
        } else {
            Ok((s.subrange(used, used + len), used + len))
        },
    }
}

/// The bytes of a text: its UTF-8 bytes as a byte string.
#[verifier::opaque]
pub open spec fn spec_text(t: Seq<char>) -> Seq<u8> {
    spec_bytes(encode_utf8(t))
}

/// Reads a text from the front of `s`.
#[verifier::opaque]
pub open spec fn parse_text(s: Seq<u8>) -> Result<(Seq<char>, int), DecodeError> {
    match parse_bytes(s) {
        Err(e) => Err(e),
        Ok((b, used)) => if valid_utf8(b) {
            Ok((decode_utf8(b), used))
        } else {
            Err(DecodeError::InvalidUtf8)
        },
    }
}

/// Reads one byte from the front of `s`.
pub open spec fn parse_u8(s: Seq<u8>) -> Result<(u8, int), DecodeError> {
    if s.len() == 0 {
        Err(DecodeError::UnexpectedEnd)
    } else {
        Ok((s[0], 1))
    }
}

/// The byte of a boolean: 1 for `true`, 0 for `false`.
pub open spec fn spec_bool(b: bool) -> Seq<u8> {
    seq![if b { 1u8 } else { 0u8 }]
}

/// Reads a boolean from the front of `s`.
pub open spec fn parse_bool(s: Seq<u8>) -> Result<(bool, int), DecodeError> {
    if s.len() == 0 {
        Err(DecodeError::UnexpectedEnd)
    } else if s[0] == 0 {
        Ok((false, 1))
    } else if s[0] == 1 {
        Ok((true, 1))
    } else {
        Err(DecodeError::InvalidBoolean)
    }
}

/// A text whose UTF-8 bytes can be counted in a `usize`, as those of every
/// `String` can.
pub open spec fn text_fits(t: Seq<char>) -> bool {
    encode_utf8(t).len() <= usize::MAX
}

/// The 2 little-endian bytes of a number below 2^16 hold that number.
pub proof fn lemma_le2_roundtrip(n: u64)
    requires
        n <= 0xffff,
    ensures
        le2_value(spec_le2(n)) == n,
{
}

/// The 4 little-endian bytes of a number below 2^32 hold that number.
pub proof fn lemma_le4_roundtrip(n: u64)
    requires
        n <= 0xffff_ffff,
    ensures
        le4_value(spec_le4(n)) == n,
{
    let q1 = n as int / 256;
    let q2 = q1 / 256;
    let q3 = q2 / 256;
    assert(n as int / 65536 == q2);
    assert(n as int / 16777216 == q3);
    assert(q3 < 256);
}

/// The 8 little-endian bytes of a number hold that number.
pub proof fn lemma_le8_roundtrip(n: u64)
    ensures
        le8_value(spec_le8(n)) == n,
{
    let q1 = n as int / 256;
    let q2 = q1 / 256;
    let q3 = q2 / 256;
    let q4 = q3 / 256;
    let q5 = q4 / 256;
    let q6 = q5 / 256;
    let q7 = q6 / 256;
    assert(n as int / 65536 == q2);
    assert(n as int / 16777216 == q3);
    assert(n as int / 4294967296 == q4);
    assert(n as int / 1099511627776 == q5);
    assert(n as int / 281474976710656 == q6);
    assert(n as int / 72057594037927936 == q7);
    assert(q7 < 256);
    assert(n as int == n as int % 256 + 256 * (q1 % 256) + 65536 * (q2 % 256) + 16777216 * (q3
        % 256) + 4294967296 * (q4 % 256) + 1099511627776 * (q5 % 256) + 281474976710656 * (q6
        % 256) + 72057594037927936 * q7);
}

/// Reading a variable-length integer gives back the value written, whatever
/// follows it.
pub proof fn lemma_varint_roundtrip(n: u64, rest: Seq<u8>)
    ensures
        parse_varint(spec_varint(n) + rest) == Ok::<(u64, int), DecodeError>(
            (n, spec_varint(n).len() as int),
        ),
        1 <= spec_varint(n).len() <= 9,
{
    if SINGLE_BYTE_MAX < n <= 0xffff {
        lemma_le2_roundtrip(n);
    } else if 0xffff < n <= 0xffff_ffff {
        lemma_le4_roundtrip(n);
    } else if n > 0xffff_ffff {
        lemma_le8_roundtrip(n);
    }
}

/// A value below 251 read as a variant index is itself, from one byte.
pub proof fn lemma_variant_roundtrip(n: u64, rest: Seq<u8>)
    requires
        n <= SINGLE_BYTE_MAX,
    ensures
        parse_variant(spec_varint(n) + rest) == Ok::<(u64, int), DecodeError>((n, 1)),
        spec_varint(n).len() == 1,
{
}

/// Reading a byte string gives back the bytes written, whatever follows them.
pub proof fn lemma_bytes_roundtrip(b: Seq<u8>, rest: Seq<u8>)
    requires
        b.len() <= usize::MAX,
    ensures
        parse_bytes(spec_bytes(b) + rest) == Ok::<(Seq<u8>, int), DecodeError>(
            (b, spec_bytes(b).len() as int),
        ),
{
    let n = b.len() as u64;
    let s = spec_bytes(b) + rest;
    let used = spec_varint(n).len() as int;
    lemma_varint_roundtrip(n, b + rest);
    assert(s =~= spec_varint(n) + (b + rest));
    assert(s.subrange(used, used + n) =~= b);
}

/// Reading a text gives back the text written, whatever follows it.
pub proof fn lemma_text_roundtrip(t: Seq<char>, rest: Seq<u8>)
    requires
        text_fits(t),
    ensures
        parse_text(spec_text(t) + rest) == Ok::<(Seq<char>, int), DecodeError>(
            (t, spec_text(t).len() as int),
        ),
{
    reveal(spec_text);
    reveal(parse_text);
    lemma_bytes_roundtrip(encode_utf8(t), rest);
    encode_utf8_valid_utf8(t);
    encode_utf8_decode_utf8(t);
}

/// Reading a boolean gives back the boolean written, whatever follows it.
pub proof fn lemma_bool_roundtrip(b: bool, rest: Seq<u8>)
    ensures
        parse_bool(spec_bool(b) + rest) == Ok::<(bool, int), DecodeError>((b, 1)),
{
}

/// Appends `n` as a variable-length integer.
pub fn encode_varint(n: u64, out: &mut Vec<u8>)
    ensures
        final(out)@ == old(out)@ + spec_varint(n),
{
    if n <= 250 {
        out.push(n as u8);
    } else if n <= 0xffff {
        out.push(U16_MARKER);
        out.push((n % 256) as u8);
        out.push((n / 256 % 256) as u8);
    } else if n <= 0xffff_ffff {
        out.push(U32_MARKER);
        out.push((n % 256) as u8);
        out.push((n / 256 % 256) as u8);
        out.push((n / 65536 % 256) as u8);
        out.push((n / 16777216 % 256) as u8);
    } else {
        out.push(U64_MARKER);
        out.push((n % 256) as u8);
        out.push((n / 256 % 256) as u8);
        out.push((n / 65536 % 256) as u8);
        out.push((n / 16777216 % 256) as u8);
        out.push((n / 4294967296 % 256) as u8);
        out.push((n / 1099511627776 % 256) as u8);
        out.push((n / 281474976710656 % 256) as u8);
        out.push((n / 72057594037927936 % 256) as u8);
    }
}

/// Reads a variable-length integer at `pos`: the value and the position
/// behind it.
pub fn decode_varint(bytes: &[u8], pos: usize) -> (r: Result<(u64, usize), DecodeError>)
    ensures
        match parse_varint(rest_at(bytes@, pos)) {
            Ok((v, used)) => r matches Ok((x, next)) && x == v && next == pos + used && pos
                < next <= bytes@.len(),
            Err(e) => r matches Err(f) && f == e,
        },
{
    let ghost s = bytes@.skip(pos as int);
    let len: usize = bytes.len();
    if pos >= len {
        return Err(DecodeError::UnexpectedEnd);
    }
    let rest: usize = len - pos;
    let first: u8 = bytes[pos];
    assert(s[0] == first);
    if first <= SINGLE_BYTE_MAX {
        Ok((first as u64, pos + 1))
    } else if first == U16_MARKER {
        if rest < 3 {
            return Err(DecodeError::UnexpectedEnd);
        }
        assert(s.subrange(1, 3)[0] == bytes@[pos + 1] && s.subrange(1, 3)[1] == bytes@[pos + 2]);
        let value: u64 = bytes[pos + 1] as u64 + 256 * (bytes[pos + 2] as u64);
        Ok((value, pos + 3))
    } else if first == U32_MARKER {
        if rest < 5 {
            return Err(DecodeError::UnexpectedEnd);
        }
        let ghost w = s.subrange(1, 5);
        assert(w[0] == bytes@[pos + 1] && w[1] == bytes@[pos + 2] && w[2] == bytes@[pos + 3]
            && w[3] == bytes@[pos + 4]);
        let value: u64 = bytes[pos + 1] as u64 + 256 * (bytes[pos + 2] as u64) + 65536 * (
        bytes[pos + 3] as u64) + 16777216 * (bytes[pos + 4] as u64);
        Ok((value, pos + 5))
    } else if first == U64_MARKER {
        if rest < 9 {
            return Err(DecodeError::UnexpectedEnd);
        }
        let ghost w = s.subrange(1, 9);
        assert(w[0] == bytes@[pos + 1] && w[1] == bytes@[pos + 2] && w[2] == bytes@[pos + 3]
            && w[3] == bytes@[pos + 4] && w[4] == bytes@[pos + 5] && w[5] == bytes@[pos + 6]
            && w[6] == bytes@[pos + 7] && w[7] == bytes@[pos + 8]);
        let value: u64 = bytes[pos + 1] as u64 + 256 * (bytes[pos + 2] as u64) + 65536 * (
        bytes[pos + 3] as u64) + 16777216 * (bytes[pos + 4] as u64) + 4294967296 * (bytes[pos
            + 5] as u64) + 1099511627776 * (bytes[pos + 6] as u64) + 281474976710656 * (bytes[pos
            + 7] as u64) + 72057594037927936 * (bytes[pos + 8] as u64);
        Ok((value, pos + 9))
    } else {
        Err(DecodeError::InvalidInteger)
    }
}

/// Reads a variant index at `pos`: the index and the position behind it.
pub fn decode_variant(bytes: &[u8], pos: usize) -> (r: Result<(u64, usize), DecodeError>)
    ensures
        match parse_variant(rest_at(bytes@, pos)) {
            Ok((v, used)) => r matches Ok((x, next)) && x == v && next == pos + used && pos
                < next <= bytes@.len(),
            Err(e) => r matches Err(f) && f == e,
        },
{
    if pos < bytes.len() && bytes[pos] == U64_MARKER {
        return Err(DecodeError::InvalidInteger);
    }
    decode_varint(bytes, pos)
}

/// Appends `b` as a byte string.
pub fn encode_bytes(b: &[u8], out: &mut Vec<u8>)
    ensures
        final(out)@ == old(out)@ + spec_bytes(b@),
{
    encode_varint(b.len() as u64, out);
    out.extend_from_slice(b);
}

/// Reads a byte string at `pos`: the bytes and the position behind them.
pub fn decode_bytes(bytes: &[u8], pos: usize) -> (r: Result<(Vec<u8>, usize), DecodeError>)
    ensures
        match parse_bytes(rest_at(bytes@, pos)) {
            Ok((b, used)) => r matches Ok((v, next)) && v@ == b && next == pos + used && pos
                < next <= bytes@.len(),
            Err(e) => r matches Err(f) && f == e,
        },
{
    let (len, start): (u64, usize) = match decode_varint(bytes, pos) {
        Ok(pair) => pair,
        Err(e) => {
            return Err(e);
        },
    };
    if len > usize::MAX as u64 {
        return Err(DecodeError::LengthOverflow);
    }
    let count: usize = len as usize;
    if bytes.len() - start < count {
        return Err(DecodeError::UnexpectedEnd);
    }
    let body = slice_to_vec(slice_subrange(bytes, start, start + count));
    Ok((body, start + count))
}

/// Appends `t` as a text.
pub fn encode_text(t: &str, out: &mut Vec<u8>)
    ensures
        final(out)@ == old(out)@ + spec_text(t@),
        text_fits(t@),
{
    let b = t.as_bytes();
    let count: usize = b.len();
    proof {
        reveal(spec_text);
        assert(encode_utf8(t@).len() == count);
    }
    encode_bytes(b, out);
}

/// `String::from_utf8`: the text that `bytes` hold as UTF-8, and nothing if
/// they are not valid UTF-8.
#[verifier::external_body]
pub(crate) fn text_from_utf8(bytes: Vec<u8>) -> (r: Option<String>)
    ensures
        r is Some <==> valid_utf8(bytes@),
        r matches Some(t) ==> t@ == decode_utf8(bytes@),
{
    String::from_utf8(bytes).ok()
}

/// Reads a text at `pos`: the text and the position behind it.
pub fn decode_text(bytes: &[u8], pos: usize) -> (r: Result<(String, usize), DecodeError>)
    ensures
        match parse_text(rest_at(bytes@, pos)) {
            Ok((t, used)) => r matches Ok((v, next)) && v@ == t && next == pos + used && pos
                < next <= bytes@.len(),
            Err(e) => r matches Err(f) && f == e,
        },
{
    proof {
        reveal(parse_text);
    }
    let (body, next): (Vec<u8>, usize) = match decode_bytes(bytes, pos) {
        Ok(pair) => pair,
        Err(e) => {
            return Err(e);
        },
    };
    match text_from_utf8(body) {
        Some(t) => Ok((t, next)),
        None => Err(DecodeError::InvalidUtf8),
    }
}

/// Reads one byte at `pos`: the byte and the position behind it.
pub fn decode_u8(bytes: &[u8], pos: usize) -> (r: Result<(u8, usize), DecodeError>)
    ensures
        match parse_u8(rest_at(bytes@, pos)) {
            Ok((v, used)) => r matches Ok((x, next)) && x == v && next == pos + used && pos
                < next <= bytes@.len(),
            Err(e) => r matches Err(f) && f == e,
        },
{
    if pos >= bytes.len() {
        return Err(DecodeError::UnexpectedEnd);
    }
    Ok((bytes[pos], pos + 1))
}

/// Reads a boolean at `pos`: the boolean and the position behind it.
pub fn decode_bool(bytes: &[u8], pos: usize) -> (r: Result<(bool, usize), DecodeError>)
    ensures
        match parse_bool(rest_at(bytes@, pos)) {
            Ok((v, used)) => r matches Ok((x, next)) && x == v && next == pos + used && pos
                < next <= bytes@.len(),
            Err(e) => r matches Err(f) && f == e,
        },
{
    if pos >= bytes.len() {
        return Err(DecodeError::UnexpectedEnd);
    }
    let b: u8 = bytes[pos];
    if b == 0 {
        Ok((false, pos + 1))
    } else if b == 1 {
        Ok((true, pos + 1))
    } else {
        Err(DecodeError::InvalidBoolean)
    }
}

} // verus!

//! The typed codec for the configuration store's tagged binary value format.
//!
//! A stored value is a pair of a numeric type tag and a byte payload. Text
//! payloads are sequences of 16-bit code units, two little-endian bytes per
//! unit; integer payloads are fixed-width little- or big-endian integers; the
//! remaining kinds are opaque byte strings that the codec passes through
//! unchanged.

use vstd::arithmetic::div_mod::{lemma_div_denominator, lemma_fundamental_div_mod};
use vstd::prelude::*;

verus! {

/// The type tag of an opaque value with no declared type.
pub const TAG_EMPTY: u32 = 0;

/// The type tag of a plain text value.
pub const TAG_TEXT: u32 = 1;

/// The type tag of a text value with environment-variable references.
pub const TAG_EXPANDABLE_TEXT: u32 = 2;

/// The type tag of an opaque binary value.
pub const TAG_BINARY: u32 = 3;

/// The type tag of a 32-bit little-endian integer value.
pub const TAG_INTEGER32_LE: u32 = 4;

/// The type tag of a 32-bit big-endian integer value.
pub const TAG_INTEGER32_BE: u32 = 5;

/// The type tag of a symbolic-link text value.
pub const TAG_SYMBOLIC_LINK: u32 = 6;

/// The type tag of an ordered list of text values.
pub const TAG_TEXT_LIST: u32 = 7;

/// The type tag of an opaque resource-list value.
pub const TAG_RESOURCE_LIST: u32 = 8;

/// The type tag of an opaque full-resource-descriptor value.
pub const TAG_FULL_RESOURCE_DESCRIPTOR: u32 = 9;

/// The type tag of an opaque resource-requirements-list value.
pub const TAG_RESOURCE_REQUIREMENTS_LIST: u32 = 10;

/// The type tag of a 64-bit little-endian integer value.
pub const TAG_INTEGER64_LE: u32 = 11;

/// An error raised by the codec.
#[derive(Clone, Copy, Debug, PartialEq, Eq, Structural)]
pub enum CodecError {
    /// The payload length does not fit the tag, or the tag is unrecognized.
    MalformedValue,
    /// A list element handed to the encoder is empty or contains a NUL unit.
    InvalidListElement { index: usize },
    /// The host failed to expand environment-variable references; `code` is
    /// the platform error it reported.
    ExpansionError { code: u32 },
}

/// The two little-endian bytes that encode one 16-bit code unit.
pub open spec fn unit_le_bytes(w: u16) -> Seq<u8> {
    seq![(w % 256) as u8, (w / 256) as u8]
}

/// The byte encoding of a sequence of 16-bit code units, two little-endian
/// bytes per unit.
pub open spec fn wide_to_bytes(ws: Seq<u16>) -> Seq<u8>
    decreases ws.len(),
{
    if ws.len() == 0 {
        Seq::empty()
    } else {
        unit_le_bytes(ws[0]) + wide_to_bytes(ws.drop_first())
    }
}

/// The 16-bit code units read from a byte sequence, two little-endian bytes
/// per unit; a trailing odd byte is not a unit.
pub open spec fn bytes_to_wide(bs: Seq<u8>) -> Seq<u16>
    decreases bs.len(),
{
    if bs.len() < 2 {
        Seq::empty()
    } else {
        seq![(bs[0] + 256 * bs[1]) as u16] + bytes_to_wide(bs.skip(2))
    }
}

proof fn lemma_wide_to_bytes_len(ws: Seq<u16>)
    ensures
        wide_to_bytes(ws).len() == 2 * ws.len(),
    decreases ws.len(),
{
    if ws.len() > 0 {
        lemma_wide_to_bytes_len(ws.drop_first());
    }
}

proof fn lemma_wide_to_bytes_push(ws: Seq<u16>, w: u16)
    ensures
        wide_to_bytes(ws.push(w)) == wide_to_bytes(ws) + unit_le_bytes(w),
    decreases ws.len(),
{
    if ws.len() == 0 {
        assert(ws.push(w).drop_first() =~= Seq::empty());
        assert(ws.push(w)[0] == w);
        assert(wide_to_bytes(ws.push(w)) == unit_le_bytes(w) + wide_to_bytes(Seq::empty()));
        assert(wide_to_bytes(ws.push(w)) =~= wide_to_bytes(ws) + unit_le_bytes(w));
    } else {
        assert(ws.push(w).drop_first() =~= ws.drop_first().push(w));
        assert(ws.push(w)[0] == ws[0]);
        lemma_wide_to_bytes_push(ws.drop_first(), w);
        assert(wide_to_bytes(ws.push(w)) == unit_le_bytes(ws[0]) + wide_to_bytes(
            ws.drop_first().push(w),
        ));
        assert(wide_to_bytes(ws.push(w)) =~= wide_to_bytes(ws) + unit_le_bytes(w));
    }
}

/// Reading units back from the encoding of a unit sequence restores it.
pub proof fn lemma_wide_round_trip(ws: Seq<u16>)
    ensures
        bytes_to_wide(wide_to_bytes(ws)) == ws,
    decreases ws.len(),
{
    if ws.len() == 0 {
        assert(bytes_to_wide(wide_to_bytes(ws)) =~= ws);
    } else {
        let bs = wide_to_bytes(ws);
        lemma_wide_to_bytes_len(ws);
        assert(bs.skip(2) =~= wide_to_bytes(ws.drop_first()));
        lemma_wide_round_trip(ws.drop_first());
        assert(ws[0] % 256 + 256 * (ws[0] / 256) == ws[0]);
        assert(bytes_to_wide(wide_to_bytes(ws)) =~= ws);
    }
}

/// Encodes code units into bytes, two little-endian bytes per unit.
pub fn encode_wide(ws: &[u16]) -> (r: Vec<u8>)
    ensures
        r@ == wide_to_bytes(ws@),
{
    let mut r: Vec<u8> = Vec::new();
    let mut i: usize = 0;
    while i < ws.len()
        invariant
            i <= ws@.len(),
            r@ == wide_to_bytes(ws@.take(i as int)),
        decreases ws@.len() - i,
    {
        let w = ws[i];
        r.push((w % 256) as u8);
        r.push((w / 256) as u8);
        proof {
            lemma_wide_to_bytes_push(ws@.take(i as int), w);
            assert(ws@.take(i as int).push(w) =~= ws@.take(i + 1));
        }
        i = i + 1;
    }
    proof {
        assert(ws@.take(ws@.len() as int) =~= ws@);
    }
    r
}

/// The four little-endian bytes of a 32-bit integer.
pub open spec fn u32_le_bytes(x: u32) -> Seq<u8> {
    seq![
        (x % 256) as u8,
        ((x / 256) % 256) as u8,
        ((x / 65536) % 256) as u8,
        (x / 16777216) as u8,
    ]
}

/// The four big-endian bytes of a 32-bit integer.
pub open spec fn u32_be_bytes(x: u32) -> Seq<u8> {
    seq![
        (x / 16777216) as u8,
        ((x / 65536) % 256) as u8,
        ((x / 256) % 256) as u8,
        (x % 256) as u8,
    ]
}

/// The 32-bit integer encoded by four little-endian bytes.
pub open spec fn u32_from_le_bytes(bs: Seq<u8>) -> u32
    recommends
        bs.len() == 4,
{
    (bs[0] + 256 * bs[1] + 65536 * bs[2] + 16777216 * bs[3]) as u32
}

/// The 32-bit integer encoded by four big-endian bytes.
pub open spec fn u32_from_be_bytes(bs: Seq<u8>) -> u32
    recommends
        bs.len() == 4,
{
    (bs[3] + 256 * bs[2] + 65536 * bs[1] + 16777216 * bs[0]) as u32
}

/// The eight little-endian bytes of a 64-bit integer.
pub open spec fn u64_le_bytes(x: u64) -> Seq<u8> {
    seq![
        (x % 256) as u8,
        ((x / 256) % 256) as u8,
        ((x / 65536) % 256) as u8,
        ((x / 16777216) % 256) as u8,
        ((x / 4294967296) % 256) as u8,
        ((x / 1099511627776) % 256) as u8,
        ((x / 281474976710656) % 256) as u8,
        (x / 72057594037927936) as u8,
    ]
}

/// The 64-bit integer encoded by eight little-endian bytes.
pub open spec fn u64_from_le_bytes(bs: Seq<u8>) -> u64
    recommends
        bs.len() == 8,
{
    (bs[0] + 256 * bs[1] + 65536 * bs[2] + 16777216 * bs[3] + 4294967296 * bs[4] + 1099511627776
        * bs[5] + 281474976710656 * bs[6] + 72057594037927936 * bs[7]) as u64
}

/// A 32-bit integer splits into its four base-256 digits.
proof fn lemma_u32_digits(x: u32)
    ensures
        0 <= x as int / 16777216 < 256,
        x == x as int % 256 + 256 * ((x as int / 256) % 256) + 65536 * ((x as int / 65536) % 256)
            + 16777216 * (x as int / 16777216),
{
    let xi = x as int;
    lemma_fundamental_div_mod(xi, 256);
    lemma_fundamental_div_mod(xi / 256, 256);
    lemma_fundamental_div_mod(xi / 65536, 256);
    lemma_div_denominator(xi, 256, 256);
    lemma_div_denominator(xi, 65536, 256);
}

/// Decoding the little-endian encoding of a 32-bit integer restores it.
pub proof fn lemma_u32_le_round_trip(x: u32)
    ensures
        u32_from_le_bytes(u32_le_bytes(x)) == x,
{
    lemma_u32_digits(x);
}

/// Decoding the big-endian encoding of a 32-bit integer restores it.
pub proof fn lemma_u32_be_round_trip(x: u32)
    ensures
        u32_from_be_bytes(u32_be_bytes(x)) == x,
{
    lemma_u32_digits(x);
}

/// A 64-bit integer splits into its eight base-256 digits.
proof fn lemma_u64_digits(x: u64)
    ensures
        0 <= x as int / 72057594037927936 < 256,
        x == x as int % 256 + 256 * ((x as int / 256) % 256) + 65536 * ((x as int / 65536) % 256)
            + 16777216 * ((x as int / 16777216) % 256) + 4294967296 * ((x as int / 4294967296)
            % 256) + 1099511627776 * ((x as int / 1099511627776) % 256) + 281474976710656 * ((
        x as int / 281474976710656) % 256) + 72057594037927936 * (x as int / 72057594037927936),
{
    let xi = x as int;
    lemma_fundamental_div_mod(xi, 256);
    lemma_fundamental_div_mod(xi / 256, 256);
    lemma_fundamental_div_mod(xi / 65536, 256);
    lemma_fundamental_div_mod(xi / 16777216, 256);
    lemma_fundamental_div_mod(xi / 4294967296, 256);
    lemma_fundamental_div_mod(xi / 1099511627776, 256);
    lemma_fundamental_div_mod(xi / 281474976710656, 256);
    lemma_div_denominator(xi, 256, 256);
    lemma_div_denominator(xi, 65536, 256);
    lemma_div_denominator(xi, 16777216, 256);
    lemma_div_denominator(xi, 4294967296, 256);
    lemma_div_denominator(xi, 1099511627776, 256);
    lemma_div_denominator(xi, 281474976710656, 256);
}

/// Decoding the little-endian encoding of a 64-bit integer restores it.
pub proof fn lemma_u64_le_round_trip(x: u64)
    ensures
        u64_from_le_bytes(u64_le_bytes(x)) == x,
{
    lemma_u64_digits(x);
}

/// Encodes a 32-bit integer as four little-endian bytes.
fn encode_u32_le(x: u32) -> (r: Vec<u8>)
    ensures
        r@ == u32_le_bytes(x),
{
    let mut r: Vec<u8> = Vec::new();
    r.push((x % 256) as u8);
    r.push(((x / 256) % 256) as u8);
    r.push(((x / 65536) % 256) as u8);
    r.push((x / 16777216) as u8);
    proof {
        assert(r@ =~= u32_le_bytes(x));
    }
    r
}

/// Encodes a 32-bit integer as four big-endian bytes.
fn encode_u32_be(x: u32) -> (r: Vec<u8>)
    ensures
        r@ == u32_be_bytes(x),
{
    let mut r: Vec<u8> = Vec::new();
    r.push((x / 16777216) as u8);
    r.push(((x / 65536) % 256) as u8);
    r.push(((x / 256) % 256) as u8);
    r.push((x % 256) as u8);
    proof {
        assert(r@ =~= u32_be_bytes(x));
    }
    r
}

/// Encodes a 64-bit integer as eight little-endian bytes.
fn encode_u64_le(x: u64) -> (r: Vec<u8>)
    ensures
        r@ == u64_le_bytes(x),
{
    let mut r: Vec<u8> = Vec::new();
    r.push((x % 256) as u8);
    r.push(((x / 256) % 256) as u8);
    r.push(((x / 65536) % 256) as u8);
    r.push(((x / 16777216) % 256) as u8);
    r.push(((x / 4294967296) % 256) as u8);
    r.push(((x / 1099511627776) % 256) as u8);
    r.push(((x / 281474976710656) % 256) as u8);
    r.push((x / 72057594037927936) as u8);
    proof {
        assert(r@ =~= u64_le_bytes(x));
    }
    r
}

/// Reads a 32-bit integer from four little-endian bytes.
fn decode_u32_le(bs: &[u8]) -> (x: u32)
    requires
        bs@.len() == 4,
    ensures
        x == u32_from_le_bytes(bs@),
{
    bs[0] as u32 + 256 * (bs[1] as u32) + 65536 * (bs[2] as u32) + 16777216 * (bs[3] as u32)
}

/// Reads a 32-bit integer from four big-endian bytes.
fn decode_u32_be(bs: &[u8]) -> (x: u32)
    requires
        bs@.len() == 4,
    ensures
        x == u32_from_be_bytes(bs@),
{
    bs[3] as u32 + 256 * (bs[2] as u32) + 65536 * (bs[1] as u32) + 16777216 * (bs[0] as u32)
}

/// Reads a 64-bit integer from eight little-endian bytes.
fn decode_u64_le(bs: &[u8]) -> (x: u64)
    requires
        bs@.len() == 8,
    ensures
        x == u64_from_le_bytes(bs@),
{
    bs[0] as u64 + 256 * (bs[1] as u64) + 65536 * (bs[2] as u64) + 16777216 * (bs[3] as u64)
        + 4294967296 * (bs[4] as u64) + 1099511627776 * (bs[5] as u64) + 281474976710656 * (
    bs[6] as u64) + 72057594037927936 * (bs[7] as u64)
}

proof fn lemma_bytes_to_wide_snoc(s: Seq<u8>, b0: u8, b1: u8)
    requires
        s.len() % 2 == 0,
    ensures
        bytes_to_wide(s + seq![b0, b1]) == bytes_to_wide(s).push((b0 + 256 * b1) as u16),
    decreases s.len(),
{
    if s.len() == 0 {
        assert((s + seq![b0, b1]).skip(2) =~= Seq::empty());
        assert((s + seq![b0, b1])[0] == b0);
        assert((s + seq![b0, b1])[1] == b1);
        assert(bytes_to_wide(s + seq![b0, b1]) == seq![(b0 + 256 * b1) as u16] + bytes_to_wide(
            Seq::<u8>::empty(),
        ));
        assert(bytes_to_wide(s + seq![b0, b1]) =~= bytes_to_wide(s).push((b0 + 256 * b1) as u16));
    } else {
        assert((s + seq![b0, b1]).skip(2) =~= s.skip(2) + seq![b0, b1]);
        assert((s + seq![b0, b1])[0] == s[0]);
        assert((s + seq![b0, b1])[1] == s[1]);
        lemma_bytes_to_wide_snoc(s.skip(2), b0, b1);
        assert(bytes_to_wide(s + seq![b0, b1]) == seq![(s[0] + 256 * s[1]) as u16] + bytes_to_wide(
            s.skip(2) + seq![b0, b1],
        ));
        assert(bytes_to_wide(s + seq![b0, b1]) =~= bytes_to_wide(s).push((b0 + 256 * b1) as u16));
    }
}

/// Decodes bytes into code units; a payload of odd length is malformed.
pub fn decode_wide(bs: &[u8]) -> (r: Result<Vec<u16>, CodecError>)
    ensures
        bs@.len() % 2 == 0 ==> (r matches Ok(ws) && ws@ == bytes_to_wide(bs@)),
        bs@.len() % 2 != 0 ==> r == Err::<Vec<u16>, CodecError>(CodecError::MalformedValue),
{
    if bs.len() % 2 != 0 {
        return Err(CodecError::MalformedValue);
    }
    let mut r: Vec<u16> = Vec::new();
    let mut i: usize = 0;
    while i + 1 < bs.len()
        invariant
            i % 2 == 0,
            i <= bs@.len(),
            bs@.len() % 2 == 0,
            r@ == bytes_to_wide(bs@.take(i as int)),
        decreases bs@.len() - i,
    {
        let w = bs[i] as u16 + 256 * (bs[i + 1] as u16);
        r.push(w);
        proof {
            lemma_bytes_to_wide_snoc(bs@.take(i as int), bs@[i as int], bs@[i as int + 1]);
            assert(bs@.take(i as int) + seq![bs@[i as int], bs@[i as int + 1]] =~= bs@.take(
                i as int + 2,
            ));
        }
        i = i + 2;
    }
    proof {
        assert(bs@.take(bs@.len() as int) =~= bs@);
    }
    Ok(r)
}

/// A text payload with one trailing terminator unit stripped; exactly one is
/// stripped, and only if present.
pub open spec fn strip_terminator(ws: Seq<u16>) -> Seq<u16> {
    if ws.len() > 0 && ws.last() == 0 {
        ws.drop_last()
    } else {
        ws
    }
}

/// Strips one trailing terminator unit, if present.
fn strip_one_terminator(ws: Vec<u16>) -> (r: Vec<u16>)
    ensures
        r@ == strip_terminator(ws@),
{
    let ghost orig = ws@;
    let mut ws = ws;
    if ws.len() > 0 && ws[ws.len() - 1] == 0 {
        ws.pop();
        proof {
            assert(ws@ =~= strip_terminator(orig));
        }
    }
    ws
}

/// The number of units before the first NUL unit (the whole length if there
/// is none).
pub open spec fn first_nul(ws: Seq<u16>) -> nat
    decreases ws.len(),
{
    if ws.len() == 0 {
        0
    } else if ws[0] == 0 {
        0
    } else {
        1 + first_nul(ws.drop_first())
    }
}

proof fn lemma_first_nul_bounds(ws: Seq<u16>)
    ensures
        first_nul(ws) <= ws.len(),
        forall|j: int| 0 <= j < first_nul(ws) ==> ws[j] != 0,
        first_nul(ws) < ws.len() ==> ws[first_nul(ws) as int] == 0,
    decreases ws.len(),
{
    if ws.len() > 0 && ws[0] != 0 {
        lemma_first_nul_bounds(ws.drop_first());
        assert(forall|j: int|
            1 <= j < first_nul(ws) ==> ws[j] == ws.drop_first()[j - 1] && ws.drop_first()[j - 1]
                != 0);
    }
}

/// `first_nul` is pinned down by its characteristic properties.
proof fn lemma_first_nul_is(ws: Seq<u16>, k: int)
    requires
        0 <= k <= ws.len(),
        forall|j: int| 0 <= j < k ==> ws[j] != 0,
        k < ws.len() ==> ws[k] == 0,
    ensures
        first_nul(ws) == k,
    decreases ws.len(),
{
    if ws.len() == 0 {
    } else if k == 0 {
    } else {
        assert(ws[0] != 0);
        assert(forall|j: int| 0 <= j < k - 1 ==> ws.drop_first()[j] == ws[j + 1] && ws[j + 1] != 0);
        lemma_first_nul_is(ws.drop_first(), k - 1);
    }
}

/// The segments of a text-list payload: units split on NUL separators,
/// stopping at the first empty segment.
pub open spec fn split_text_list(ws: Seq<u16>) -> Seq<Seq<u16>>
    decreases ws.len(),
    via split_text_list_decreases
{
    let k = first_nul(ws) as int;
    if k == 0 {
        Seq::empty()
    } else if k == ws.len() {
        seq![ws]
    } else {
        seq![ws.take(k)] + split_text_list(ws.skip(k + 1))
    }
}

#[via_fn]
proof fn split_text_list_decreases(ws: Seq<u16>) {
    lemma_first_nul_bounds(ws);
}

/// Returns the index of the first NUL unit at or after `from`, or the length
/// if there is none.
fn find_nul_from(ws: &Vec<u16>, from: usize) -> (k: usize)
    requires
        from <= ws@.len(),
    ensures
        from <= k <= ws@.len(),
        k - from == first_nul(ws@.skip(from as int)),
{
    let mut i: usize = from;
    while i < ws.len()
        invariant
            from <= i <= ws@.len(),
            forall|j: int| from <= j < i ==> ws@[j] != 0,
        decreases ws@.len() - i,
    {
        if ws[i] == 0 {
            proof {
                assert(forall|j: int|
                    0 <= j < i - from ==> ws@.skip(from as int)[j] == ws@[j + from]);
                lemma_first_nul_is(ws@.skip(from as int), i - from);
            }
            return i;
        }
        i = i + 1;
    }
    proof {
        assert(forall|j: int| 0 <= j < i - from ==> ws@.skip(from as int)[j] == ws@[j + from]);
        lemma_first_nul_is(ws@.skip(from as int), i - from);
    }
    i
}

/// Copies the units in `[a, b)` out of a unit sequence.
fn copy_units(ws: &Vec<u16>, a: usize, b: usize) -> (r: Vec<u16>)
    requires
        a <= b <= ws@.len(),
    ensures
        r@ == ws@.subrange(a as int, b as int),
{
    let mut r: Vec<u16> = Vec::new();
    let mut i: usize = a;
    while i < b
        invariant
            a <= i <= b <= ws@.len(),
            r@ == ws@.subrange(a as int, i as int),
        decreases b - i,
    {
        r.push(ws[i]);
        proof {
            assert(ws@.subrange(a as int, i as int).push(ws@[i as int]) =~= ws@.subrange(
                a as int,
                i as int + 1,
            ));
        }
        i = i + 1;
    }
    r
}

/// Splits a unit sequence into the list segments it encodes.
fn split_list_units(ws: &Vec<u16>) -> (r: Vec<Vec<u16>>)
    ensures
        r.deep_view() == split_text_list(ws@),
{
    let mut r: Vec<Vec<u16>> = Vec::new();
    let mut pos: usize = 0;
    proof {
        assert(ws@.skip(0) =~= ws@);
        assert(r.deep_view() =~= Seq::<Seq<u16>>::empty());
        assert(r.deep_view() + split_text_list(ws@) =~= split_text_list(ws@));
    }
    loop
        invariant
            pos <= ws@.len(),
            split_text_list(ws@) == r.deep_view() + split_text_list(ws@.skip(pos as int)),
        decreases ws@.len() - pos,
    {
        let k = find_nul_from(ws, pos);
        if k == pos {
            proof {
                assert(split_text_list(ws@.skip(pos as int)) =~= Seq::<Seq<u16>>::empty());
                assert(r.deep_view() + Seq::<Seq<u16>>::empty() =~= r.deep_view());
            }
            return r;
        }
        let seg = copy_units(ws, pos, k);
        let ghost old_r = r.deep_view();
        let ghost tail = ws@.skip(pos as int);
        r.push(seg);
        proof {
            assert(r.deep_view() =~~= old_r.push(seg@));
        }
        if k == ws.len() {
            proof {
                assert(tail =~= ws@.subrange(pos as int, k as int));
                assert(split_text_list(tail) =~= seq![seg@]);
                assert(old_r + split_text_list(tail) =~= r.deep_view() + Seq::<
                    Seq<u16>,
                >::empty());
                assert(split_text_list(ws@.skip(ws@.len() as int)) =~= Seq::<Seq<u16>>::empty());
            }
            return r;
        }
        proof {
            let kk = (k - pos) as int;
            assert(tail.take(kk) =~= ws@.subrange(pos as int, k as int));
            assert(tail.skip(kk + 1) =~= ws@.skip(k as int + 1));
            assert(split_text_list(tail) =~= seq![seg@] + split_text_list(ws@.skip(k as int + 1)));
            assert(old_r + split_text_list(tail) =~= r.deep_view() + split_text_list(
                ws@.skip(k as int + 1),
            ));
        }
        pos = k + 1;
    }
}

/// A list element the encoder accepts: non-empty and free of NUL units.
pub open spec fn valid_list_element(s: Seq<u16>) -> bool {
    s.len() > 0 && !s.contains(0)
}

/// Whether every element of a list is one the encoder accepts.
pub open spec fn list_elements_valid(ss: Seq<Seq<u16>>) -> bool {
    forall|i: int| 0 <= i < ss.len() ==> valid_list_element(ss[i])
}

/// The index of the first element the encoder rejects (the length if none).
pub open spec fn first_invalid_index(ss: Seq<Seq<u16>>) -> nat
    decreases ss.len(),
{
    if ss.len() == 0 {
        0
    } else if !valid_list_element(ss[0]) {
        0
    } else {
        1 + first_invalid_index(ss.drop_first())
    }
}

proof fn lemma_first_invalid_is(ss: Seq<Seq<u16>>, k: int)
    requires
        0 <= k < ss.len(),
        forall|j: int| 0 <= j < k ==> valid_list_element(ss[j]),
        !valid_list_element(ss[k]),
    ensures
        first_invalid_index(ss) == k,
    decreases ss.len(),
{
    if k > 0 {
        assert(valid_list_element(ss[0]));
        assert(forall|j: int|
            0 <= j < k - 1 ==> ss.drop_first()[j] == ss[j + 1] && valid_list_element(ss[j + 1]));
        assert(ss.drop_first()[k - 1] == ss[k]);
        lemma_first_invalid_is(ss.drop_first(), k - 1);
    }
}

/// The unit sequence that encodes a text list: each element followed by a NUL
/// separator, then one final terminator.
pub open spec fn list_units(ss: Seq<Seq<u16>>) -> Seq<u16>
    decreases ss.len(),
{
    if ss.len() == 0 {
        seq![0u16]
    } else {
        ss[0] + seq![0u16] + list_units(ss.drop_first())
    }
}

proof fn lemma_list_units_len(ss: Seq<Seq<u16>>)
    ensures
        list_units(ss).len() >= 1,
    decreases ss.len(),
{
    if ss.len() > 0 {
        lemma_list_units_len(ss.drop_first());
    }
}

proof fn lemma_first_nul_concat(s: Seq<u16>, t: Seq<u16>)
    requires
        !s.contains(0),
    ensures
        first_nul(s + seq![0u16] + t) == s.len(),
    decreases s.len(),
{
    let u = s + seq![0u16] + t;
    if s.len() == 0 {
        assert(u[0] == 0);
    } else {
        assert(u[0] == s[0]);
        assert(s[0] != 0);
        assert(!s.drop_first().contains(0)) by {
            assert(forall|i: int|
                0 <= i < s.drop_first().len() ==> s.drop_first()[i] == s[i + 1]);
        }
        assert(u.drop_first() =~= s.drop_first() + seq![0u16] + t);
        lemma_first_nul_concat(s.drop_first(), t);
    }
}

/// Splitting the unit encoding of a valid text list restores the list.
pub proof fn lemma_text_list_round_trip(ss: Seq<Seq<u16>>)
    requires
        list_elements_valid(ss),
    ensures
        split_text_list(list_units(ss)) == ss,
    decreases ss.len(),
{
    let u = list_units(ss);
    if ss.len() == 0 {
        assert(u =~= seq![0u16]);
        assert(first_nul(u) == 0);
        assert(split_text_list(u) =~= ss);
    } else {
        let head = ss[0];
        let rest = list_units(ss.drop_first());
        assert(valid_list_element(head));
        lemma_first_nul_concat(head, rest);
        assert(first_nul(u) == head.len());
        lemma_list_units_len(ss.drop_first());
        assert(u.len() == head.len() + 1 + rest.len());
        let k = first_nul(u) as int;
        assert(0 < k < u.len());
        assert(u.take(k) =~= head);
        assert(u.skip(k + 1) =~= rest);
        lemma_text_list_round_trip(ss.drop_first());
        assert(split_text_list(u) =~= seq![head] + ss.drop_first());
        assert(seq![head] + ss.drop_first() =~= ss);
    }
}

/// Reports whether a unit sequence contains a NUL unit.
fn has_nul_unit(ws: &Vec<u16>) -> (b: bool)
    ensures
        b == ws@.contains(0),
{
    let mut i: usize = 0;
    while i < ws.len()
        invariant
            i <= ws@.len(),
            forall|j: int| 0 <= j < i ==> ws@[j] != 0,
        decreases ws@.len() - i,
    {
        if ws[i] == 0 {
            assert(ws@[i as int] == 0);
            return true;
        }
        i = i + 1;
    }
    assert(forall|j: int| 0 <= j < ws@.len() ==> ws@[j] != 0);
    false
}

/// Flattens list elements into their unit encoding, rejecting the first
/// element that is empty or contains a NUL unit.
fn list_to_units(elements: &Vec<Vec<u16>>) -> (r: Result<Vec<u16>, CodecError>)
    ensures
        list_elements_valid(elements.deep_view()) ==> (r matches Ok(us) && us@ == list_units(
            elements.deep_view(),
        )),
        !list_elements_valid(elements.deep_view()) ==> (r matches Err(e) && e matches
            CodecError::InvalidListElement { index } && index == first_invalid_index(
            elements.deep_view(),
        )),
{
    let ghost dv = elements.deep_view();
    let mut units: Vec<u16> = Vec::new();
    let mut i: usize = 0;
    proof {
        assert(dv.skip(0) =~= dv);
        assert(units@ + list_units(dv) =~= list_units(dv));
    }
    while i < elements.len()
        invariant
            i <= dv.len(),
            dv == elements.deep_view(),
            dv.len() == elements@.len(),
            forall|j: int| 0 <= j < i ==> valid_list_element(dv[j]),
            list_units(dv) == units@ + list_units(dv.skip(i as int)),
        decreases dv.len() - i,
    {
        let elem = &elements[i];
        proof {
            assert(dv[i as int] =~= elem@);
        }
        if elem.len() == 0 || has_nul_unit(elem) {
            proof {
                lemma_first_invalid_is(dv, i as int);
            }
            return Err(CodecError::InvalidListElement { index: i });
        }
        let ghost base = units@;
        let ghost tail = dv.skip(i as int);
        let mut j: usize = 0;
        while j < elem.len()
            invariant
                j <= elem@.len(),
                units@ == base + elem@.take(j as int),
            decreases elem@.len() - j,
        {
            units.push(elem[j]);
            proof {
                assert(base + elem@.take(j as int + 1) =~= (base + elem@.take(j as int)).push(
                    elem@[j as int],
                ));
            }
            j = j + 1;
        }
        units.push(0);
        proof {
            assert(tail[0] == dv[i as int]);
            assert(tail.drop_first() =~= dv.skip(i as int + 1));
            assert(list_units(tail) == dv[i as int] + seq![0u16] + list_units(
                dv.skip(i as int + 1),
            ));
            assert(elem@.take(elem@.len() as int) =~= elem@);
            assert(units@ =~= base + dv[i as int] + seq![0u16]);
            assert(units@ + list_units(dv.skip(i as int + 1)) =~= base + list_units(tail));
        }
        i = i + 1;
    }
    units.push(0);
    proof {
        assert(dv.skip(dv.len() as int) =~= Seq::<Seq<u16>>::empty());
        assert(list_units(dv.skip(dv.len() as int)) =~= seq![0u16]);
        assert(units@ =~= list_units(dv));
    }
    Ok(units)
}

/// One configuration entry's value: a closed, tagged union over the wire
/// format's value kinds.
///
/// Text payloads are 16-bit code units without a terminator; the terminator
/// units are part of the wire encoding only. An `ExpandableText` carries both
/// the stored text and the result of expanding environment-variable
/// references in it; only the stored text takes part in encoding.
#[derive(Clone, Debug, PartialEq, Eq)]
pub enum RegistryValue {
    Empty(Vec<u8>),
    Text(Vec<u16>),
    ExpandableText { unexpanded: Vec<u16>, expanded: Vec<u16> },
    Binary(Vec<u8>),
    Integer32LE(u32),
    Integer32BE(u32),
    SymbolicLink(Vec<u16>),
    TextList(Vec<Vec<u16>>),
    ResourceList(Vec<u8>),
    FullResourceDescriptor(Vec<u8>),
    ResourceRequirementsList(Vec<u8>),
    Integer64LE(u64),
}

/// The mathematical model of a [`RegistryValue`]: the same union over
/// sequences instead of vectors.
#[verifier::ext_equal]
pub enum ValueModel {
    Empty(Seq<u8>),
    Text(Seq<u16>),
    ExpandableText { unexpanded: Seq<u16>, expanded: Seq<u16> },
    Binary(Seq<u8>),
    Integer32LE(u32),
    Integer32BE(u32),
    SymbolicLink(Seq<u16>),
    TextList(Seq<Seq<u16>>),
    ResourceList(Seq<u8>),
    FullResourceDescriptor(Seq<u8>),
    ResourceRequirementsList(Seq<u8>),
    Integer64LE(u64),
}

impl View for RegistryValue {
    type V = ValueModel;

    open spec fn view(&self) -> ValueModel {
        match self {
            RegistryValue::Empty(bs) => ValueModel::Empty(bs@),
            RegistryValue::Text(ws) => ValueModel::Text(ws@),
            RegistryValue::ExpandableText { unexpanded, expanded } => ValueModel::ExpandableText {
                unexpanded: unexpanded@,
                expanded: expanded@,
            },
            RegistryValue::Binary(bs) => ValueModel::Binary(bs@),
            RegistryValue::Integer32LE(x) => ValueModel::Integer32LE(*x),
            RegistryValue::Integer32BE(x) => ValueModel::Integer32BE(*x),
            RegistryValue::SymbolicLink(ws) => ValueModel::SymbolicLink(ws@),
            RegistryValue::TextList(ss) => ValueModel::TextList(ss.deep_view()),
            RegistryValue::ResourceList(bs) => ValueModel::ResourceList(bs@),
            RegistryValue::FullResourceDescriptor(bs) => ValueModel::FullResourceDescriptor(bs@),
            RegistryValue::ResourceRequirementsList(bs) => ValueModel::ResourceRequirementsList(
                bs@,
            ),
            RegistryValue::Integer64LE(x) => ValueModel::Integer64LE(*x),
        }
    }
}

/// The wire type tag of a value.
pub open spec fn tag_of(m: ValueModel) -> u32 {
    match m {
        ValueModel::Empty(_) => TAG_EMPTY,
        ValueModel::Text(_) => TAG_TEXT,
        ValueModel::ExpandableText { .. } => TAG_EXPANDABLE_TEXT,
        ValueModel::Binary(_) => TAG_BINARY,
        ValueModel::Integer32LE(_) => TAG_INTEGER32_LE,
        ValueModel::Integer32BE(_) => TAG_INTEGER32_BE,
        ValueModel::SymbolicLink(_) => TAG_SYMBOLIC_LINK,
        ValueModel::TextList(_) => TAG_TEXT_LIST,
        ValueModel::ResourceList(_) => TAG_RESOURCE_LIST,
        ValueModel::FullResourceDescriptor(_) => TAG_FULL_RESOURCE_DESCRIPTOR,
        ValueModel::ResourceRequirementsList(_) => TAG_RESOURCE_REQUIREMENTS_LIST,
        ValueModel::Integer64LE(_) => TAG_INTEGER64_LE,
    }
}

/// Whether the encoder accepts a value: every value but a text list with an
/// empty or NUL-containing element.
pub open spec fn encodable(m: ValueModel) -> bool {
    match m {
        ValueModel::TextList(ss) => list_elements_valid(ss),
        _ => true,
    }
}

/// The wire bytes of an encodable value.
pub open spec fn encoded_bytes(m: ValueModel) -> Seq<u8>
    recommends
        encodable(m),
{
    match m {
        ValueModel::Empty(bs) => bs,
        ValueModel::Text(ws) => wide_to_bytes(ws.push(0)),
        ValueModel::ExpandableText { unexpanded, .. } => wide_to_bytes(unexpanded.push(0)),
        ValueModel::Binary(bs) => bs,
        ValueModel::Integer32LE(x) => u32_le_bytes(x),
        ValueModel::Integer32BE(x) => u32_be_bytes(x),
        ValueModel::SymbolicLink(ws) => wide_to_bytes(ws.push(0)),
        ValueModel::TextList(ss) => wide_to_bytes(list_units(ss)),
        ValueModel::ResourceList(bs) => bs,
        ValueModel::FullResourceDescriptor(bs) => bs,
        ValueModel::ResourceRequirementsList(bs) => bs,
        ValueModel::Integer64LE(x) => u64_le_bytes(x),
    }
}

/// A decoded value, or the text of an `ExpandableText` whose expansion the
/// host still has to compute.
#[derive(Clone, Debug, PartialEq, Eq)]
pub enum RawDecode {
    Value(RegistryValue),
    NeedsExpansion(Vec<u16>),
}

/// The mathematical model of a [`RawDecode`].
#[verifier::ext_equal]
pub enum RawModel {
    Value(ValueModel),
    NeedsExpansion(Seq<u16>),
}

impl View for RawDecode {
    type V = RawModel;

    open spec fn view(&self) -> RawModel {
        match self {
            RawDecode::Value(v) => RawModel::Value(v@),
            RawDecode::NeedsExpansion(ws) => RawModel::NeedsExpansion(ws@),
        }
    }
}

/// What decoding a tagged payload yields: a value, a request for environment
/// expansion, or a malformedness error.
pub open spec fn spec_decode(tag: u32, bs: Seq<u8>) -> Result<RawModel, CodecError> {
    if tag == TAG_EMPTY {
        Ok(RawModel::Value(ValueModel::Empty(bs)))
    } else if tag == TAG_TEXT {
        if bs.len() % 2 == 0 {
            Ok(RawModel::Value(ValueModel::Text(strip_terminator(bytes_to_wide(bs)))))
        } else {
            Err(CodecError::MalformedValue)
        }
    } else if tag == TAG_EXPANDABLE_TEXT {
        if bs.len() % 2 == 0 {
            let ws = strip_terminator(bytes_to_wide(bs));
            if ws.len() == 0 {
                Ok(
                    RawModel::Value(
                        ValueModel::ExpandableText { unexpanded: ws, expanded: ws },
                    ),
                )
            } else {
                Ok(RawModel::NeedsExpansion(ws))
            }
        } else {
            Err(CodecError::MalformedValue)
        }
    } else if tag == TAG_BINARY {
        Ok(RawModel::Value(ValueModel::Binary(bs)))
    } else if tag == TAG_INTEGER32_LE {
        if bs.len() == 4 {
            Ok(RawModel::Value(ValueModel::Integer32LE(u32_from_le_bytes(bs))))
        } else {
            Err(CodecError::MalformedValue)
        }
    } else if tag == TAG_INTEGER32_BE {
        if bs.len() == 4 {
            Ok(RawModel::Value(ValueModel::Integer32BE(u32_from_be_bytes(bs))))
        } else {
            Err(CodecError::MalformedValue)
        }
    } else if tag == TAG_SYMBOLIC_LINK {
        if bs.len() % 2 == 0 {
            Ok(RawModel::Value(ValueModel::SymbolicLink(strip_terminator(bytes_to_wide(bs)))))
        } else {
            Err(CodecError::MalformedValue)
        }
    } else if tag == TAG_TEXT_LIST {
        if bs.len() % 2 == 0 {
            Ok(RawModel::Value(ValueModel::TextList(split_text_list(bytes_to_wide(bs)))))
        } else {
            Err(CodecError::MalformedValue)
        }
    } else if tag == TAG_RESOURCE_LIST {
        Ok(RawModel::Value(ValueModel::ResourceList(bs)))
    } else if tag == TAG_FULL_RESOURCE_DESCRIPTOR {
        Ok(RawModel::Value(ValueModel::FullResourceDescriptor(bs)))
    } else if tag == TAG_RESOURCE_REQUIREMENTS_LIST {
        Ok(RawModel::Value(ValueModel::ResourceRequirementsList(bs)))
    } else if tag == TAG_INTEGER64_LE {
        if bs.len() == 8 {
            Ok(RawModel::Value(ValueModel::Integer64LE(u64_from_le_bytes(bs))))
        } else {
            Err(CodecError::MalformedValue)
        }
    } else {
        Err(CodecError::MalformedValue)
    }
}

/// Whether an executable decode result realizes a modelled one.
pub open spec fn decode_matches(
    r: Result<RawDecode, CodecError>,
    s: Result<RawModel, CodecError>,
) -> bool {
    match (r, s) {
        (Ok(a), Ok(b)) => a@ == b,
        (Err(a), Err(b)) => a == b,
        _ => false,
    }
}

impl RegistryValue {
    /// The wire type tag under which this value encodes.
    pub fn to_reg_value_type(&self) -> (tag: u32)
        ensures
            tag == tag_of(self@),
    {
        match self {
            RegistryValue::Empty(_) => TAG_EMPTY,
            RegistryValue::Text(_) => TAG_TEXT,
            RegistryValue::ExpandableText { .. } => TAG_EXPANDABLE_TEXT,
            RegistryValue::Binary(_) => TAG_BINARY,
            RegistryValue::Integer32LE(_) => TAG_INTEGER32_LE,
            RegistryValue::Integer32BE(_) => TAG_INTEGER32_BE,
            RegistryValue::SymbolicLink(_) => TAG_SYMBOLIC_LINK,
            RegistryValue::TextList(_) => TAG_TEXT_LIST,
            RegistryValue::ResourceList(_) => TAG_RESOURCE_LIST,
            RegistryValue::FullResourceDescriptor(_) => TAG_FULL_RESOURCE_DESCRIPTOR,
            RegistryValue::ResourceRequirementsList(_) => TAG_RESOURCE_REQUIREMENTS_LIST,
            RegistryValue::Integer64LE(_) => TAG_INTEGER64_LE,
        }
    }

    /// Encodes this value into its wire bytes. Fails if and only if the value
    /// is a text list with an empty or NUL-containing element, naming the
    /// first such element.
    pub fn to_bytes(&self) -> (r: Result<Vec<u8>, CodecError>)
        ensures
            encodable(self@) ==> (r matches Ok(bs) && bs@ == encoded_bytes(self@)),
            !encodable(self@) ==> (r matches Err(e) && e matches CodecError::InvalidListElement {
                index,
            } && self@ matches ValueModel::TextList(ss) && index == first_invalid_index(ss)),
    {
        match self {
            RegistryValue::Empty(bs) => Ok(bs.clone()),
            RegistryValue::Text(ws) => Ok(Self::text_payload(ws)),
            RegistryValue::ExpandableText { unexpanded, .. } => Ok(Self::text_payload(unexpanded)),
            RegistryValue::Binary(bs) => Ok(bs.clone()),
            RegistryValue::Integer32LE(x) => Ok(encode_u32_le(*x)),
            RegistryValue::Integer32BE(x) => Ok(encode_u32_be(*x)),
            RegistryValue::SymbolicLink(ws) => Ok(Self::text_payload(ws)),
            RegistryValue::TextList(ss) => {
                let units = list_to_units(ss)?;
                Ok(encode_wide(units.as_slice()))
            },
            RegistryValue::ResourceList(bs) => Ok(bs.clone()),
            RegistryValue::FullResourceDescriptor(bs) => Ok(bs.clone()),
            RegistryValue::ResourceRequirementsList(bs) => Ok(bs.clone()),
            RegistryValue::Integer64LE(x) => Ok(encode_u64_le(*x)),
        }
    }

    /// Encodes a text payload: the units followed by one terminator.
    fn text_payload(ws: &Vec<u16>) -> (r: Vec<u8>)
        ensures
            r@ == wide_to_bytes(ws@.push(0)),
    {
        let mut units = ws.clone();
        units.push(0);
        encode_wide(units.as_slice())
    }

    /// Decodes a tagged payload. Fails if and only if the tag is unrecognized
    /// or the payload length does not fit the tag; a non-empty expandable
    /// text asks the caller for the host's expansion of it.
    pub fn decode_raw(tag: u32, bs: &[u8]) -> (r: Result<RawDecode, CodecError>)
        ensures
            decode_matches(r, spec_decode(tag, bs@)),
    {
        if tag == TAG_EMPTY {
            Ok(RawDecode::Value(RegistryValue::Empty(slice_to_vec(bs))))
        } else if tag == TAG_TEXT {
            let ws = decode_wide(bs)?;
            Ok(RawDecode::Value(RegistryValue::Text(strip_one_terminator(ws))))
        } else if tag == TAG_EXPANDABLE_TEXT {
            let ws = decode_wide(bs)?;
            let ws = strip_one_terminator(ws);
            if ws.len() == 0 {
                let unexpanded = ws;
                let expanded = unexpanded.clone();
                Ok(RawDecode::Value(RegistryValue::ExpandableText { unexpanded, expanded }))
            } else {
                Ok(RawDecode::NeedsExpansion(ws))
            }
        } else if tag == TAG_BINARY {
            Ok(RawDecode::Value(RegistryValue::Binary(slice_to_vec(bs))))
        } else if tag == TAG_INTEGER32_LE {
            if bs.len() == 4 {
                Ok(RawDecode::Value(RegistryValue::Integer32LE(decode_u32_le(bs))))
            } else {
                Err(CodecError::MalformedValue)
            }
        } else if tag == TAG_INTEGER32_BE {
            if bs.len() == 4 {
                Ok(RawDecode::Value(RegistryValue::Integer32BE(decode_u32_be(bs))))
            } else {
                Err(CodecError::MalformedValue)
            }
        } else if tag == TAG_SYMBOLIC_LINK {
            let ws = decode_wide(bs)?;
            Ok(RawDecode::Value(RegistryValue::SymbolicLink(strip_one_terminator(ws))))
        } else if tag == TAG_TEXT_LIST {
            let ws = decode_wide(bs)?;
            Ok(RawDecode::Value(RegistryValue::TextList(split_list_units(&ws))))
        } else if tag == TAG_RESOURCE_LIST {
            Ok(RawDecode::Value(RegistryValue::ResourceList(slice_to_vec(bs))))
        } else if tag == TAG_FULL_RESOURCE_DESCRIPTOR {
            Ok(RawDecode::Value(RegistryValue::FullResourceDescriptor(slice_to_vec(bs))))
        } else if tag == TAG_RESOURCE_REQUIREMENTS_LIST {
            Ok(RawDecode::Value(RegistryValue::ResourceRequirementsList(slice_to_vec(bs))))
        } else if tag == TAG_INTEGER64_LE {
            if bs.len() == 8 {
                Ok(RawDecode::Value(RegistryValue::Integer64LE(decode_u64_le(bs))))
            } else {
                Err(CodecError::MalformedValue)
            }
        } else {
            Err(CodecError::MalformedValue)
        }
    }
}

/// Completes the decoding of a non-empty `ExpandableText` once the host has
/// attempted the expansion: a successful expansion yields the value, a failed
/// one fails the whole decode with the platform error.
pub fn finish_expansion(unexpanded: Vec<u16>, expansion: Result<Vec<u16>, u32>) -> (r: Result<
    RegistryValue,
    CodecError,
>)
    ensures
        expansion matches Ok(exp) ==> (r matches Ok(v) && v@ == (ValueModel::ExpandableText {
            unexpanded: unexpanded@,
            expanded: exp@,
        })),
        expansion matches Err(code) ==> r == Err::<RegistryValue, CodecError>(
            CodecError::ExpansionError { code },
        ),
{
    match expansion {
        Ok(expanded) => Ok(RegistryValue::ExpandableText { unexpanded, expanded }),
        Err(code) => Err(CodecError::ExpansionError { code }),
    }
}

/// Decoding an encoded value restores it exactly, for every encodable value
/// that is not an `ExpandableText`. An `ExpandableText` is the one exception:
/// its expanded text depends on the host environment, so re-decoding the same
/// bytes need not restore it.
pub proof fn lemma_decode_encode_round_trip(m: ValueModel)
    requires
        !(m is ExpandableText),
        encodable(m),
    ensures
        spec_decode(tag_of(m), encoded_bytes(m)) == Ok::<RawModel, CodecError>(RawModel::Value(m)),
{
    match m {
        ValueModel::Empty(bs) => {},
        ValueModel::Text(ws) => {
            lemma_text_payload_round_trip(ws);
        },
        ValueModel::ExpandableText { .. } => {},
        ValueModel::Binary(bs) => {},
        ValueModel::Integer32LE(x) => {
            lemma_u32_le_round_trip(x);
        },
        ValueModel::Integer32BE(x) => {
            lemma_u32_be_round_trip(x);
        },
        ValueModel::SymbolicLink(ws) => {
            lemma_text_payload_round_trip(ws);
        },
        ValueModel::TextList(ss) => {
            let us = list_units(ss);
            lemma_wide_to_bytes_len(us);
            lemma_wide_round_trip(us);
            lemma_text_list_round_trip(ss);
        },
        ValueModel::ResourceList(bs) => {},
        ValueModel::FullResourceDescriptor(bs) => {},
        ValueModel::ResourceRequirementsList(bs) => {},
        ValueModel::Integer64LE(x) => {
            lemma_u64_le_round_trip(x);
        },
    }
}

/// Stripping the terminator off a decoded text payload restores the units
/// that were encoded.
proof fn lemma_text_payload_round_trip(ws: Seq<u16>)
    ensures
        wide_to_bytes(ws.push(0)).len() % 2 == 0,
        strip_terminator(bytes_to_wide(wide_to_bytes(ws.push(0)))) == ws,
{
    lemma_wide_to_bytes_len(ws.push(0));
    lemma_wide_round_trip(ws.push(0));
    assert(ws.push(0).last() == 0);
    assert(strip_terminator(ws.push(0)) =~= ws);
}

/// Copies a byte slice into a vector.
fn slice_to_vec(bs: &[u8]) -> (r: Vec<u8>)
    ensures
        r@ == bs@,
{
    let mut r: Vec<u8> = Vec::new();
    let mut i: usize = 0;
    while i < bs.len()
        invariant
            i <= bs@.len(),
            r@ == bs@.take(i as int),
        decreases bs@.len() - i,
    {
        r.push(bs[i]);
        proof {
            assert(bs@.take(i as int).push(bs@[i as int]) =~= bs@.take(i as int + 1));
        }
        i = i + 1;
    }
    proof {
        assert(bs@.take(bs@.len() as int) =~= bs@);
    }
    r
}

} // verus!

//! Byte encodings of fixed-width unsigned integers, written and read through `byteorder`.

use vstd::prelude::*;
use byteorder::{BigEndian, ByteOrder, LittleEndian};
use crate::io::binary::traits::Endian;

verus! {

/// Little-endian bytes of a `u16`.
pub open spec fn le2(v: u16) -> Seq<u8> {
    seq![v as u8, (v >> 8u16) as u8]
}

/// Little-endian bytes of a `u32`.
pub open spec fn le4(v: u32) -> Seq<u8> {
    seq![v as u8, (v >> 8u32) as u8, (v >> 16u32) as u8, (v >> 24u32) as u8]
}

/// Little-endian bytes of a `u64`.
pub open spec fn le8(v: u64) -> Seq<u8> {
    seq![v as u8, (v >> 8u64) as u8, (v >> 16u64) as u8, (v >> 24u64) as u8,
        (v >> 32u64) as u8, (v >> 40u64) as u8, (v >> 48u64) as u8, (v >> 56u64) as u8]
}

/// The `u16` whose little-endian bytes start `s`.
pub open spec fn from_le2(s: Seq<u8>) -> u16 {
    (s[0] as u16) | ((s[1] as u16) << 8u16)
}

/// The `u32` whose little-endian bytes start `s`.
pub open spec fn from_le4(s: Seq<u8>) -> u32 {
    (s[0] as u32) | ((s[1] as u32) << 8u32) | ((s[2] as u32) << 16u32) | ((s[3] as u32) << 24u32)
}

/// The `u64` whose little-endian bytes start `s`.
pub open spec fn from_le8(s: Seq<u8>) -> u64 {
    (s[0] as u64) | ((s[1] as u64) << 8u64) | ((s[2] as u64) << 16u64) | ((s[3] as u64) << 24u64)
        | ((s[4] as u64) << 32u64) | ((s[5] as u64) << 40u64) | ((s[6] as u64) << 48u64)
        | ((s[7] as u64) << 56u64)
}

/// Bytes of a `u16` in the given byte order.
pub open spec fn encode2(v: u16, e: Endian) -> Seq<u8> {
    match e {
        Endian::Little => le2(v),
        Endian::Big => le2(v).reverse(),
    }
}

/// Bytes of a `u32` in the given byte order.
pub open spec fn encode4(v: u32, e: Endian) -> Seq<u8> {
    match e {
        Endian::Little => le4(v),
        Endian::Big => le4(v).reverse(),
    }
}

/// Bytes of a `u64` in the given byte order.
pub open spec fn encode8(v: u64, e: Endian) -> Seq<u8> {
    match e {
        Endian::Little => le8(v),
        Endian::Big => le8(v).reverse(),
    }
}

/// The `u16` whose bytes in the given order start `s`.
pub open spec fn decode2(s: Seq<u8>, e: Endian) -> u16 {
    match e {
        Endian::Little => from_le2(s),
        Endian::Big => from_le2(s.take(2).reverse()),
    }
}

/// The `u32` whose bytes in the given order start `s`.
pub open spec fn decode4(s: Seq<u8>, e: Endian) -> u32 {
    match e {
        Endian::Little => from_le4(s),
        Endian::Big => from_le4(s.take(4).reverse()),
    }
}

/// The `u64` whose bytes in the given order start `s`.
pub open spec fn decode8(s: Seq<u8>, e: Endian) -> u64 {
    match e {
        Endian::Little => from_le8(s),
        Endian::Big => from_le8(s.take(8).reverse()),
    }
}

/// Decoding a `u16` looks at the first 2 bytes only.
pub proof fn lemma_decode2_prefix(s: Seq<u8>, rest: Seq<u8>, e: Endian)
    requires
        s.len() >= 2,
    ensures
        decode2(s + rest, e) == decode2(s, e),
{
    assert((s + rest).take(2) =~= s.take(2));
    assert((s + rest)[0] == s[0] && (s + rest)[1] == s[1]);
}

/// Decoding a `u32` looks at the first 4 bytes only.
pub proof fn lemma_decode4_prefix(s: Seq<u8>, rest: Seq<u8>, e: Endian)
    requires
        s.len() >= 4,
    ensures
        decode4(s + rest, e) == decode4(s, e),
{
    assert((s + rest).take(4) =~= s.take(4));
    assert((s + rest)[0] == s[0] && (s + rest)[1] == s[1] && (s + rest)[2] == s[2] && (s + rest)[3] == s[3]);
}

/// Decoding a `u64` looks at the first 8 bytes only.
pub proof fn lemma_decode8_prefix(s: Seq<u8>, rest: Seq<u8>, e: Endian)
    requires
        s.len() >= 8,
    ensures
        decode8(s + rest, e) == decode8(s, e),
{
    assert((s + rest).take(8) =~= s.take(8));
    assert forall|i: int| 0 <= i < 8 implies (s + rest)[i] == s[i] by {}
    assert((s + rest)[0] == s[0] && (s + rest)[1] == s[1] && (s + rest)[2] == s[2] && (s + rest)[3] == s[3]);
    assert((s + rest)[4] == s[4] && (s + rest)[5] == s[5] && (s + rest)[6] == s[6] && (s + rest)[7] == s[7]);
}

/// Decoding the encoding of a value gives the value back; encoding the value decoded from bytes
/// gives those bytes back.
pub proof fn lemma_roundtrip2(v: u16, s: Seq<u8>, e: Endian)
    ensures
        decode2(encode2(v, e), e) == v,
        encode2(v, e).len() == 2,
        s.len() >= 2 ==> encode2(decode2(s, e), e) == s.take(2),
{
    let b0 = v as u8;
    let b1 = (v >> 8u16) as u8;
    assert(((b0 as u16) | ((b1 as u16) << 8u16)) == v) by (bit_vector)
        requires b0 == v as u8, b1 == (v >> 8u16) as u8;
    assert(le2(v).reverse().take(2).reverse() =~= le2(v));
    if s.len() >= 2 {
        let t = match e { Endian::Little => s, Endian::Big => s.take(2).reverse() };
        let (c0, c1) = (t[0], t[1]);
        let w = (c0 as u16) | ((c1 as u16) << 8u16);
        assert(w as u8 == c0 && (w >> 8u16) as u8 == c1) by (bit_vector)
            requires w == (c0 as u16) | ((c1 as u16) << 8u16);
        assert(le2(w) =~= t.take(2));
        assert(s.take(2).reverse().take(2) =~= s.take(2).reverse());
        assert(s.take(2).reverse().reverse() =~= s.take(2));
    }
}

/// Decoding the encoding of a value gives the value back; encoding the value decoded from bytes
/// gives those bytes back.
pub proof fn lemma_roundtrip4(v: u32, s: Seq<u8>, e: Endian)
    ensures
        decode4(encode4(v, e), e) == v,
        encode4(v, e).len() == 4,
        s.len() >= 4 ==> encode4(decode4(s, e), e) == s.take(4),
{
    let (b0, b1, b2, b3) = (v as u8, (v >> 8u32) as u8, (v >> 16u32) as u8, (v >> 24u32) as u8);
    assert((b0 as u32) | ((b1 as u32) << 8u32) | ((b2 as u32) << 16u32) | ((b3 as u32) << 24u32) == v) by (bit_vector)
        requires b0 == v as u8, b1 == (v >> 8u32) as u8, b2 == (v >> 16u32) as u8, b3 == (v >> 24u32) as u8;
    assert(le4(v).reverse().take(4).reverse() =~= le4(v));
    if s.len() >= 4 {
        let t = match e { Endian::Little => s, Endian::Big => s.take(4).reverse() };
        let (c0, c1, c2, c3) = (t[0], t[1], t[2], t[3]);
        let w = (c0 as u32) | ((c1 as u32) << 8u32) | ((c2 as u32) << 16u32) | ((c3 as u32) << 24u32);
        assert(w as u8 == c0 && (w >> 8u32) as u8 == c1 && (w >> 16u32) as u8 == c2 && (w >> 24u32) as u8 == c3) by (bit_vector)
            requires w == (c0 as u32) | ((c1 as u32) << 8u32) | ((c2 as u32) << 16u32) | ((c3 as u32) << 24u32);
        assert(le4(w) =~= t.take(4));
        assert(s.take(4).reverse().take(4) =~= s.take(4).reverse());
        assert(s.take(4).reverse().reverse() =~= s.take(4));
    }
}

/// Decoding the encoding of a value gives the value back; encoding the value decoded from bytes
/// gives those bytes back.
pub proof fn lemma_roundtrip8(v: u64, s: Seq<u8>, e: Endian)
    ensures
        decode8(encode8(v, e), e) == v,
        encode8(v, e).len() == 8,
        s.len() >= 8 ==> encode8(decode8(s, e), e) == s.take(8),
{
    let (b0, b1, b2, b3) = (v as u8, (v >> 8u64) as u8, (v >> 16u64) as u8, (v >> 24u64) as u8);
    let (b4, b5, b6, b7) = ((v >> 32u64) as u8, (v >> 40u64) as u8, (v >> 48u64) as u8, (v >> 56u64) as u8);
    assert((b0 as u64) | ((b1 as u64) << 8u64) | ((b2 as u64) << 16u64) | ((b3 as u64) << 24u64)
        | ((b4 as u64) << 32u64) | ((b5 as u64) << 40u64) | ((b6 as u64) << 48u64)
        | ((b7 as u64) << 56u64) == v) by (bit_vector)
        requires b0 == v as u8, b1 == (v >> 8u64) as u8, b2 == (v >> 16u64) as u8, b3 == (v >> 24u64) as u8,
            b4 == (v >> 32u64) as u8, b5 == (v >> 40u64) as u8, b6 == (v >> 48u64) as u8, b7 == (v >> 56u64) as u8;
    assert(le8(v).reverse().take(8).reverse() =~= le8(v));
    if s.len() >= 8 {
        let t = match e { Endian::Little => s, Endian::Big => s.take(8).reverse() };
        let (c0, c1, c2, c3, c4, c5, c6, c7) = (t[0], t[1], t[2], t[3], t[4], t[5], t[6], t[7]);
        let w = (c0 as u64) | ((c1 as u64) << 8u64) | ((c2 as u64) << 16u64) | ((c3 as u64) << 24u64)
            | ((c4 as u64) << 32u64) | ((c5 as u64) << 40u64) | ((c6 as u64) << 48u64)
            | ((c7 as u64) << 56u64);
        assert(w as u8 == c0 && (w >> 8u64) as u8 == c1 && (w >> 16u64) as u8 == c2 && (w >> 24u64) as u8 == c3
            && (w >> 32u64) as u8 == c4 && (w >> 40u64) as u8 == c5 && (w >> 48u64) as u8 == c6
            && (w >> 56u64) as u8 == c7) by (bit_vector)
            requires w == (c0 as u64) | ((c1 as u64) << 8u64) | ((c2 as u64) << 16u64) | ((c3 as u64) << 24u64)
                | ((c4 as u64) << 32u64) | ((c5 as u64) << 40u64) | ((c6 as u64) << 48u64)
                | ((c7 as u64) << 56u64);
        assert(le8(w) =~= t.take(8));
        assert(s.take(8).reverse().take(8) =~= s.take(8).reverse());
        assert(s.take(8).reverse().reverse() =~= s.take(8));
    }
}

/// Writes `n` in little-endian order with `byteorder`'s `LittleEndian::write_u16`, which the
/// crate documents (and implements with `to_le_bytes`) as storing the little-endian bytes.
#[verifier::external_body]
fn write_u16_le(n: u16) -> (b: [u8; 2])
    ensures
        b@ == le2(n),
{
    let mut b = [0u8; 2];
    LittleEndian::write_u16(&mut b, n);
    b
}

/// Writes `n` in big-endian order with `byteorder`'s `BigEndian::write_u16`: the little-endian
/// bytes reversed.
#[verifier::external_body]
fn write_u16_be(n: u16) -> (b: [u8; 2])
    ensures
        b@ == le2(n).reverse(),
{
    let mut b = [0u8; 2];
    BigEndian::write_u16(&mut b, n);
    b
}

/// Writes `n` in little-endian order with `byteorder`'s `LittleEndian::write_u32`.
#[verifier::external_body]
fn write_u32_le(n: u32) -> (b: [u8; 4])
    ensures
        b@ == le4(n),
{
    let mut b = [0u8; 4];
    LittleEndian::write_u32(&mut b, n);
    b
}

/// Writes `n` in big-endian order with `byteorder`'s `BigEndian::write_u32`.
#[verifier::external_body]
fn write_u32_be(n: u32) -> (b: [u8; 4])
    ensures
        b@ == le4(n).reverse(),
{
    let mut b = [0u8; 4];
    BigEndian::write_u32(&mut b, n);
    b
}

/// Writes `n` in little-endian order with `byteorder`'s `LittleEndian::write_u64`.
#[verifier::external_body]
fn write_u64_le(n: u64) -> (b: [u8; 8])
    ensures
        b@ == le8(n),
{
    let mut b = [0u8; 8];
    LittleEndian::write_u64(&mut b, n);
    b
}

/// Writes `n` in big-endian order with `byteorder`'s `BigEndian::write_u64`.
#[verifier::external_body]
fn write_u64_be(n: u64) -> (b: [u8; 8])
    ensures
        b@ == le8(n).reverse(),
{
    let mut b = [0u8; 8];
    BigEndian::write_u64(&mut b, n);
    b
}

/// Reads a little-endian `u16` from the first 2 bytes with `byteorder`'s
/// `LittleEndian::read_u16`, which panics on fewer bytes.
#[verifier::external_body]
fn read_u16_le(buf: &[u8]) -> (n: u16)
    requires
        buf@.len() >= 2,
    ensures
        n == from_le2(buf@),
{
    LittleEndian::read_u16(buf)
}

/// Reads a big-endian `u16` from the first 2 bytes with `byteorder`'s `BigEndian::read_u16`.
#[verifier::external_body]
fn read_u16_be(buf: &[u8]) -> (n: u16)
    requires
        buf@.len() >= 2,
    ensures
        n == from_le2(buf@.take(2).reverse()),
{
    BigEndian::read_u16(buf)
}

/// Reads a little-endian `u32` from the first 4 bytes with `byteorder`'s
/// `LittleEndian::read_u32`.
#[verifier::external_body]
fn read_u32_le(buf: &[u8]) -> (n: u32)
    requires
        buf@.len() >= 4,
    ensures
        n == from_le4(buf@),
{
    LittleEndian::read_u32(buf)
}

/// Reads a big-endian `u32` from the first 4 bytes with `byteorder`'s `BigEndian::read_u32`.
#[verifier::external_body]
fn read_u32_be(buf: &[u8]) -> (n: u32)
    requires
        buf@.len() >= 4,
    ensures
        n == from_le4(buf@.take(4).reverse()),
{
    BigEndian::read_u32(buf)
}

/// Reads a little-endian `u64` from the first 8 bytes with `byteorder`'s
/// `LittleEndian::read_u64`.
#[verifier::external_body]
fn read_u64_le(buf: &[u8]) -> (n: u64)
    requires
        buf@.len() >= 8,
    ensures
        n == from_le8(buf@),
{
    LittleEndian::read_u64(buf)
}

/// Reads a big-endian `u64` from the first 8 bytes with `byteorder`'s `BigEndian::read_u64`.
#[verifier::external_body]
fn read_u64_be(buf: &[u8]) -> (n: u64)
    requires
        buf@.len() >= 8,
    ensures
        n == from_le8(buf@.take(8).reverse()),
{
    BigEndian::read_u64(buf)
}

/// Appends the bytes of `n` in byte order `e`.
pub fn put_u16(out: &mut Vec<u8>, n: u16, e: Endian)
    ensures
        final(out)@ == old(out)@ + encode2(n, e),
{
    let b = match e {
        Endian::Little => write_u16_le(n),
        Endian::Big => write_u16_be(n),
    };
    out.push(b[0]);
    out.push(b[1]);
    assert(final(out)@ =~= old(out)@ + encode2(n, e)) by {
        assert(b@ == encode2(n, e));
    }
}

/// Appends the bytes of `n` in byte order `e`.
pub fn put_u32(out: &mut Vec<u8>, n: u32, e: Endian)
    ensures
        final(out)@ == old(out)@ + encode4(n, e),
{
    let b = match e {
        Endian::Little => write_u32_le(n),
        Endian::Big => write_u32_be(n),
    };
    let mut i: usize = 0;
    let ghost start = out@;
    while i < 4
        invariant
            i <= 4,
            b@ == encode4(n, e),
            out@ == start + b@.take(i as int),
        decreases 4 - i,
    {
        out.push(b[i]);
        i = i + 1;
        assert(out@ =~= start + b@.take(i as int));
    }
    assert(b@.take(4) =~= b@);
}

/// Appends the bytes of `n` in byte order `e`.
pub fn put_u64(out: &mut Vec<u8>, n: u64, e: Endian)
    ensures
        final(out)@ == old(out)@ + encode8(n, e),
{
    let b = match e {
        Endian::Little => write_u64_le(n),
        Endian::Big => write_u64_be(n),
    };
    let mut i: usize = 0;
    let ghost start = out@;
    while i < 8
        invariant
            i <= 8,
            b@ == encode8(n, e),
            out@ == start + b@.take(i as int),
        decreases 8 - i,
    {
        out.push(b[i]);
        i = i + 1;
        assert(out@ =~= start + b@.take(i as int));
    }
    assert(b@.take(8) =~= b@);
}

/// Reads a `u16` in byte order `e` from the first 2 bytes of `input`.
pub fn get_u16(input: &[u8], e: Endian) -> (n: u16)
    requires
        input@.len() >= 2,
    ensures
        n == decode2(input@, e),
{
    match e {
        Endian::Little => read_u16_le(input),
        Endian::Big => read_u16_be(input),
    }
}

/// Reads a `u32` in byte order `e` from the first 4 bytes of `input`.
pub fn get_u32(input: &[u8], e: Endian) -> (n: u32)
    requires
        input@.len() >= 4,
    ensures
        n == decode4(input@, e),
{
    match e {
        Endian::Little => read_u32_le(input),
        Endian::Big => read_u32_be(input),
    }
}

/// Reads a `u64` in byte order `e` from the first 8 bytes of `input`.
pub fn get_u64(input: &[u8], e: Endian) -> (n: u64)
    requires
        input@.len() >= 8,
    ensures
        n == decode8(input@, e),
{
    match e {
        Endian::Little => read_u64_le(input),
        Endian::Big => read_u64_be(input),
    }
}

}

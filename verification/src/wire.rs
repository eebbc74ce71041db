//! The mathematical model of the wire format.
//!
//! Every construct is laid out big-endian (most-significant byte first) with a
//! fixed width.  A boolean is one byte restricted to {0, 1}.  Signed integers
//! travel as the two's-complement bit pattern of the unsigned integer of the
//! same width.  The spec functions here say, byte for byte, what each
//! primitive's encoding is and what value a given byte sequence decodes to;
//! the round-trip lemmas state that decoding an encoding yields the value
//! back.

use vstd::prelude::*;

verus! {

/// The single byte that encodes a boolean.
pub open spec fn bool_byte(v: bool) -> u8 {
    if v {
        1
    } else {
        0
    }
}

/// Whether a byte lies in the boolean domain {0, 1}.
pub open spec fn byte_is_bool(b: u8) -> bool {
    b == 0 || b == 1
}

/// The boolean a byte in the boolean domain decodes to.
pub open spec fn byte_to_bool(b: u8) -> bool
    recommends
        byte_is_bool(b),
{
    b == 1
}

/// Encoding of a boolean: one byte.
pub open spec fn bool_be(v: bool) -> Seq<u8> {
    seq![bool_byte(v)]
}

/// Encoding of an 8-bit unsigned integer: the byte itself.
pub open spec fn u8_be(v: u8) -> Seq<u8> {
    seq![v]
}

/// The 8-bit unsigned integer one byte decodes to.
pub open spec fn be_to_u8(s: Seq<u8>) -> u8
    recommends
        s.len() == 1,
{
    s[0]
}

/// The byte carrying the two's-complement bit pattern of an 8-bit signed
/// integer.
pub open spec fn i8_byte(v: i8) -> u8 {
    if v >= 0 {
        v as u8
    } else {
        (v + 256) as u8
    }
}

/// The 8-bit signed integer whose two's-complement bit pattern a byte holds.
pub open spec fn byte_to_i8(b: u8) -> i8 {
    if b < 128 {
        b as i8
    } else {
        (b - 256) as i8
    }
}

/// Encoding of an 8-bit signed integer: one byte.
pub open spec fn i8_be(v: i8) -> Seq<u8> {
    seq![i8_byte(v)]
}

/// The 8-bit signed integer one byte decodes to.
pub open spec fn be_to_i8(s: Seq<u8>) -> i8
    recommends
        s.len() == 1,
{
    byte_to_i8(s[0])
}

/// Big-endian encoding of a 16-bit unsigned integer.
pub open spec fn u16_be(v: u16) -> Seq<u8> {
    seq![((v >> 8) & 0xff) as u8, (v & 0xff) as u8]
}

/// The 16-bit unsigned integer two big-endian bytes decode to.
pub open spec fn be_to_u16(s: Seq<u8>) -> u16
    recommends
        s.len() == 2,
{
    ((s[0] as u16) << 8) | (s[1] as u16)
}

/// Big-endian encoding of a 32-bit unsigned integer.
pub open spec fn u32_be(v: u32) -> Seq<u8> {
    seq![
        ((v >> 24) & 0xff) as u8,
        ((v >> 16) & 0xff) as u8,
        ((v >> 8) & 0xff) as u8,
        (v & 0xff) as u8,
    ]
}

/// The 32-bit unsigned integer four big-endian bytes decode to.
pub open spec fn be_to_u32(s: Seq<u8>) -> u32
    recommends
        s.len() == 4,
{
    ((s[0] as u32) << 24) | ((s[1] as u32) << 16) | ((s[2] as u32) << 8) | (s[3] as u32)
}

/// Big-endian encoding of a 64-bit unsigned integer.
pub open spec fn u64_be(v: u64) -> Seq<u8> {
    seq![
        ((v >> 56) & 0xff) as u8,
        ((v >> 48) & 0xff) as u8,
        ((v >> 40) & 0xff) as u8,
        ((v >> 32) & 0xff) as u8,
        ((v >> 24) & 0xff) as u8,
        ((v >> 16) & 0xff) as u8,
        ((v >> 8) & 0xff) as u8,
        (v & 0xff) as u8,
    ]
}

/// The 64-bit unsigned integer eight big-endian bytes decode to.
pub open spec fn be_to_u64(s: Seq<u8>) -> u64
    recommends
        s.len() == 8,
{
    ((s[0] as u64) << 56) | ((s[1] as u64) << 48) | ((s[2] as u64) << 40) | ((s[3] as u64) << 32)
        | ((s[4] as u64) << 24) | ((s[5] as u64) << 16) | ((s[6] as u64) << 8) | (s[7] as u64)
}

/// The unsigned 16-bit integer carrying the two's-complement bit pattern of a
/// signed one.
pub open spec fn i16_bits(v: i16) -> u16 {
    if v >= 0 {
        v as u16
    } else {
        (v + 0x10000) as u16
    }
}

/// The signed 16-bit integer whose two's-complement bit pattern an unsigned
/// one carries.
pub open spec fn bits_to_i16(u: u16) -> i16 {
    if u < 0x8000 {
        u as i16
    } else {
        (u - 0x10000) as i16
    }
}

/// Big-endian encoding of a 16-bit signed integer.
pub open spec fn i16_be(v: i16) -> Seq<u8> {
    u16_be(i16_bits(v))
}

/// The 16-bit signed integer two big-endian bytes decode to.
pub open spec fn be_to_i16(s: Seq<u8>) -> i16
    recommends
        s.len() == 2,
{
    bits_to_i16(be_to_u16(s))
}

/// The unsigned 32-bit integer carrying the two's-complement bit pattern of a
/// signed one.
pub open spec fn i32_bits(v: i32) -> u32 {
    if v >= 0 {
        v as u32
    } else {
        (v + 0x1_0000_0000) as u32
    }
}

/// The signed 32-bit integer whose two's-complement bit pattern an unsigned
/// one carries.
pub open spec fn bits_to_i32(u: u32) -> i32 {
    if u < 0x8000_0000 {
        u as i32
    } else {
        (u - 0x1_0000_0000) as i32
    }
}

/// Big-endian encoding of a 32-bit signed integer.
pub open spec fn i32_be(v: i32) -> Seq<u8> {
    u32_be(i32_bits(v))
}

/// The 32-bit signed integer four big-endian bytes decode to.
pub open spec fn be_to_i32(s: Seq<u8>) -> i32
    recommends
        s.len() == 4,
{
    bits_to_i32(be_to_u32(s))
}

/// The unsigned 64-bit integer carrying the two's-complement bit pattern of a
/// signed one.
pub open spec fn i64_bits(v: i64) -> u64 {
    if v >= 0 {
        v as u64
    } else {
        (v + 0x1_0000_0000_0000_0000) as u64
    }
}

/// The signed 64-bit integer whose two's-complement bit pattern an unsigned
/// one carries.
pub open spec fn bits_to_i64(u: u64) -> i64 {
    if u < 0x8000_0000_0000_0000 {
        u as i64
    } else {
        (u - 0x1_0000_0000_0000_0000) as i64
    }
}

/// Big-endian encoding of a 64-bit signed integer.
pub open spec fn i64_be(v: i64) -> Seq<u8> {
    u64_be(i64_bits(v))
}

/// The 64-bit signed integer eight big-endian bytes decode to.
pub open spec fn be_to_i64(s: Seq<u8>) -> i64
    recommends
        s.len() == 8,
{
    bits_to_i64(be_to_u64(s))
}

/// Decoding the encoding of a boolean yields the boolean back.
pub proof fn lemma_bool_round_trip(v: bool)
    ensures
        byte_is_bool(bool_byte(v)),
        byte_to_bool(be_to_u8(bool_be(v))) == v,
{
}

/// Decoding the encoding of an 8-bit unsigned integer yields the value back.
pub proof fn lemma_u8_round_trip(v: u8)
    ensures
        be_to_u8(u8_be(v)) == v,
{
}

/// Decoding the encoding of an 8-bit signed integer yields the value back.
pub proof fn lemma_i8_round_trip(v: i8)
    ensures
        be_to_i8(i8_be(v)) == v,
{
}

/// Decoding the encoding of a 16-bit unsigned integer yields the value back.
pub proof fn lemma_u16_round_trip(v: u16)
    ensures
        be_to_u16(u16_be(v)) == v,
{
    assert(((((v >> 8) & 0xff) as u8 as u16) << 8 | ((v & 0xff) as u8 as u16)) == v)
        by (bit_vector);
}

/// Decoding the encoding of a 32-bit unsigned integer yields the value back.
pub proof fn lemma_u32_round_trip(v: u32)
    ensures
        be_to_u32(u32_be(v)) == v,
{
    assert(((((v >> 24) & 0xff) as u8 as u32) << 24 | (((v >> 16) & 0xff) as u8 as u32) << 16 | (((
    v >> 8) & 0xff) as u8 as u32) << 8 | ((v & 0xff) as u8 as u32)) == v) by (bit_vector);
}

/// Decoding the encoding of a 64-bit unsigned integer yields the value back.
pub proof fn lemma_u64_round_trip(v: u64)
    ensures
        be_to_u64(u64_be(v)) == v,
{
    assert(((((v >> 56) & 0xff) as u8 as u64) << 56 | (((v >> 48) & 0xff) as u8 as u64) << 48 | (((
    v >> 40) & 0xff) as u8 as u64) << 40 | (((v >> 32) & 0xff) as u8 as u64) << 32 | (((v >> 24)
        & 0xff) as u8 as u64) << 24 | (((v >> 16) & 0xff) as u8 as u64) << 16 | (((v >> 8)
        & 0xff) as u8 as u64) << 8 | ((v & 0xff) as u8 as u64)) == v) by (bit_vector);
}

/// Recovering a 16-bit signed integer from its bit pattern yields the value
/// back.
pub proof fn lemma_i16_bits_round_trip(v: i16)
    ensures
        bits_to_i16(i16_bits(v)) == v,
{
}

/// Decoding the encoding of a 16-bit signed integer yields the value back.
pub proof fn lemma_i16_round_trip(v: i16)
    ensures
        be_to_i16(i16_be(v)) == v,
{
    lemma_u16_round_trip(i16_bits(v));
    lemma_i16_bits_round_trip(v);
}

/// Recovering a 32-bit signed integer from its bit pattern yields the value
/// back.
pub proof fn lemma_i32_bits_round_trip(v: i32)
    ensures
        bits_to_i32(i32_bits(v)) == v,
{
}

/// Decoding the encoding of a 32-bit signed integer yields the value back.
pub proof fn lemma_i32_round_trip(v: i32)
    ensures
        be_to_i32(i32_be(v)) == v,
{
    lemma_u32_round_trip(i32_bits(v));
    lemma_i32_bits_round_trip(v);
}

/// Recovering a 64-bit signed integer from its bit pattern yields the value
/// back.
pub proof fn lemma_i64_bits_round_trip(v: i64)
    ensures
        bits_to_i64(i64_bits(v)) == v,
{
}

/// Decoding the encoding of a 64-bit signed integer yields the value back.
pub proof fn lemma_i64_round_trip(v: i64)
    ensures
        be_to_i64(i64_be(v)) == v,
{
    lemma_u64_round_trip(i64_bits(v));
    lemma_i64_bits_round_trip(v);
}

} // verus!

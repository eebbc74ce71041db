//! Root encode and decode calls.
//!
//! A root encode call binds one encoder to one caller-owned buffer, drives
//! the value's visit routine, and reports the total bytes consumed; leftover
//! capacity is fine.  A root decode call binds one decoder to one input
//! buffer, drives the type's visit routine, and then demands that the input
//! be exactly exhausted: leftover bytes fail with [`DeError::BufferLarge`],
//! so an over-long buffer that happens to contain a valid prefix is never
//! accepted silently.
//!
//! The wire format is not self-describing, so each root call is written per
//! type; one pair stands here for every supported primitive shape, for the
//! optional value, and for the tagged union [`E`].

use vstd::prelude::*;

use crate::adapters::deserialize_e;
use crate::adapters::deserialize_option_u32;
use crate::adapters::e_from_bytes;
use crate::adapters::option_u32_from_bytes;
use crate::adapters::serialize_e;
use crate::adapters::serialize_option_u32;
use crate::adapters::E;
use crate::adapters::e_bytes;
use crate::adapters::option_u32_bytes;
use crate::de::Deserializer;
use crate::error::DeError;
use crate::error::DeResult;
use crate::error::SerError;
use crate::error::SerResult;
use crate::ser::Serializer;
use crate::wire::be_to_i16;
use crate::wire::be_to_i32;
use crate::wire::be_to_i64;
use crate::wire::be_to_u16;
use crate::wire::be_to_u32;
use crate::wire::be_to_u64;
use crate::wire::bool_be;
use crate::wire::byte_is_bool;
use crate::wire::byte_to_bool;
use crate::wire::byte_to_i8;
use crate::wire::i16_be;
use crate::wire::i32_be;
use crate::wire::i64_be;
use crate::wire::i8_be;
use crate::wire::u16_be;
use crate::wire::u32_be;
use crate::wire::u64_be;
use crate::wire::u8_be;

verus! {

/// Encode a boolean into the buffer; report the bytes consumed.
pub fn to_bytes_bool(bytes: &mut Vec<u8>, value: bool) -> (r: SerResult<usize>)
    ensures
        final(bytes)@.len() == old(bytes)@.len(),
        r is Ok <==> 1 <= old(bytes)@.len(),
        r is Ok ==> r == SerResult::<usize>::Ok(1) && final(bytes)@.take(1) == bool_be(value)
            && final(bytes)@.skip(1) == old(bytes)@.skip(1),
        r is Err ==> r == SerResult::<usize>::Err(SerError::Overflow) && final(bytes)@ == old(
            bytes,
        )@,
{
    let mut buf: Vec<u8> = Vec::new();
    core::mem::swap(&mut buf, bytes);
    let mut s = Serializer::new(buf);
    let res = s.serialize_bool(value);
    let n = s.bytes_written();
    *bytes = s.into_buffer();
    match res {
        Ok(()) => Ok(n),
        Err(e) => Err(e),
    }
}

/// Decode a boolean from the whole buffer, which must be exactly exhausted.
pub fn from_bytes_bool(bytes: Vec<u8>) -> (r: DeResult<bool>)
    ensures
        bytes@.len() == 0 ==> r == DeResult::<bool>::Err(DeError::BufferSmall),
        bytes@.len() >= 1 && !byte_is_bool(bytes@[0]) ==> r == DeResult::<bool>::Err(
            DeError::ExpectedBoolean,
        ),
        bytes@.len() > 1 && byte_is_bool(bytes@[0]) ==> r == DeResult::<bool>::Err(
            DeError::BufferLarge,
        ),
        bytes@.len() == 1 && byte_is_bool(bytes@[0]) ==> r == DeResult::<bool>::Ok(
            byte_to_bool(bytes@[0]),
        ),
{
    let mut d = Deserializer::from_bytes(bytes);
    match d.consume_bool() {
        Err(e) => Err(e),
        Ok(v) => {
            match d.end() {
                Err(e) => Err(e),
                Ok(()) => Ok(v),
            }
        },
    }
}

/// Encode an 8-bit unsigned integer into the buffer.
pub fn to_bytes_u8(bytes: &mut Vec<u8>, value: u8) -> (r: SerResult<usize>)
    ensures
        final(bytes)@.len() == old(bytes)@.len(),
        r is Ok <==> 1 <= old(bytes)@.len(),
        r is Ok ==> r == SerResult::<usize>::Ok(1) && final(bytes)@.take(1) == u8_be(value)
            && final(bytes)@.skip(1) == old(bytes)@.skip(1),
        r is Err ==> r == SerResult::<usize>::Err(SerError::Overflow) && final(bytes)@ == old(
            bytes,
        )@,
{
    let mut buf: Vec<u8> = Vec::new();
    core::mem::swap(&mut buf, bytes);
    let mut s = Serializer::new(buf);
    let res = s.serialize_u8(value);
    let n = s.bytes_written();
    *bytes = s.into_buffer();
    match res {
        Ok(()) => Ok(n),
        Err(e) => Err(e),
    }
}

/// Decode an 8-bit unsigned integer from the whole buffer.
pub fn from_bytes_u8(bytes: Vec<u8>) -> (r: DeResult<u8>)
    ensures
        bytes@.len() < 1 ==> r == DeResult::<u8>::Err(DeError::BufferSmall),
        bytes@.len() > 1 ==> r == DeResult::<u8>::Err(DeError::BufferLarge),
        bytes@.len() == 1 ==> r == DeResult::<u8>::Ok(bytes@[0]),
{
    let mut d = Deserializer::from_bytes(bytes);
    match d.consume_u8() {
        Err(e) => Err(e),
        Ok(v) => {
            match d.end() {
                Err(e) => Err(e),
                Ok(()) => Ok(v),
            }
        },
    }
}

/// Encode an 8-bit signed integer into the buffer.
pub fn to_bytes_i8(bytes: &mut Vec<u8>, value: i8) -> (r: SerResult<usize>)
    ensures
        final(bytes)@.len() == old(bytes)@.len(),
        r is Ok <==> 1 <= old(bytes)@.len(),
        r is Ok ==> r == SerResult::<usize>::Ok(1) && final(bytes)@.take(1) == i8_be(value)
            && final(bytes)@.skip(1) == old(bytes)@.skip(1),
        r is Err ==> r == SerResult::<usize>::Err(SerError::Overflow) && final(bytes)@ == old(
            bytes,
        )@,
{
    let mut buf: Vec<u8> = Vec::new();
    core::mem::swap(&mut buf, bytes);
    let mut s = Serializer::new(buf);
    let res = s.serialize_i8(value);
    let n = s.bytes_written();
    *bytes = s.into_buffer();
    match res {
        Ok(()) => Ok(n),
        Err(e) => Err(e),
    }
}

/// Decode an 8-bit signed integer from the whole buffer.
pub fn from_bytes_i8(bytes: Vec<u8>) -> (r: DeResult<i8>)
    ensures
        bytes@.len() < 1 ==> r == DeResult::<i8>::Err(DeError::BufferSmall),
        bytes@.len() > 1 ==> r == DeResult::<i8>::Err(DeError::BufferLarge),
        bytes@.len() == 1 ==> r == DeResult::<i8>::Ok(byte_to_i8(bytes@[0])),
{
    let mut d = Deserializer::from_bytes(bytes);
    match d.consume_i8() {
        Err(e) => Err(e),
        Ok(v) => {
            match d.end() {
                Err(e) => Err(e),
                Ok(()) => Ok(v),
            }
        },
    }
}

/// Encode a 16-bit unsigned integer into the buffer.
pub fn to_bytes_u16(bytes: &mut Vec<u8>, value: u16) -> (r: SerResult<usize>)
    ensures
        final(bytes)@.len() == old(bytes)@.len(),
        r is Ok <==> 2 <= old(bytes)@.len(),
        r is Ok ==> r == SerResult::<usize>::Ok(2) && final(bytes)@.take(2) == u16_be(value)
            && final(bytes)@.skip(2) == old(bytes)@.skip(2),
        r is Err ==> r == SerResult::<usize>::Err(SerError::Overflow) && final(bytes)@ == old(
            bytes,
        )@,
{
    let mut buf: Vec<u8> = Vec::new();
    core::mem::swap(&mut buf, bytes);
    let mut s = Serializer::new(buf);
    let res = s.serialize_u16(value);
    let n = s.bytes_written();
    *bytes = s.into_buffer();
    match res {
        Ok(()) => Ok(n),
        Err(e) => Err(e),
    }
}

/// Decode a 16-bit unsigned integer from the whole buffer.
pub fn from_bytes_u16(bytes: Vec<u8>) -> (r: DeResult<u16>)
    ensures
        bytes@.len() < 2 ==> r == DeResult::<u16>::Err(DeError::BufferSmall),
        bytes@.len() > 2 ==> r == DeResult::<u16>::Err(DeError::BufferLarge),
        bytes@.len() == 2 ==> r == DeResult::<u16>::Ok(be_to_u16(bytes@)),
{
    let mut d = Deserializer::from_bytes(bytes);
    match d.consume_u16() {
        Err(e) => Err(e),
        Ok(v) => {
            proof {
                if d.input@.len() == 2 {
                    assert(d.input@.take(2) =~= d.input@);
                }
            }
            match d.end() {
                Err(e) => Err(e),
                Ok(()) => Ok(v),
            }
        },
    }
}

/// Encode a 16-bit signed integer into the buffer.
pub fn to_bytes_i16(bytes: &mut Vec<u8>, value: i16) -> (r: SerResult<usize>)
    ensures
        final(bytes)@.len() == old(bytes)@.len(),
        r is Ok <==> 2 <= old(bytes)@.len(),
        r is Ok ==> r == SerResult::<usize>::Ok(2) && final(bytes)@.take(2) == i16_be(value)
            && final(bytes)@.skip(2) == old(bytes)@.skip(2),
        r is Err ==> r == SerResult::<usize>::Err(SerError::Overflow) && final(bytes)@ == old(
            bytes,
        )@,
{
    let mut buf: Vec<u8> = Vec::new();
    core::mem::swap(&mut buf, bytes);
    let mut s = Serializer::new(buf);
    let res = s.serialize_i16(value);
    let n = s.bytes_written();
    *bytes = s.into_buffer();
    match res {
        Ok(()) => Ok(n),
        Err(e) => Err(e),
    }
}

/// Decode a 16-bit signed integer from the whole buffer.
pub fn from_bytes_i16(bytes: Vec<u8>) -> (r: DeResult<i16>)
    ensures
        bytes@.len() < 2 ==> r == DeResult::<i16>::Err(DeError::BufferSmall),
        bytes@.len() > 2 ==> r == DeResult::<i16>::Err(DeError::BufferLarge),
        bytes@.len() == 2 ==> r == DeResult::<i16>::Ok(be_to_i16(bytes@)),
{
    let mut d = Deserializer::from_bytes(bytes);
    match d.consume_i16() {
        Err(e) => Err(e),
        Ok(v) => {
            proof {
                if d.input@.len() == 2 {
                    assert(d.input@.take(2) =~= d.input@);
                }
            }
            match d.end() {
                Err(e) => Err(e),
                Ok(()) => Ok(v),
            }
        },
    }
}

/// Encode a 32-bit unsigned integer into the buffer.
pub fn to_bytes_u32(bytes: &mut Vec<u8>, value: u32) -> (r: SerResult<usize>)
    ensures
        final(bytes)@.len() == old(bytes)@.len(),
        r is Ok <==> 4 <= old(bytes)@.len(),
        r is Ok ==> r == SerResult::<usize>::Ok(4) && final(bytes)@.take(4) == u32_be(value)
            && final(bytes)@.skip(4) == old(bytes)@.skip(4),
        r is Err ==> r == SerResult::<usize>::Err(SerError::Overflow) && final(bytes)@ == old(
            bytes,
        )@,
{
    let mut buf: Vec<u8> = Vec::new();
    core::mem::swap(&mut buf, bytes);
    let mut s = Serializer::new(buf);
    let res = s.serialize_u32(value);
    let n = s.bytes_written();
    *bytes = s.into_buffer();
    match res {
        Ok(()) => Ok(n),
        Err(e) => Err(e),
    }
}

/// Decode a 32-bit unsigned integer from the whole buffer.
pub fn from_bytes_u32(bytes: Vec<u8>) -> (r: DeResult<u32>)
    ensures
        bytes@.len() < 4 ==> r == DeResult::<u32>::Err(DeError::BufferSmall),
        bytes@.len() > 4 ==> r == DeResult::<u32>::Err(DeError::BufferLarge),
        bytes@.len() == 4 ==> r == DeResult::<u32>::Ok(be_to_u32(bytes@)),
{
    let mut d = Deserializer::from_bytes(bytes);
    match d.consume_u32() {
        Err(e) => Err(e),
        Ok(v) => {
            proof {
                if d.input@.len() == 4 {
                    assert(d.input@.take(4) =~= d.input@);
                }
            }
            match d.end() {
                Err(e) => Err(e),
                Ok(()) => Ok(v),
            }
        },
    }
}

/// Encode a 32-bit signed integer into the buffer.
pub fn to_bytes_i32(bytes: &mut Vec<u8>, value: i32) -> (r: SerResult<usize>)
    ensures
        final(bytes)@.len() == old(bytes)@.len(),
        r is Ok <==> 4 <= old(bytes)@.len(),
        r is Ok ==> r == SerResult::<usize>::Ok(4) && final(bytes)@.take(4) == i32_be(value)
            && final(bytes)@.skip(4) == old(bytes)@.skip(4),
        r is Err ==> r == SerResult::<usize>::Err(SerError::Overflow) && final(bytes)@ == old(
            bytes,
        )@,
{
    let mut buf: Vec<u8> = Vec::new();
    core::mem::swap(&mut buf, bytes);
    let mut s = Serializer::new(buf);
    let res = s.serialize_i32(value);
    let n = s.bytes_written();
    *bytes = s.into_buffer();
    match res {
        Ok(()) => Ok(n),
        Err(e) => Err(e),
    }
}

/// Decode a 32-bit signed integer from the whole buffer.
pub fn from_bytes_i32(bytes: Vec<u8>) -> (r: DeResult<i32>)
    ensures
        bytes@.len() < 4 ==> r == DeResult::<i32>::Err(DeError::BufferSmall),
        bytes@.len() > 4 ==> r == DeResult::<i32>::Err(DeError::BufferLarge),
        bytes@.len() == 4 ==> r == DeResult::<i32>::Ok(be_to_i32(bytes@)),
{
    let mut d = Deserializer::from_bytes(bytes);
    match d.consume_i32() {
        Err(e) => Err(e),
        Ok(v) => {
            proof {
                if d.input@.len() == 4 {
                    assert(d.input@.take(4) =~= d.input@);
                }
            }
            match d.end() {
                Err(e) => Err(e),
                Ok(()) => Ok(v),
            }
        },
    }
}

/// Encode a 64-bit unsigned integer into the buffer.
pub fn to_bytes_u64(bytes: &mut Vec<u8>, value: u64) -> (r: SerResult<usize>)
    ensures
        final(bytes)@.len() == old(bytes)@.len(),
        r is Ok <==> 8 <= old(bytes)@.len(),
        r is Ok ==> r == SerResult::<usize>::Ok(8) && final(bytes)@.take(8) == u64_be(value)
            && final(bytes)@.skip(8) == old(bytes)@.skip(8),
        r is Err ==> r == SerResult::<usize>::Err(SerError::Overflow) && final(bytes)@ == old(
            bytes,
        )@,
{
    let mut buf: Vec<u8> = Vec::new();
    core::mem::swap(&mut buf, bytes);
    let mut s = Serializer::new(buf);
    let res = s.serialize_u64(value);
    let n = s.bytes_written();
    *bytes = s.into_buffer();
    match res {
        Ok(()) => Ok(n),
        Err(e) => Err(e),
    }
}

/// Decode a 64-bit unsigned integer from the whole buffer.
pub fn from_bytes_u64(bytes: Vec<u8>) -> (r: DeResult<u64>)
    ensures
        bytes@.len() < 8 ==> r == DeResult::<u64>::Err(DeError::BufferSmall),
        bytes@.len() > 8 ==> r == DeResult::<u64>::Err(DeError::BufferLarge),
        bytes@.len() == 8 ==> r == DeResult::<u64>::Ok(be_to_u64(bytes@)),
{
    let mut d = Deserializer::from_bytes(bytes);
    match d.consume_u64() {
        Err(e) => Err(e),
        Ok(v) => {
            proof {
                if d.input@.len() == 8 {
                    assert(d.input@.take(8) =~= d.input@);
                }
            }
            match d.end() {
                Err(e) => Err(e),
                Ok(()) => Ok(v),
            }
        },
    }
}

/// Encode a 64-bit signed integer into the buffer.
pub fn to_bytes_i64(bytes: &mut Vec<u8>, value: i64) -> (r: SerResult<usize>)
    ensures
        final(bytes)@.len() == old(bytes)@.len(),
        r is Ok <==> 8 <= old(bytes)@.len(),
        r is Ok ==> r == SerResult::<usize>::Ok(8) && final(bytes)@.take(8) == i64_be(value)
            && final(bytes)@.skip(8) == old(bytes)@.skip(8),
        r is Err ==> r == SerResult::<usize>::Err(SerError::Overflow) && final(bytes)@ == old(
            bytes,
        )@,
{
    let mut buf: Vec<u8> = Vec::new();
    core::mem::swap(&mut buf, bytes);
    let mut s = Serializer::new(buf);
    let res = s.serialize_i64(value);
    let n = s.bytes_written();
    *bytes = s.into_buffer();
    match res {
        Ok(()) => Ok(n),
        Err(e) => Err(e),
    }
}

/// Decode a 64-bit signed integer from the whole buffer.
pub fn from_bytes_i64(bytes: Vec<u8>) -> (r: DeResult<i64>)
    ensures
        bytes@.len() < 8 ==> r == DeResult::<i64>::Err(DeError::BufferSmall),
        bytes@.len() > 8 ==> r == DeResult::<i64>::Err(DeError::BufferLarge),
        bytes@.len() == 8 ==> r == DeResult::<i64>::Ok(be_to_i64(bytes@)),
{
    let mut d = Deserializer::from_bytes(bytes);
    match d.consume_i64() {
        Err(e) => Err(e),
        Ok(v) => {
            proof {
                if d.input@.len() == 8 {
                    assert(d.input@.take(8) =~= d.input@);
                }
            }
            match d.end() {
                Err(e) => Err(e),
                Ok(()) => Ok(v),
            }
        },
    }
}

/// Encode an optional 32-bit value into the buffer.
pub fn to_bytes_option_u32(bytes: &mut Vec<u8>, value: &Option<u32>) -> (r: SerResult<usize>)
    ensures
        final(bytes)@.len() == old(bytes)@.len(),
        r is Ok <==> option_u32_bytes(*value).len() <= old(bytes)@.len(),
        r is Ok ==> r == SerResult::<usize>::Ok(option_u32_bytes(*value).len() as usize)
            && final(bytes)@.take(option_u32_bytes(*value).len() as int) == option_u32_bytes(
            *value,
        ) && final(bytes)@.skip(option_u32_bytes(*value).len() as int) == old(bytes)@.skip(
            option_u32_bytes(*value).len() as int,
        ),
        r is Err ==> r == SerResult::<usize>::Err(SerError::Overflow),
{
    let mut buf: Vec<u8> = Vec::new();
    core::mem::swap(&mut buf, bytes);
    let mut s = Serializer::new(buf);
    let res = serialize_option_u32(&mut s, value);
    let n = s.bytes_written();
    *bytes = s.into_buffer();
    match res {
        Ok(()) => Ok(n),
        Err(e) => Err(e),
    }
}

/// Decode an optional 32-bit value from the whole buffer.
pub fn from_bytes_option_u32(bytes: Vec<u8>) -> (r: DeResult<Option<u32>>)
    ensures
        r == option_u32_from_bytes(bytes@),
{
    let mut d = Deserializer::from_bytes(bytes);
    match deserialize_option_u32(&mut d) {
        Err(e) => Err(e),
        Ok(v) => {
            match d.end() {
                Err(e) => Err(e),
                Ok(()) => Ok(v),
            }
        },
    }
}

/// Encode a value of the tagged union [`E`] into the buffer.
pub fn to_bytes_e(bytes: &mut Vec<u8>, value: &E) -> (r: SerResult<usize>)
    ensures
        final(bytes)@.len() == old(bytes)@.len(),
        r is Ok <==> e_bytes(*value).len() <= old(bytes)@.len(),
        r is Ok ==> r == SerResult::<usize>::Ok(e_bytes(*value).len() as usize)
            && final(bytes)@.take(e_bytes(*value).len() as int) == e_bytes(*value)
            && final(bytes)@.skip(e_bytes(*value).len() as int) == old(bytes)@.skip(
            e_bytes(*value).len() as int,
        ),
        r is Err ==> r == SerResult::<usize>::Err(SerError::Overflow),
{
    let mut buf: Vec<u8> = Vec::new();
    core::mem::swap(&mut buf, bytes);
    let mut s = Serializer::new(buf);
    let res = serialize_e(&mut s, value);
    let n = s.bytes_written();
    *bytes = s.into_buffer();
    match res {
        Ok(()) => Ok(n),
        Err(e) => Err(e),
    }
}

/// Decode a value of the tagged union [`E`] from the whole buffer.
pub fn from_bytes_e(bytes: Vec<u8>) -> (r: DeResult<E>)
    ensures
        r == e_from_bytes(bytes@),
{
    let mut d = Deserializer::from_bytes(bytes);
    match deserialize_e(&mut d) {
        Err(e) => Err(e),
        Ok(v) => {
            match d.end() {
                Err(e) => Err(e),
                Ok(()) => Ok(v),
            }
        },
    }
}

} // verus!

//! The encoder.
//!
//! A [`Serializer`] owns one destination buffer for the lifetime of one root
//! encode call and appends byte representations at a monotonically advancing
//! cursor.  Before every write it verifies that enough space remains; a write
//! that does not fit fails with [`SerError::Overflow`] and leaves the encoder
//! unchanged.  The bytes before the cursor are the output produced so far;
//! no write ever touches a byte outside the span it was asked for, so every
//! successful write turns the buffer into [`Serializer::spliced`] of its
//! encoding.

use vstd::prelude::*;

use crate::error::SerError;
use crate::error::SerResult;
use crate::wire::bool_be;
use crate::wire::bool_byte;
use crate::wire::i16_be;
use crate::wire::i16_bits;
use crate::wire::i32_be;
use crate::wire::i32_bits;
use crate::wire::i64_be;
use crate::wire::i64_bits;
use crate::wire::i8_be;
use crate::wire::i8_byte;
use crate::wire::u16_be;
use crate::wire::u32_be;
use crate::wire::u64_be;
use crate::wire::u8_be;

verus! {

/// Writes primitive values into a caller-owned buffer, advancing a cursor and
/// enforcing remaining-capacity checks.
pub struct Serializer {
    /// The destination buffer; its length never changes.
    pub bytes: Vec<u8>,
    /// The cursor: everything before it has been written.
    pub pos: usize,
}

impl Serializer {
    /// The buffer-bounds invariant: the cursor never passes the end.
    pub open spec fn wf(&self) -> bool {
        self.pos <= self.bytes.len()
    }

    /// The output produced so far: the bytes before the cursor.
    pub open spec fn written(&self) -> Seq<u8> {
        self.bytes@.take(self.pos as int)
    }

    /// How many bytes of capacity remain.
    pub open spec fn spec_remaining(&self) -> int {
        self.bytes.len() - self.pos
    }

    /// The buffer after `enc` lands at the cursor: everything before and
    /// everything beyond the new bytes is untouched.
    pub open spec fn spliced(&self, enc: Seq<u8>) -> Seq<u8>
        recommends
            self.wf(),
            self.pos + enc.len() <= self.bytes.len(),
    {
        self.bytes@.take(self.pos as int) + enc + self.bytes@.skip(self.pos + enc.len())
    }

    /// Binds a fresh encoder to a destination buffer.
    pub fn new(bytes: Vec<u8>) -> (r: Serializer)
        ensures
            r.wf(),
            r.bytes@ == bytes@,
            r.pos == 0,
            r.written() == Seq::<u8>::empty(),
    {
        let r = Serializer { bytes, pos: 0 };
        proof {
            assert(r.written() =~= Seq::<u8>::empty());
        }
        r
    }

    /// The total number of bytes consumed so far; a root encode call reports
    /// this as its result.
    pub fn bytes_written(&self) -> (r: usize)
        ensures
            r == self.pos,
    {
        self.pos
    }

    /// Releases the buffer once the root encode call is over.
    pub fn into_buffer(self) -> (r: Vec<u8>)
        ensures
            r@ == self.bytes@,
    {
        self.bytes
    }

    /// How many bytes of capacity remain.
    pub fn remaining(&self) -> (r: usize)
        requires
            self.wf(),
        ensures
            r == self.spec_remaining(),
    {
        self.bytes.len() - self.pos
    }

    /// Make sure there is enough buffer left for the next `n` bytes.
    pub fn assert_enough(&self, n: usize) -> (r: SerResult<()>)
        requires
            self.wf(),
        ensures
            r is Ok <==> n <= self.spec_remaining(),
            r is Err ==> r == SerResult::<()>::Err(SerError::Overflow),
    {
        if n <= self.bytes.len() - self.pos {
            Ok(())
        } else {
            Err(SerError::Overflow)
        }
    }

    /// Advance the cursor over `n` bytes whose capacity was already checked.
    pub fn consume(&mut self, n: usize)
        requires
            old(self).wf(),
            n <= old(self).spec_remaining(),
        ensures
            final(self).wf(),
            final(self).bytes@ == old(self).bytes@,
            final(self).pos == old(self).pos + n,
    {
        self.pos = self.pos + n;
    }

    /// Put one byte at the cursor and advance over it.
    fn write_byte(&mut self, b: u8)
        requires
            old(self).wf(),
            1 <= old(self).spec_remaining(),
        ensures
            final(self).wf(),
            final(self).bytes@ == old(self).bytes@.update(old(self).pos as int, b),
            final(self).pos == old(self).pos + 1,
            final(self).written() == old(self).written() + seq![b],
    {
        let p = self.pos;
        self.bytes[p] = b;
        self.pos = p + 1;
        proof {
            assert(self.written() =~= old(self).written() + seq![b]);
        }
    }

    /// Write a boolean as a single byte, 0 or 1.
    pub fn serialize_bool(&mut self, v: bool) -> (r: SerResult<()>)
        requires
            old(self).wf(),
        ensures
            final(self).wf(),
            final(self).bytes@.len() == old(self).bytes@.len(),
            r is Ok <==> 1 <= old(self).spec_remaining(),
            r is Ok ==> final(self).pos == old(self).pos + 1 && final(self).written() == old(
                self,
            ).written() + bool_be(v) && final(self).bytes@ == old(self).spliced(bool_be(v)),
            r is Err ==> r == SerResult::<()>::Err(SerError::Overflow) && final(self).bytes@ == old(
                self,
            ).bytes@ && final(self).pos == old(self).pos,
    {
        match self.assert_enough(1) {
            Err(e) => Err(e),
            Ok(()) => {
                self.write_byte(if v {
                    1
                } else {
                    0
                });
                proof {
                    assert(self.written() =~= old(self).written() + bool_be(v));
                    assert(self.bytes@ =~= old(self).spliced(bool_be(v)));
                }
                Ok(())
            },
        }
    }

    /// Write an 8-bit unsigned integer as one byte.
    pub fn serialize_u8(&mut self, v: u8) -> (r: SerResult<()>)
        requires
            old(self).wf(),
        ensures
            final(self).wf(),
            final(self).bytes@.len() == old(self).bytes@.len(),
            r is Ok <==> 1 <= old(self).spec_remaining(),
            r is Ok ==> final(self).pos == old(self).pos + 1 && final(self).written() == old(
                self,
            ).written() + u8_be(v) && final(self).bytes@ == old(self).spliced(u8_be(v)),
            r is Err ==> r == SerResult::<()>::Err(SerError::Overflow) && final(self).bytes@ == old(
                self,
            ).bytes@ && final(self).pos == old(self).pos,
    {
        match self.assert_enough(1) {
            Err(e) => Err(e),
            Ok(()) => {
                self.write_byte(v);
                proof {
                    assert(self.written() =~= old(self).written() + u8_be(v));
                    assert(self.bytes@ =~= old(self).spliced(u8_be(v)));
                }
                Ok(())
            },
        }
    }

    /// Write an 8-bit signed integer as its two's-complement byte.
    pub fn serialize_i8(&mut self, v: i8) -> (r: SerResult<()>)
        requires
            old(self).wf(),
        ensures
            final(self).wf(),
            final(self).bytes@.len() == old(self).bytes@.len(),
            r is Ok <==> 1 <= old(self).spec_remaining(),
            r is Ok ==> final(self).pos == old(self).pos + 1 && final(self).written() == old(
                self,
            ).written() + i8_be(v) && final(self).bytes@ == old(self).spliced(i8_be(v)),
            r is Err ==> r == SerResult::<()>::Err(SerError::Overflow) && final(self).bytes@ == old(
                self,
            ).bytes@ && final(self).pos == old(self).pos,
    {
        let b: u8 = if v >= 0 {
            v as u8
        } else {
            ((v as i16) + 256) as u8
        };
        proof {
            assert(b == i8_byte(v));
        }
        match self.assert_enough(1) {
            Err(e) => Err(e),
            Ok(()) => {
                self.write_byte(b);
                proof {
                    assert(self.written() =~= old(self).written() + i8_be(v));
                    assert(self.bytes@ =~= old(self).spliced(i8_be(v)));
                }
                Ok(())
            },
        }
    }

    /// Write a 16-bit unsigned integer as two big-endian bytes.
    pub fn serialize_u16(&mut self, v: u16) -> (r: SerResult<()>)
        requires
            old(self).wf(),
        ensures
            final(self).wf(),
            final(self).bytes@.len() == old(self).bytes@.len(),
            r is Ok <==> 2 <= old(self).spec_remaining(),
            r is Ok ==> final(self).pos == old(self).pos + 2 && final(self).written() == old(
                self,
            ).written() + u16_be(v) && final(self).bytes@ == old(self).spliced(u16_be(v)),
            r is Err ==> r == SerResult::<()>::Err(SerError::Overflow) && final(self).bytes@ == old(
                self,
            ).bytes@ && final(self).pos == old(self).pos,
    {
        match self.assert_enough(2) {
            Err(e) => Err(e),
            Ok(()) => {
                proof {
                    assert(((v >> 8) & 0xff) < 256 && (v & 0xff) < 256) by (bit_vector);
                }
                self.write_byte(((v >> 8) & 0xff) as u8);
                self.write_byte((v & 0xff) as u8);
                proof {
                    assert(self.written() =~= old(self).written() + u16_be(v));
                    assert(self.bytes@ =~= old(self).spliced(u16_be(v)));
                }
                Ok(())
            },
        }
    }

    /// Write a 16-bit signed integer as the big-endian bytes of its bit
    /// pattern.
    pub fn serialize_i16(&mut self, v: i16) -> (r: SerResult<()>)
        requires
            old(self).wf(),
        ensures
            final(self).wf(),
            final(self).bytes@.len() == old(self).bytes@.len(),
            r is Ok <==> 2 <= old(self).spec_remaining(),
            r is Ok ==> final(self).pos == old(self).pos + 2 && final(self).written() == old(
                self,
            ).written() + i16_be(v) && final(self).bytes@ == old(self).spliced(i16_be(v)),
            r is Err ==> r == SerResult::<()>::Err(SerError::Overflow) && final(self).bytes@ == old(
                self,
            ).bytes@ && final(self).pos == old(self).pos,
    {
        let u: u16 = if v >= 0 {
            v as u16
        } else {
            ((v as i32) + 0x10000) as u16
        };
        proof {
            assert(u == i16_bits(v));
        }
        self.serialize_u16(u)
    }

    /// Write a 32-bit unsigned integer as four big-endian bytes.
    pub fn serialize_u32(&mut self, v: u32) -> (r: SerResult<()>)
        requires
            old(self).wf(),
        ensures
            final(self).wf(),
            final(self).bytes@.len() == old(self).bytes@.len(),
            r is Ok <==> 4 <= old(self).spec_remaining(),
            r is Ok ==> final(self).pos == old(self).pos + 4 && final(self).written() == old(
                self,
            ).written() + u32_be(v) && final(self).bytes@ == old(self).spliced(u32_be(v)),
            r is Err ==> r == SerResult::<()>::Err(SerError::Overflow) && final(self).bytes@ == old(
                self,
            ).bytes@ && final(self).pos == old(self).pos,
    {
        match self.assert_enough(4) {
            Err(e) => Err(e),
            Ok(()) => {
                proof {
                    assert(((v >> 24) & 0xff) < 256 && ((v >> 16) & 0xff) < 256 && ((v >> 8) & 0xff)
                        < 256 && (v & 0xff) < 256) by (bit_vector);
                }
                self.write_byte(((v >> 24) & 0xff) as u8);
                self.write_byte(((v >> 16) & 0xff) as u8);
                self.write_byte(((v >> 8) & 0xff) as u8);
                self.write_byte((v & 0xff) as u8);
                proof {
                    assert(self.written() =~= old(self).written() + u32_be(v));
                    assert(self.bytes@ =~= old(self).spliced(u32_be(v)));
                }
                Ok(())
            },
        }
    }

    /// Write a 32-bit signed integer as the big-endian bytes of its bit
    /// pattern.
    pub fn serialize_i32(&mut self, v: i32) -> (r: SerResult<()>)
        requires
            old(self).wf(),
        ensures
            final(self).wf(),
            final(self).bytes@.len() == old(self).bytes@.len(),
            r is Ok <==> 4 <= old(self).spec_remaining(),
            r is Ok ==> final(self).pos == old(self).pos + 4 && final(self).written() == old(
                self,
            ).written() + i32_be(v) && final(self).bytes@ == old(self).spliced(i32_be(v)),
            r is Err ==> r == SerResult::<()>::Err(SerError::Overflow) && final(self).bytes@ == old(
                self,
            ).bytes@ && final(self).pos == old(self).pos,
    {
        let u: u32 = if v >= 0 {
            v as u32
        } else {
            ((v as i64) + 0x1_0000_0000) as u32
        };
        proof {
            assert(u == i32_bits(v));
        }
        self.serialize_u32(u)
    }

    /// Write a 64-bit unsigned integer as eight big-endian bytes.
    pub fn serialize_u64(&mut self, v: u64) -> (r: SerResult<()>)
        requires
            old(self).wf(),
        ensures
            final(self).wf(),
            final(self).bytes@.len() == old(self).bytes@.len(),
            r is Ok <==> 8 <= old(self).spec_remaining(),
            r is Ok ==> final(self).pos == old(self).pos + 8 && final(self).written() == old(
                self,
            ).written() + u64_be(v) && final(self).bytes@ == old(self).spliced(u64_be(v)),
            r is Err ==> r == SerResult::<()>::Err(SerError::Overflow) && final(self).bytes@ == old(
                self,
            ).bytes@ && final(self).pos == old(self).pos,
    {
        match self.assert_enough(8) {
            Err(e) => Err(e),
            Ok(()) => {
                proof {
                    assert(((v >> 56) & 0xff) < 256 && ((v >> 48) & 0xff) < 256 && ((v >> 40)
                        & 0xff) < 256 && ((v >> 32) & 0xff) < 256 && ((v >> 24) & 0xff) < 256 && ((v
                        >> 16) & 0xff) < 256 && ((v >> 8) & 0xff) < 256 && (v & 0xff) < 256)
                        by (bit_vector);
                }
                self.write_byte(((v >> 56) & 0xff) as u8);
                self.write_byte(((v >> 48) & 0xff) as u8);
                self.write_byte(((v >> 40) & 0xff) as u8);
                self.write_byte(((v >> 32) & 0xff) as u8);
                self.write_byte(((v >> 24) & 0xff) as u8);
                self.write_byte(((v >> 16) & 0xff) as u8);
                self.write_byte(((v >> 8) & 0xff) as u8);
                self.write_byte((v & 0xff) as u8);
                proof {
                    assert(self.written() =~= old(self).written() + u64_be(v));
                    assert(self.bytes@ =~= old(self).spliced(u64_be(v)));
                }
                Ok(())
            },
        }
    }

    /// Write a 64-bit signed integer as the big-endian bytes of its bit
    /// pattern.
    pub fn serialize_i64(&mut self, v: i64) -> (r: SerResult<()>)
        requires
            old(self).wf(),
        ensures
            final(self).wf(),
            final(self).bytes@.len() == old(self).bytes@.len(),
            r is Ok <==> 8 <= old(self).spec_remaining(),
            r is Ok ==> final(self).pos == old(self).pos + 8 && final(self).written() == old(
                self,
            ).written() + i64_be(v) && final(self).bytes@ == old(self).spliced(i64_be(v)),
            r is Err ==> r == SerResult::<()>::Err(SerError::Overflow) && final(self).bytes@ == old(
                self,
            ).bytes@ && final(self).pos == old(self).pos,
    {
        let u: u64 = if v >= 0 {
            v as u64
        } else {
            ((v as i128) + 0x1_0000_0000_0000_0000) as u64
        };
        proof {
            assert(u == i64_bits(v));
        }
        self.serialize_u64(u)
    }

    /// Write a variant discriminant as one byte.  A tagged union may never
    /// declare more variants than one byte can tell apart, so an index above
    /// 255 is a schema defect and is excluded by precondition.
    pub fn write_variant(&mut self, index: u32) -> (r: SerResult<()>)
        requires
            old(self).wf(),
            index <= 255,
        ensures
            final(self).wf(),
            final(self).bytes@.len() == old(self).bytes@.len(),
            r is Ok <==> 1 <= old(self).spec_remaining(),
            r is Ok ==> final(self).pos == old(self).pos + 1 && final(self).written() == old(
                self,
            ).written() + seq![index as u8] && final(self).bytes@ == old(self).spliced(
                seq![index as u8],
            ),
            r is Err ==> r == SerResult::<()>::Err(SerError::Overflow) && final(self).bytes@ == old(
                self,
            ).bytes@ && final(self).pos == old(self).pos,
    {
        match self.assert_enough(1) {
            Err(e) => Err(e),
            Ok(()) => {
                self.write_byte(index as u8);
                proof {
                    assert(self.bytes@ =~= old(self).spliced(seq![index as u8]));
                }
                Ok(())
            },
        }
    }

    /// Write the presence tag for an absent optional value.
    pub fn serialize_none(&mut self) -> (r: SerResult<()>)
        requires
            old(self).wf(),
        ensures
            final(self).wf(),
            final(self).bytes@.len() == old(self).bytes@.len(),
            r is Ok <==> 1 <= old(self).spec_remaining(),
            r is Ok ==> final(self).pos == old(self).pos + 1 && final(self).written() == old(
                self,
            ).written() + seq![0u8] && final(self).bytes@ == old(self).spliced(seq![0u8]),
            r is Err ==> r == SerResult::<()>::Err(SerError::Overflow) && final(self).bytes@ == old(
                self,
            ).bytes@ && final(self).pos == old(self).pos,
    {
        self.write_variant(0)
    }

    /// Write the presence tag for a present optional value; the payload's
    /// encoding follows through further calls.
    pub fn serialize_some_tag(&mut self) -> (r: SerResult<()>)
        requires
            old(self).wf(),
        ensures
            final(self).wf(),
            final(self).bytes@.len() == old(self).bytes@.len(),
            r is Ok <==> 1 <= old(self).spec_remaining(),
            r is Ok ==> final(self).pos == old(self).pos + 1 && final(self).written() == old(
                self,
            ).written() + seq![1u8] && final(self).bytes@ == old(self).spliced(seq![1u8]),
            r is Err ==> r == SerResult::<()>::Err(SerError::Overflow) && final(self).bytes@ == old(
                self,
            ).bytes@ && final(self).pos == old(self).pos,
    {
        self.write_variant(1)
    }

    /// A unit value carries no bytes of its own.
    pub fn serialize_unit(&mut self) -> (r: SerResult<()>)
        requires
            old(self).wf(),
        ensures
            final(self).wf(),
            final(self).bytes@ == old(self).bytes@,
            final(self).pos == old(self).pos,
            r is Ok,
    {
        Ok(())
    }
}

} // verus!

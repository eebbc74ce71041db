//! The decoder.
//!
//! A [`Deserializer`] owns one input buffer for the lifetime of one root
//! decode call and reads byte representations at a monotonically advancing
//! cursor.  Before every read it verifies that enough bytes remain; a read
//! past the end fails with [`DeError::BufferSmall`].  Byte-validity checks
//! reject a byte outside the boolean domain ([`DeError::ExpectedBoolean`])
//! and a discriminant at or above the declared variant count
//! ([`DeError::InvalidVariant`]).  After any error the decoder's state is
//! unusable and must be discarded by the caller.

use vstd::prelude::*;

use crate::error::DeError;
use crate::error::DeResult;
use crate::wire::be_to_i16;
use crate::wire::be_to_i32;
use crate::wire::be_to_i64;
use crate::wire::be_to_u16;
use crate::wire::be_to_u32;
use crate::wire::be_to_u64;
use crate::wire::bits_to_i16;
use crate::wire::bits_to_i32;
use crate::wire::bits_to_i64;
use crate::wire::byte_is_bool;
use crate::wire::byte_to_bool;
use crate::wire::byte_to_i8;

verus! {

/// Reads primitive values out of one input buffer, advancing a cursor and
/// enforcing remaining-length and byte-validity checks.
pub struct Deserializer {
    /// The input data.
    pub input: Vec<u8>,
    /// The cursor: everything before it has been consumed.
    pub pos: usize,
}

impl Deserializer {
    /// The buffer-bounds invariant: the cursor never passes the end.
    pub open spec fn wf(&self) -> bool {
        self.pos <= self.input.len()
    }

    /// The bytes not yet consumed.
    pub open spec fn rest(&self) -> Seq<u8> {
        self.input@.skip(self.pos as int)
    }

    /// How many bytes remain to be consumed.
    pub open spec fn spec_remaining(&self) -> int {
        self.input.len() - self.pos
    }

    /// Create a decoder over a byte buffer.
    pub fn from_bytes(input: Vec<u8>) -> (r: Deserializer)
        ensures
            r.wf(),
            r.input@ == input@,
            r.pos == 0,
            r.rest() == input@,
    {
        let r = Deserializer { input, pos: 0 };
        proof {
            assert(r.rest() =~= r.input@);
        }
        r
    }

    /// How many bytes remain to be consumed.
    pub fn remaining(&self) -> (r: usize)
        requires
            self.wf(),
        ensures
            r == self.spec_remaining(),
    {
        self.input.len() - self.pos
    }

    /// Make sure there is enough buffer left for the next `n` bytes.
    pub fn assert_enough(&self, n: usize) -> (r: DeResult<()>)
        requires
            self.wf(),
        ensures
            r is Ok <==> n <= self.spec_remaining(),
            r is Err ==> r == DeResult::<()>::Err(DeError::BufferSmall),
    {
        if n <= self.input.len() - self.pos {
            Ok(())
        } else {
            Err(DeError::BufferSmall)
        }
    }

    /// Advance the cursor over `n` bytes whose presence was already checked.
    pub fn consume(&mut self, n: usize)
        requires
            old(self).wf(),
            n <= old(self).spec_remaining(),
        ensures
            final(self).wf(),
            final(self).input@ == old(self).input@,
            final(self).pos == old(self).pos + n,
            final(self).rest() == old(self).rest().skip(n as int),
    {
        self.pos = self.pos + n;
        proof {
            assert(self.rest() =~= old(self).rest().skip(n as int));
        }
    }

    /// Read the byte at the cursor and advance over it.
    fn take_byte(&mut self) -> (b: u8)
        requires
            old(self).wf(),
            1 <= old(self).spec_remaining(),
        ensures
            final(self).wf(),
            final(self).input@ == old(self).input@,
            final(self).pos == old(self).pos + 1,
            final(self).rest() == old(self).rest().skip(1),
            b == old(self).rest()[0],
    {
        let p = self.pos;
        let b = self.input[p];
        self.pos = p + 1;
        proof {
            assert(self.rest() =~= old(self).rest().skip(1));
        }
        b
    }

    /// Read one byte as an 8-bit unsigned integer.
    pub fn consume_u8(&mut self) -> (r: DeResult<u8>)
        requires
            old(self).wf(),
        ensures
            final(self).wf(),
            final(self).input@ == old(self).input@,
            r is Ok <==> 1 <= old(self).spec_remaining(),
            r is Ok ==> final(self).pos == old(self).pos + 1 && r == DeResult::<u8>::Ok(
                old(self).rest()[0],
            ),
            r is Err ==> r == DeResult::<u8>::Err(DeError::BufferSmall) && final(self).pos == old(
                self,
            ).pos,
    {
        match self.assert_enough(1) {
            Err(_) => Err(DeError::BufferSmall),
            Ok(()) => Ok(self.take_byte()),
        }
    }

    /// Read one byte as a boolean: 0 is false, 1 is true, anything else is
    /// outside the boolean domain.
    pub fn consume_bool(&mut self) -> (r: DeResult<bool>)
        requires
            old(self).wf(),
        ensures
            final(self).wf(),
            final(self).input@ == old(self).input@,
            old(self).spec_remaining() == 0 ==> r == DeResult::<bool>::Err(DeError::BufferSmall)
                && final(self).pos == old(self).pos,
            old(self).spec_remaining() >= 1 && byte_is_bool(old(self).rest()[0]) ==> r
                == DeResult::<bool>::Ok(byte_to_bool(old(self).rest()[0])) && final(self).pos
                == old(self).pos + 1,
            old(self).spec_remaining() >= 1 && !byte_is_bool(old(self).rest()[0]) ==> r
                == DeResult::<bool>::Err(DeError::ExpectedBoolean) && final(self).pos == old(
                self,
            ).pos + 1,
    {
        match self.consume_u8() {
            Err(e) => Err(e),
            Ok(0) => Ok(false),
            Ok(1) => Ok(true),
            Ok(_) => Err(DeError::ExpectedBoolean),
        }
    }

    /// Read two big-endian bytes as a 16-bit unsigned integer.
    pub fn consume_u16(&mut self) -> (r: DeResult<u16>)
        requires
            old(self).wf(),
        ensures
            final(self).wf(),
            final(self).input@ == old(self).input@,
            r is Ok <==> 2 <= old(self).spec_remaining(),
            r is Ok ==> final(self).pos == old(self).pos + 2 && r == DeResult::<u16>::Ok(
                be_to_u16(old(self).rest().take(2)),
            ),
            r is Err ==> r == DeResult::<u16>::Err(DeError::BufferSmall) && final(self).pos == old(
                self,
            ).pos,
    {
        match self.assert_enough(2) {
            Err(_) => Err(DeError::BufferSmall),
            Ok(()) => {
                let b0 = self.take_byte();
                let b1 = self.take_byte();
                let v: u16 = ((b0 as u16) << 8) | (b1 as u16);
                proof {
                    let s = old(self).rest().take(2);
                    assert(s[0] == b0 && s[1] == b1);
                    assert(v == be_to_u16(s));
                }
                Ok(v)
            },
        }
    }

    /// Read four big-endian bytes as a 32-bit unsigned integer.
    pub fn consume_u32(&mut self) -> (r: DeResult<u32>)
        requires
            old(self).wf(),
        ensures
            final(self).wf(),
            final(self).input@ == old(self).input@,
            r is Ok <==> 4 <= old(self).spec_remaining(),
            r is Ok ==> final(self).pos == old(self).pos + 4 && r == DeResult::<u32>::Ok(
                be_to_u32(old(self).rest().take(4)),
            ),
            r is Err ==> r == DeResult::<u32>::Err(DeError::BufferSmall) && final(self).pos == old(
                self,
            ).pos,
    {
        match self.assert_enough(4) {
            Err(_) => Err(DeError::BufferSmall),
            Ok(()) => {
                let b0 = self.take_byte();
                let b1 = self.take_byte();
                let b2 = self.take_byte();
                let b3 = self.take_byte();
                let v: u32 = ((b0 as u32) << 24) | ((b1 as u32) << 16) | ((b2 as u32) << 8) | (
                b3 as u32);
                proof {
                    let s = old(self).rest().take(4);
                    assert(s[0] == b0 && s[1] == b1 && s[2] == b2 && s[3] == b3);
                    assert(v == be_to_u32(s));
                }
                Ok(v)
            },
        }
    }

    /// Read eight big-endian bytes as a 64-bit unsigned integer.
    pub fn consume_u64(&mut self) -> (r: DeResult<u64>)
        requires
            old(self).wf(),
        ensures
            final(self).wf(),
            final(self).input@ == old(self).input@,
            r is Ok <==> 8 <= old(self).spec_remaining(),
            r is Ok ==> final(self).pos == old(self).pos + 8 && r == DeResult::<u64>::Ok(
                be_to_u64(old(self).rest().take(8)),
            ),
            r is Err ==> r == DeResult::<u64>::Err(DeError::BufferSmall) && final(self).pos == old(
                self,
            ).pos,
    {
        match self.assert_enough(8) {
            Err(_) => Err(DeError::BufferSmall),
            Ok(()) => {
                let b0 = self.take_byte();
                let b1 = self.take_byte();
                let b2 = self.take_byte();
                let b3 = self.take_byte();
                let b4 = self.take_byte();
                let b5 = self.take_byte();
                let b6 = self.take_byte();
                let b7 = self.take_byte();
                let v: u64 = ((b0 as u64) << 56) | ((b1 as u64) << 48) | ((b2 as u64) << 40) | ((
                b3 as u64) << 32) | ((b4 as u64) << 24) | ((b5 as u64) << 16) | ((b6 as u64) << 8)
                    | (b7 as u64);
                proof {
                    let s = old(self).rest().take(8);
                    assert(s[0] == b0 && s[1] == b1 && s[2] == b2 && s[3] == b3 && s[4] == b4 && s[5]
                        == b5 && s[6] == b6 && s[7] == b7);
                    assert(v == be_to_u64(s));
                }
                Ok(v)
            },
        }
    }

    /// Read one byte as an 8-bit signed integer.
    pub fn consume_i8(&mut self) -> (r: DeResult<i8>)
        requires
            old(self).wf(),
        ensures
            final(self).wf(),
            final(self).input@ == old(self).input@,
            r is Ok <==> 1 <= old(self).spec_remaining(),
            r is Ok ==> final(self).pos == old(self).pos + 1 && r == DeResult::<i8>::Ok(
                byte_to_i8(old(self).rest()[0]),
            ),
            r is Err ==> r == DeResult::<i8>::Err(DeError::BufferSmall) && final(self).pos == old(
                self,
            ).pos,
    {
        match self.consume_u8() {
            Err(e) => Err(e),
            Ok(b) => {
                let v: i8 = if b < 128 {
                    b as i8
                } else {
                    ((b as i16) - 256) as i8
                };
                proof {
                    assert(v == byte_to_i8(b));
                }
                Ok(v)
            },
        }
    }

    /// Read two big-endian bytes as a 16-bit signed integer.
    pub fn consume_i16(&mut self) -> (r: DeResult<i16>)
        requires
            old(self).wf(),
        ensures
            final(self).wf(),
            final(self).input@ == old(self).input@,
            r is Ok <==> 2 <= old(self).spec_remaining(),
            r is Ok ==> final(self).pos == old(self).pos + 2 && r == DeResult::<i16>::Ok(
                be_to_i16(old(self).rest().take(2)),
            ),
            r is Err ==> r == DeResult::<i16>::Err(DeError::BufferSmall) && final(self).pos == old(
                self,
            ).pos,
    {
        match self.consume_u16() {
            Err(e) => Err(e),
            Ok(u) => {
                let v: i16 = if u < 0x8000 {
                    u as i16
                } else {
                    ((u as i32) - 0x10000) as i16
                };
                proof {
                    assert(v == bits_to_i16(u));
                }
                Ok(v)
            },
        }
    }

    /// Read four big-endian bytes as a 32-bit signed integer.
    pub fn consume_i32(&mut self) -> (r: DeResult<i32>)
        requires
            old(self).wf(),
        ensures
            final(self).wf(),
            final(self).input@ == old(self).input@,
            r is Ok <==> 4 <= old(self).spec_remaining(),
            r is Ok ==> final(self).pos == old(self).pos + 4 && r == DeResult::<i32>::Ok(
                be_to_i32(old(self).rest().take(4)),
            ),
            r is Err ==> r == DeResult::<i32>::Err(DeError::BufferSmall) && final(self).pos == old(
                self,
            ).pos,
    {
        match self.consume_u32() {
            Err(e) => Err(e),
            Ok(u) => {
                let v: i32 = if u < 0x8000_0000 {
                    u as i32
                } else {
                    ((u as i64) - 0x1_0000_0000) as i32
                };
                proof {
                    assert(v == bits_to_i32(u));
                }
                Ok(v)
            },
        }
    }

    /// Read eight big-endian bytes as a 64-bit signed integer.
    pub fn consume_i64(&mut self) -> (r: DeResult<i64>)
        requires
            old(self).wf(),
        ensures
            final(self).wf(),
            final(self).input@ == old(self).input@,
            r is Ok <==> 8 <= old(self).spec_remaining(),
            r is Ok ==> final(self).pos == old(self).pos + 8 && r == DeResult::<i64>::Ok(
                be_to_i64(old(self).rest().take(8)),
            ),
            r is Err ==> r == DeResult::<i64>::Err(DeError::BufferSmall) && final(self).pos == old(
                self,
            ).pos,
    {
        match self.consume_u64() {
            Err(e) => Err(e),
            Ok(u) => {
                let v: i64 = if u < 0x8000_0000_0000_0000 {
                    u as i64
                } else {
                    ((u as i128) - 0x1_0000_0000_0000_0000) as i64
                };
                proof {
                    assert(v == bits_to_i64(u));
                }
                Ok(v)
            },
        }
    }

    /// Read one byte as a variant discriminant and validate it against the
    /// declared variant count.  The byte is consumed exactly once, before any
    /// payload decoding begins.  A count above 256 is a schema defect and is
    /// excluded by precondition.
    pub fn read_discriminant(&mut self, max_variants: usize) -> (r: DeResult<u8>)
        requires
            old(self).wf(),
            max_variants <= 256,
        ensures
            final(self).wf(),
            final(self).input@ == old(self).input@,
            old(self).spec_remaining() == 0 ==> r == DeResult::<u8>::Err(DeError::BufferSmall)
                && final(self).pos == old(self).pos,
            old(self).spec_remaining() >= 1 && old(self).rest()[0] < max_variants ==> r
                == DeResult::<u8>::Ok(old(self).rest()[0]) && final(self).pos == old(self).pos + 1,
            old(self).spec_remaining() >= 1 && old(self).rest()[0] >= max_variants ==> r
                == DeResult::<u8>::Err(DeError::InvalidVariant) && final(self).pos == old(self).pos
                + 1,
    {
        match self.consume_u8() {
            Err(e) => Err(e),
            Ok(b) => {
                if (b as usize) < max_variants {
                    Ok(b)
                } else {
                    Err(DeError::InvalidVariant)
                }
            },
        }
    }

    /// After the root value was fully decoded, the input must be exactly
    /// exhausted; leftover bytes mean the buffer was too large for the type.
    pub fn end(&self) -> (r: DeResult<()>)
        requires
            self.wf(),
        ensures
            r is Ok <==> self.spec_remaining() == 0,
            r is Err ==> r == DeResult::<()>::Err(DeError::BufferLarge),
    {
        if self.pos == self.input.len() {
            Ok(())
        } else {
            Err(DeError::BufferLarge)
        }
    }
}

} // verus!

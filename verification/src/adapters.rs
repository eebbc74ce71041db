//! Composite and variant adapters.
//!
//! The codec's primitives are driven field-by-field and variant-by-variant by
//! per-type visit routines: an encode routine writes the discriminant and
//! then each field's encoding in declared order; a decode routine reads and
//! validates the discriminant first, then dispatches to the one payload
//! routine the discriminant selects.  No names travel on the wire; position
//! is the only identifier, and named fields are encoded exactly like
//! positional ones.
//!
//! This module carries the routines for an optional 32-bit value and for
//! [`E`], a tagged union exercising every variant shape (unit, single value,
//! positional fields, named field); routines for other composite types follow
//! the same pattern.

use vstd::prelude::*;

use crate::de::Deserializer;
use crate::error::DeError;
use crate::error::DeResult;
use crate::error::SerError;
use crate::error::SerResult;
use crate::ser::Serializer;
use crate::wire::be_to_u32;
use crate::wire::lemma_u32_round_trip;
use crate::wire::u32_be;

verus! {

/// A tagged union exercising all four variant shapes: unit, newtype,
/// positional fields, and a named field.
#[derive(Clone, Copy, Debug, PartialEq, Eq, Structural)]
pub enum E {
    /// No payload: the discriminant byte alone.
    Unit,
    /// A single value.
    Newtype(u32),
    /// Two positional fields.
    Tuple(u32, u32),
    /// One named field; encoded exactly like a positional one.
    Struct { a: u32 },
}

/// The wire encoding of a value of [`E`]: one discriminant byte, then the
/// variant's field encodings concatenated in declared order.
pub open spec fn e_bytes(v: E) -> Seq<u8> {
    match v {
        E::Unit => seq![0u8],
        E::Newtype(a) => seq![1u8] + u32_be(a),
        E::Tuple(a, b) => seq![2u8] + u32_be(a) + u32_be(b),
        E::Struct { a } => seq![3u8] + u32_be(a),
    }
}

/// What a root decode of [`E`] yields from a whole buffer: the discriminant
/// is validated first, the selected payload is read, and the buffer must be
/// exactly exhausted.
pub open spec fn e_from_bytes(s: Seq<u8>) -> Result<E, DeError> {
    if s.len() < 1 {
        Err(DeError::BufferSmall)
    } else if s[0] == 0 {
        if s.len() == 1 {
            Ok(E::Unit)
        } else {
            Err(DeError::BufferLarge)
        }
    } else if s[0] == 1 {
        if s.len() < 5 {
            Err(DeError::BufferSmall)
        } else if s.len() > 5 {
            Err(DeError::BufferLarge)
        } else {
            Ok(E::Newtype(be_to_u32(s.subrange(1, 5))))
        }
    } else if s[0] == 2 {
        if s.len() < 9 {
            Err(DeError::BufferSmall)
        } else if s.len() > 9 {
            Err(DeError::BufferLarge)
        } else {
            Ok(E::Tuple(be_to_u32(s.subrange(1, 5)), be_to_u32(s.subrange(5, 9))))
        }
    } else if s[0] == 3 {
        if s.len() < 5 {
            Err(DeError::BufferSmall)
        } else if s.len() > 5 {
            Err(DeError::BufferLarge)
        } else {
            Ok(E::Struct { a: be_to_u32(s.subrange(1, 5)) })
        }
    } else {
        Err(DeError::InvalidVariant)
    }
}

/// The wire encoding of an optional 32-bit value: a presence tag byte, then
/// the payload's encoding iff present.
pub open spec fn option_u32_bytes(v: Option<u32>) -> Seq<u8> {
    match v {
        Option::None => seq![0u8],
        Option::Some(a) => seq![1u8] + u32_be(a),
    }
}

/// What a root decode of an optional 32-bit value yields from a whole
/// buffer.
pub open spec fn option_u32_from_bytes(s: Seq<u8>) -> Result<Option<u32>, DeError> {
    if s.len() < 1 {
        Err(DeError::BufferSmall)
    } else if s[0] == 0 {
        if s.len() == 1 {
            Ok(Option::None)
        } else {
            Err(DeError::BufferLarge)
        }
    } else if s[0] == 1 {
        if s.len() < 5 {
            Err(DeError::BufferSmall)
        } else if s.len() > 5 {
            Err(DeError::BufferLarge)
        } else {
            Ok(Option::Some(be_to_u32(s.subrange(1, 5))))
        }
    } else {
        Err(DeError::ExpectedBoolean)
    }
}

/// Encode one value of [`E`] at the encoder's cursor: the discriminant byte,
/// then the active variant's fields in declared order.
pub fn serialize_e(s: &mut Serializer, v: &E) -> (r: SerResult<()>)
    requires
        old(s).wf(),
    ensures
        final(s).wf(),
        final(s).bytes@.len() == old(s).bytes@.len(),
        r is Ok <==> e_bytes(*v).len() <= old(s).spec_remaining(),
        r is Ok ==> final(s).pos == old(s).pos + e_bytes(*v).len() && final(s).written() == old(
            s,
        ).written() + e_bytes(*v) && final(s).bytes@ == old(s).spliced(e_bytes(*v)),
        r is Err ==> r == SerResult::<()>::Err(SerError::Overflow),
{
    match v {
        E::Unit => {
            match s.write_variant(0) {
                Err(e) => Err(e),
                Ok(()) => {
                    proof {
                        assert(old(s).written() + seq![0u8] =~= old(s).written() + e_bytes(*v));
                        assert(s.bytes@ =~= old(s).spliced(e_bytes(*v)));
                    }
                    Ok(())
                },
            }
        },
        E::Newtype(a) => {
            match s.write_variant(1) {
                Err(e) => Err(e),
                Ok(()) => {
                    match s.serialize_u32(*a) {
                        Err(e) => Err(e),
                        Ok(()) => {
                            proof {
                                assert(s.written() =~= old(s).written() + e_bytes(*v));
                                assert(s.bytes@ =~= old(s).spliced(e_bytes(*v)));
                            }
                            Ok(())
                        },
                    }
                },
            }
        },
        E::Tuple(a, b) => {
            match s.write_variant(2) {
                Err(e) => Err(e),
                Ok(()) => {
                    match s.serialize_u32(*a) {
                        Err(e) => Err(e),
                        Ok(()) => {
                            match s.serialize_u32(*b) {
                                Err(e) => Err(e),
                                Ok(()) => {
                                    proof {
                                        assert(s.written() =~= old(s).written() + e_bytes(*v));
                                        assert(s.bytes@ =~= old(s).spliced(e_bytes(*v)));
                                    }
                                    Ok(())
                                },
                            }
                        },
                    }
                },
            }
        },
        E::Struct { a } => {
            match s.write_variant(3) {
                Err(e) => Err(e),
                Ok(()) => {
                    match s.serialize_u32(*a) {
                        Err(e) => Err(e),
                        Ok(()) => {
                            proof {
                                assert(s.written() =~= old(s).written() + e_bytes(*v));
                                assert(s.bytes@ =~= old(s).spliced(e_bytes(*v)));
                            }
                            Ok(())
                        },
                    }
                },
            }
        },
    }
}

/// Decode one value of [`E`] at the decoder's cursor: the discriminant byte
/// is read and validated first, then the payload routine it selects runs.
pub fn deserialize_e(d: &mut Deserializer) -> (r: DeResult<E>)
    requires
        old(d).wf(),
    ensures
        final(d).wf(),
        final(d).input@ == old(d).input@,
        old(d).spec_remaining() == 0 ==> r == DeResult::<E>::Err(DeError::BufferSmall)
            && final(d).pos == old(d).pos,
        old(d).spec_remaining() >= 1 && old(d).rest()[0] >= 4 ==> r == DeResult::<E>::Err(
            DeError::InvalidVariant,
        ),
        old(d).spec_remaining() >= 1 && old(d).rest()[0] == 0 ==> r == DeResult::<E>::Ok(E::Unit)
            && final(d).pos == old(d).pos + 1,
        old(d).spec_remaining() >= 5 && old(d).rest()[0] == 1 ==> r == DeResult::<E>::Ok(
            E::Newtype(be_to_u32(old(d).rest().subrange(1, 5))),
        ) && final(d).pos == old(d).pos + 5,
        1 <= old(d).spec_remaining() < 5 && old(d).rest()[0] == 1 ==> r == DeResult::<E>::Err(
            DeError::BufferSmall,
        ),
        old(d).spec_remaining() >= 9 && old(d).rest()[0] == 2 ==> r == DeResult::<E>::Ok(
            E::Tuple(
                be_to_u32(old(d).rest().subrange(1, 5)),
                be_to_u32(old(d).rest().subrange(5, 9)),
            ),
        ) && final(d).pos == old(d).pos + 9,
        1 <= old(d).spec_remaining() < 9 && old(d).rest()[0] == 2 ==> r == DeResult::<E>::Err(
            DeError::BufferSmall,
        ),
        old(d).spec_remaining() >= 5 && old(d).rest()[0] == 3 ==> r == DeResult::<E>::Ok(
            E::Struct { a: be_to_u32(old(d).rest().subrange(1, 5)) },
        ) && final(d).pos == old(d).pos + 5,
        1 <= old(d).spec_remaining() < 5 && old(d).rest()[0] == 3 ==> r == DeResult::<E>::Err(
            DeError::BufferSmall,
        ),
{
    match d.read_discriminant(4) {
        Err(e) => Err(e),
        Ok(0) => Ok(E::Unit),
        Ok(1) => {
            match d.consume_u32() {
                Err(e) => Err(e),
                Ok(a) => {
                    proof {
                        assert(old(d).rest().skip(1).take(4) =~= old(d).rest().subrange(1, 5));
                    }
                    Ok(E::Newtype(a))
                },
            }
        },
        Ok(2) => {
            match d.consume_u32() {
                Err(e) => Err(e),
                Ok(a) => {
                    proof {
                        assert(old(d).rest().skip(1).take(4) =~= old(d).rest().subrange(1, 5));
                    }
                    match d.consume_u32() {
                        Err(e) => Err(e),
                        Ok(b) => {
                            proof {
                                assert(old(d).rest().skip(1).skip(4).take(4) =~= old(
                                    d,
                                ).rest().subrange(5, 9));
                            }
                            Ok(E::Tuple(a, b))
                        },
                    }
                },
            }
        },
        Ok(3) => {
            match d.consume_u32() {
                Err(e) => Err(e),
                Ok(a) => {
                    proof {
                        assert(old(d).rest().skip(1).take(4) =~= old(d).rest().subrange(1, 5));
                    }
                    Ok(E::Struct { a })
                },
            }
        },
        Ok(_) => {
            proof {
                assert(false);
            }
            Err(DeError::InvalidVariant)
        },
    }
}

/// Encode an optional 32-bit value at the encoder's cursor: the presence tag
/// byte, then the payload iff present.
pub fn serialize_option_u32(s: &mut Serializer, v: &Option<u32>) -> (r: SerResult<()>)
    requires
        old(s).wf(),
    ensures
        final(s).wf(),
        final(s).bytes@.len() == old(s).bytes@.len(),
        r is Ok <==> option_u32_bytes(*v).len() <= old(s).spec_remaining(),
        r is Ok ==> final(s).pos == old(s).pos + option_u32_bytes(*v).len() && final(s).written()
            == old(s).written() + option_u32_bytes(*v) && final(s).bytes@ == old(s).spliced(
            option_u32_bytes(*v),
        ),
        r is Err ==> r == SerResult::<()>::Err(SerError::Overflow),
{
    match v {
        Option::None => {
            match s.serialize_none() {
                Err(e) => Err(e),
                Ok(()) => {
                    proof {
                        assert(old(s).written() + seq![0u8] =~= old(s).written() + option_u32_bytes(
                            *v,
                        ));
                        assert(s.bytes@ =~= old(s).spliced(option_u32_bytes(*v)));
                    }
                    Ok(())
                },
            }
        },
        Option::Some(a) => {
            match s.serialize_some_tag() {
                Err(e) => Err(e),
                Ok(()) => {
                    match s.serialize_u32(*a) {
                        Err(e) => Err(e),
                        Ok(()) => {
                            proof {
                                assert(s.written() =~= old(s).written() + option_u32_bytes(*v));
                                assert(s.bytes@ =~= old(s).spliced(option_u32_bytes(*v)));
                            }
                            Ok(())
                        },
                    }
                },
            }
        },
    }
}

/// Decode an optional 32-bit value at the decoder's cursor: the presence tag
/// is read as a boolean, and the payload is read iff it was true.
pub fn deserialize_option_u32(d: &mut Deserializer) -> (r: DeResult<Option<u32>>)
    requires
        old(d).wf(),
    ensures
        final(d).wf(),
        final(d).input@ == old(d).input@,
        old(d).spec_remaining() == 0 ==> r == DeResult::<Option<u32>>::Err(DeError::BufferSmall)
            && final(d).pos == old(d).pos,
        old(d).spec_remaining() >= 1 && old(d).rest()[0] >= 2 ==> r == DeResult::<Option<u32>>::Err(
            DeError::ExpectedBoolean,
        ),
        old(d).spec_remaining() >= 1 && old(d).rest()[0] == 0 ==> r == DeResult::<Option<u32>>::Ok(
            Option::None,
        ) && final(d).pos == old(d).pos + 1,
        old(d).spec_remaining() >= 5 && old(d).rest()[0] == 1 ==> r == DeResult::<Option<u32>>::Ok(
            Option::Some(be_to_u32(old(d).rest().subrange(1, 5))),
        ) && final(d).pos == old(d).pos + 5,
        1 <= old(d).spec_remaining() < 5 && old(d).rest()[0] == 1 ==> r == DeResult::<
            Option<u32>,
        >::Err(DeError::BufferSmall),
{
    match d.consume_bool() {
        Err(e) => Err(e),
        Ok(false) => Ok(Option::None),
        Ok(true) => {
            match d.consume_u32() {
                Err(e) => Err(e),
                Ok(a) => {
                    proof {
                        assert(old(d).rest().skip(1).take(4) =~= old(d).rest().subrange(1, 5));
                    }
                    Ok(Option::Some(a))
                },
            }
        },
    }
}

/// Round-trip law for the optional value: decoding the encoding of any
/// optional 32-bit value yields the value back.
pub proof fn lemma_option_u32_round_trip(v: Option<u32>)
    ensures
        option_u32_from_bytes(option_u32_bytes(v)) == Result::<Option<u32>, DeError>::Ok(v),
{
    match v {
        Option::None => {
        },
        Option::Some(a) => {
            assert(option_u32_bytes(v).subrange(1, 5) =~= u32_be(a));
            lemma_u32_round_trip(a);
        },
    }
}

/// Exact-consumption law for the optional value: a buffer holding exactly
/// one encoding decodes, and the same buffer with any byte appended fails
/// with the leftover-bytes error.
pub proof fn lemma_option_u32_exact_consumption(v: Option<u32>, extra: u8)
    ensures
        option_u32_from_bytes(option_u32_bytes(v)) == Result::<Option<u32>, DeError>::Ok(v),
        option_u32_from_bytes(option_u32_bytes(v).push(extra)) == Result::<Option<u32>, DeError>::Err(
            DeError::BufferLarge,
        ),
{
    lemma_option_u32_round_trip(v);
    let s = option_u32_bytes(v).push(extra);
    match v {
        Option::None => {
            assert(s[0] == 0);
        },
        Option::Some(a) => {
            assert(s[0] == 1);
        },
    }
}

/// Exact-consumption law for the tagged union: a buffer holding exactly one
/// encoding decodes, and the same buffer with any byte appended fails with
/// the leftover-bytes error.
pub proof fn lemma_e_exact_consumption(v: E, extra: u8)
    ensures
        e_from_bytes(e_bytes(v)) == Result::<E, DeError>::Ok(v),
        e_from_bytes(e_bytes(v).push(extra)) == Result::<E, DeError>::Err(DeError::BufferLarge),
{
    lemma_e_round_trip(v);
    let s = e_bytes(v).push(extra);
    match v {
        E::Unit => {
            assert(s[0] == 0);
        },
        E::Newtype(a) => {
            assert(s[0] == 1);
        },
        E::Tuple(a, b) => {
            assert(s[0] == 2);
        },
        E::Struct { a } => {
            assert(s[0] == 3);
        },
    }
}

/// Round-trip law for the tagged union: decoding the encoding of any value
/// of [`E`] yields the value back.
pub proof fn lemma_e_round_trip(v: E)
    ensures
        e_from_bytes(e_bytes(v)) == Result::<E, DeError>::Ok(v),
{
    match v {
        E::Unit => {
        },
        E::Newtype(a) => {
            assert(e_bytes(v).subrange(1, 5) =~= u32_be(a));
            lemma_u32_round_trip(a);
        },
        E::Tuple(a, b) => {
            assert(e_bytes(v).subrange(1, 5) =~= u32_be(a));
            assert(e_bytes(v).subrange(5, 9) =~= u32_be(b));
            lemma_u32_round_trip(a);
            lemma_u32_round_trip(b);
        },
        E::Struct { a } => {
            assert(e_bytes(v).subrange(1, 5) =~= u32_be(a));
            lemma_u32_round_trip(a);
        },
    }
}

} // verus!

use ubin::adapters::E;
use ubin::roots::from_bytes_bool;
use ubin::roots::from_bytes_e;
use ubin::roots::from_bytes_i16;
use ubin::roots::from_bytes_i32;
use ubin::roots::from_bytes_i64;
use ubin::roots::from_bytes_i8;
use ubin::roots::from_bytes_option_u32;
use ubin::roots::from_bytes_u16;
use ubin::roots::from_bytes_u32;
use ubin::roots::from_bytes_u64;
use ubin::roots::from_bytes_u8;
use ubin::DeError;
use ubin::Deserializer;

#[test]
fn test_de_enum() {
    // Invalid
    let buffer = vec![42];
    assert_eq!(from_bytes_e(buffer).unwrap_err(), DeError::InvalidVariant);

    // Unit
    let buffer = vec![0];
    let v: E = from_bytes_e(buffer).unwrap();
    assert_eq!(v, E::Unit);

    // Newtype
    let buffer = vec![
        1, // variant
        0, 0, 0, 1, // data
    ];
    let v: E = from_bytes_e(buffer).unwrap();
    assert_eq!(v, E::Newtype(1));

    // Tuple
    let buffer = vec![
        2, // variant
        0, 0, 0, 0x01, // index 0
        0, 0, 0, 0x02, // index 1
    ];
    let v: E = from_bytes_e(buffer).unwrap();
    assert_eq!(v, E::Tuple(1, 2));

    // Struct
    let buffer = vec![
        3, // variant
        0, 0, 0, 0x01, // field `a`
    ];
    let v: E = from_bytes_e(buffer).unwrap();
    assert_eq!(v, E::Struct { a: 1 });
}

#[test]
fn de_boolean_domain() {
    // 0 decodes to false, 1 to true, anything else is outside the domain.
    assert_eq!(from_bytes_bool(vec![0]).unwrap(), false);
    assert_eq!(from_bytes_bool(vec![1]).unwrap(), true);
    assert_eq!(from_bytes_bool(vec![42]).unwrap_err(), DeError::ExpectedBoolean);
}

#[test]
fn de_unsigned_big_endian() {
    assert_eq!(from_bytes_u8(vec![0xAB]).unwrap(), 0xAB);
    assert_eq!(from_bytes_u16(vec![0x12, 0x34]).unwrap(), 0x1234);
    assert_eq!(from_bytes_u32(vec![0xDE, 0xAD, 0xBE, 0xEF]).unwrap(), 0xDEAD_BEEF);
    assert_eq!(
        from_bytes_u64(vec![0x01, 0x02, 0x03, 0x04, 0x05, 0x06, 0x07, 0x08]).unwrap(),
        0x0102_0304_0506_0708
    );
}

#[test]
fn de_signed_two_complement() {
    assert_eq!(from_bytes_i8(vec![0xFF]).unwrap(), -1);
    assert_eq!(from_bytes_i16(vec![0xFF, 0xFE]).unwrap(), -2);
    assert_eq!(from_bytes_i32(vec![0x80, 0x00, 0x00, 0x00]).unwrap(), i32::MIN);
    assert_eq!(from_bytes_i64(vec![0xFF; 8]).unwrap(), -1);
    assert_eq!(
        from_bytes_i64(vec![0x7F, 0xFF, 0xFF, 0xFF, 0xFF, 0xFF, 0xFF, 0xFF]).unwrap(),
        i64::MAX
    );
}

#[test]
fn de_buffer_small_four_from_three() {
    // Decoding a 4-byte integer from a 3-byte buffer fails with BufferSmall.
    assert_eq!(from_bytes_u32(vec![0, 0, 0]).unwrap_err(), DeError::BufferSmall);
    assert_eq!(from_bytes_i32(vec![0, 0, 0]).unwrap_err(), DeError::BufferSmall);
}

#[test]
fn de_exact_consumption() {
    // A statically-sized type decodes from a buffer of exactly its size, and
    // one extra byte fails with BufferLarge.
    assert_eq!(from_bytes_u32(vec![0, 0, 0, 7]).unwrap(), 7);
    assert_eq!(from_bytes_u32(vec![0, 0, 0, 7, 0]).unwrap_err(), DeError::BufferLarge);
    assert_eq!(from_bytes_u8(vec![9]).unwrap(), 9);
    assert_eq!(from_bytes_u8(vec![9, 9]).unwrap_err(), DeError::BufferLarge);
}

#[test]
fn de_option_wire_form() {
    assert_eq!(from_bytes_option_u32(vec![0]).unwrap(), None);
    assert_eq!(from_bytes_option_u32(vec![1, 0, 0, 0, 1]).unwrap(), Some(1));
    // The presence tag is a boolean; a byte outside {0, 1} is rejected.
    assert_eq!(from_bytes_option_u32(vec![2]).unwrap_err(), DeError::ExpectedBoolean);
    // A present tag with a truncated payload runs out of bytes.
    assert_eq!(from_bytes_option_u32(vec![1, 0]).unwrap_err(), DeError::BufferSmall);
}

#[test]
fn de_enum_error_cases() {
    // An empty buffer has no discriminant to read.
    assert_eq!(from_bytes_e(Vec::new()).unwrap_err(), DeError::BufferSmall);
    // A valid discriminant with a truncated payload runs out of bytes.
    assert_eq!(from_bytes_e(vec![1, 0, 0]).unwrap_err(), DeError::BufferSmall);
    // A valid value followed by a leftover byte is rejected.
    assert_eq!(from_bytes_e(vec![0, 0]).unwrap_err(), DeError::BufferLarge);
    assert_eq!(from_bytes_e(vec![1, 0, 0, 0, 1, 9]).unwrap_err(), DeError::BufferLarge);
}

#[test]
fn de_streaming_fields_in_order() {
    // One decoder bound to one buffer yields fields in order, reporting how
    // many bytes remain at every step.
    let mut d = Deserializer::from_bytes(vec![0x01, 0x02, 0x01, 0x03, 0x04, 0x05, 0x06]);
    assert_eq!(d.remaining(), 7);
    assert_eq!(d.consume_u16().unwrap(), 0x0102);
    assert_eq!(d.remaining(), 5);
    assert_eq!(d.consume_bool().unwrap(), true);
    assert_eq!(d.consume_u32().unwrap(), 0x0304_0506);
    assert_eq!(d.remaining(), 0);
    assert!(d.end().is_ok());
}

#[test]
fn de_discriminant_validated_before_payload() {
    // The discriminant byte is read and validated first; a byte at or above
    // the declared variant count fails even if payload bytes follow.
    let buffer = vec![4, 0, 0, 0, 1];
    assert_eq!(from_bytes_e(buffer).unwrap_err(), DeError::InvalidVariant);
}

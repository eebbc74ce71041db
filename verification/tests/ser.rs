use ubin::adapters::E;
use ubin::roots::to_bytes_bool;
use ubin::roots::to_bytes_e;
use ubin::roots::to_bytes_i16;
use ubin::roots::to_bytes_i32;
use ubin::roots::to_bytes_i64;
use ubin::roots::to_bytes_i8;
use ubin::roots::to_bytes_option_u32;
use ubin::roots::to_bytes_u16;
use ubin::roots::to_bytes_u32;
use ubin::roots::to_bytes_u64;
use ubin::roots::to_bytes_u8;
use ubin::SerError;
use ubin::Serializer;

#[test]
fn test_ser_enum() {
    let mut buffer: Vec<u8> = vec![0; 100];

    // Unit
    let expected = [0];
    let len = to_bytes_e(&mut buffer, &E::Unit).unwrap();
    assert_eq!(len, 1);
    assert_eq!(&expected, &buffer[..len]);

    // Newtype
    let expected = [
        1, // variant
        0, 0, 0, 1, // data
    ];
    let len = to_bytes_e(&mut buffer, &E::Newtype(1)).unwrap();
    assert_eq!(len, 5);
    assert_eq!(&expected, &buffer[..len]);

    // Tuple
    let expected = [
        2, // variant
        0, 0, 0, 0x01, // index 0
        0, 0, 0, 0x02, // index 1
    ];
    let len = to_bytes_e(&mut buffer, &E::Tuple(1, 2)).unwrap();
    assert_eq!(len, 9);
    assert_eq!(&expected, &buffer[..len]);

    // Struct
    let expected = [
        3, // variant
        0, 0, 0, 0x01, // field `a`
    ];
    let len = to_bytes_e(&mut buffer, &E::Struct { a: 1 }).unwrap();
    assert_eq!(len, 5);
    assert_eq!(&expected, &buffer[..len]);
}

#[test]
fn ser_bool_wire_form() {
    let mut buffer: Vec<u8> = vec![0xAA; 4];
    let len = to_bytes_bool(&mut buffer, false).unwrap();
    assert_eq!(len, 1);
    assert_eq!(&buffer[..len], &[0]);

    let len = to_bytes_bool(&mut buffer, true).unwrap();
    assert_eq!(len, 1);
    assert_eq!(&buffer[..len], &[1]);
}

#[test]
fn ser_unsigned_big_endian() {
    let mut buffer: Vec<u8> = vec![0; 16];

    let len = to_bytes_u8(&mut buffer, 0xAB).unwrap();
    assert_eq!(len, 1);
    assert_eq!(&buffer[..len], &[0xAB]);

    let len = to_bytes_u16(&mut buffer, 0x1234).unwrap();
    assert_eq!(len, 2);
    assert_eq!(&buffer[..len], &[0x12, 0x34]);

    let len = to_bytes_u32(&mut buffer, 0xDEAD_BEEF).unwrap();
    assert_eq!(len, 4);
    assert_eq!(&buffer[..len], &[0xDE, 0xAD, 0xBE, 0xEF]);

    let len = to_bytes_u64(&mut buffer, 0x0102_0304_0506_0708).unwrap();
    assert_eq!(len, 8);
    assert_eq!(&buffer[..len], &[0x01, 0x02, 0x03, 0x04, 0x05, 0x06, 0x07, 0x08]);
}

#[test]
fn ser_signed_two_complement() {
    let mut buffer: Vec<u8> = vec![0; 16];

    let len = to_bytes_i8(&mut buffer, -1).unwrap();
    assert_eq!(len, 1);
    assert_eq!(&buffer[..len], &[0xFF]);

    let len = to_bytes_i16(&mut buffer, -2).unwrap();
    assert_eq!(len, 2);
    assert_eq!(&buffer[..len], &[0xFF, 0xFE]);

    let len = to_bytes_i32(&mut buffer, i32::MIN).unwrap();
    assert_eq!(len, 4);
    assert_eq!(&buffer[..len], &[0x80, 0x00, 0x00, 0x00]);

    let len = to_bytes_i64(&mut buffer, -1).unwrap();
    assert_eq!(len, 8);
    assert_eq!(&buffer[..len], &[0xFF; 8]);

    let len = to_bytes_i64(&mut buffer, i64::MAX).unwrap();
    assert_eq!(len, 8);
    assert_eq!(&buffer[..len], &[0x7F, 0xFF, 0xFF, 0xFF, 0xFF, 0xFF, 0xFF, 0xFF]);
}

#[test]
fn ser_overflow_four_bytes_into_three() {
    // Encoding a 4-byte integer into a 3-byte buffer fails with Overflow.
    let mut buffer: Vec<u8> = vec![0; 3];
    assert_eq!(to_bytes_u32(&mut buffer, 1).unwrap_err(), SerError::Overflow);
    assert_eq!(to_bytes_i32(&mut buffer, 1).unwrap_err(), SerError::Overflow);
}

#[test]
fn ser_overflow_empty_buffer() {
    let mut buffer: Vec<u8> = Vec::new();
    assert_eq!(to_bytes_bool(&mut buffer, true).unwrap_err(), SerError::Overflow);
    assert_eq!(to_bytes_u8(&mut buffer, 7).unwrap_err(), SerError::Overflow);
}

#[test]
fn ser_option_wire_form() {
    // Absent encodes as the single tag byte 0.
    let mut buffer: Vec<u8> = vec![0xAA; 8];
    let len = to_bytes_option_u32(&mut buffer, &None).unwrap();
    assert_eq!(len, 1);
    assert_eq!(&buffer[..len], &[0]);

    // Present(1) encodes as tag byte 1 followed by the payload's encoding.
    let len = to_bytes_option_u32(&mut buffer, &Some(1)).unwrap();
    assert_eq!(len, 5);
    assert_eq!(&buffer[..len], &[1, 0, 0, 0, 1]);
}

#[test]
fn ser_streaming_fields_in_order() {
    // One encoder bound to one buffer writes fields in the order they
    // arrive, advancing the cursor; leftover capacity is fine.
    let buffer: Vec<u8> = vec![0; 10];
    let mut s = Serializer::new(buffer);
    s.serialize_u16(0x0102).unwrap();
    s.serialize_bool(true).unwrap();
    s.serialize_u32(0x0304_0506).unwrap();
    let written = s.bytes_written();
    assert_eq!(written, 7);
    let out = s.into_buffer();
    assert_eq!(&out[..written], &[0x01, 0x02, 0x01, 0x03, 0x04, 0x05, 0x06]);
    assert_eq!(out.len(), 10);
}

#[test]
fn ser_enum_overflow_partial_tag() {
    // A variant payload that does not fit fails with Overflow.
    let mut buffer: Vec<u8> = vec![0; 4];
    assert_eq!(to_bytes_e(&mut buffer, &E::Newtype(1)).unwrap_err(), SerError::Overflow);
    // The unit variant still fits in a single byte.
    let len = to_bytes_e(&mut buffer, &E::Unit).unwrap();
    assert_eq!(len, 1);
    assert_eq!(buffer[0], 0);
}

use ubin::adapters::E;
use ubin::fields::Fields;
use ubin::roots::from_bytes_bool;
use ubin::roots::from_bytes_e;
use ubin::roots::from_bytes_i16;
use ubin::roots::from_bytes_i32;
use ubin::roots::from_bytes_i64;
use ubin::roots::from_bytes_i8;
use ubin::roots::from_bytes_option_u32;
use ubin::roots::from_bytes_u16;
use ubin::roots::from_bytes_u32;
use ubin::roots::from_bytes_u64;
use ubin::roots::from_bytes_u8;
use ubin::roots::to_bytes_bool;
use ubin::roots::to_bytes_e;
use ubin::roots::to_bytes_i16;
use ubin::roots::to_bytes_i32;
use ubin::roots::to_bytes_i64;
use ubin::roots::to_bytes_i8;
use ubin::roots::to_bytes_option_u32;
use ubin::roots::to_bytes_u16;
use ubin::roots::to_bytes_u32;
use ubin::roots::to_bytes_u64;
use ubin::roots::to_bytes_u8;

fn encoded<F>(encode: F) -> Vec<u8>
where
    F: FnOnce(&mut Vec<u8>) -> usize,
{
    let mut buffer: Vec<u8> = vec![0; 32];
    let len = encode(&mut buffer);
    buffer.truncate(len);
    buffer
}

#[test]
fn round_trip_bool() {
    for v in [false, true] {
        let bytes = encoded(|b| to_bytes_bool(b, v).unwrap());
        assert_eq!(from_bytes_bool(bytes).unwrap(), v);
    }
}

#[test]
fn round_trip_u8() {
    for v in [0u8, 1, 0x7F, 0x80, u8::MAX] {
        let bytes = encoded(|b| to_bytes_u8(b, v).unwrap());
        assert_eq!(from_bytes_u8(bytes).unwrap(), v);
    }
}

#[test]
fn round_trip_i8() {
    for v in [0i8, 1, -1, i8::MIN, i8::MAX] {
        let bytes = encoded(|b| to_bytes_i8(b, v).unwrap());
        assert_eq!(from_bytes_i8(bytes).unwrap(), v);
    }
}

#[test]
fn round_trip_u16() {
    for v in [0u16, 1, 0x1234, 0x8000, u16::MAX] {
        let bytes = encoded(|b| to_bytes_u16(b, v).unwrap());
        assert_eq!(from_bytes_u16(bytes).unwrap(), v);
    }
}

#[test]
fn round_trip_i16() {
    for v in [0i16, 1, -1, 0x1234, i16::MIN, i16::MAX] {
        let bytes = encoded(|b| to_bytes_i16(b, v).unwrap());
        assert_eq!(from_bytes_i16(bytes).unwrap(), v);
    }
}

#[test]
fn round_trip_u32() {
    for v in [0u32, 1, 0xDEAD_BEEF, 0x8000_0000, u32::MAX] {
        let bytes = encoded(|b| to_bytes_u32(b, v).unwrap());
        assert_eq!(from_bytes_u32(bytes).unwrap(), v);
    }
}

#[test]
fn round_trip_i32() {
    for v in [0i32, 1, -1, 0x1234_5678, i32::MIN, i32::MAX] {
        let bytes = encoded(|b| to_bytes_i32(b, v).unwrap());
        assert_eq!(from_bytes_i32(bytes).unwrap(), v);
    }
}

#[test]
fn round_trip_u64() {
    for v in [0u64, 1, 0x0102_0304_0506_0708, 0x8000_0000_0000_0000, u64::MAX] {
        let bytes = encoded(|b| to_bytes_u64(b, v).unwrap());
        assert_eq!(from_bytes_u64(bytes).unwrap(), v);
    }
}

#[test]
fn round_trip_i64() {
    for v in [0i64, 1, -1, 0x0102_0304_0506_0708, i64::MIN, i64::MAX] {
        let bytes = encoded(|b| to_bytes_i64(b, v).unwrap());
        assert_eq!(from_bytes_i64(bytes).unwrap(), v);
    }
}

#[test]
fn round_trip_option_u32() {
    for v in [None, Some(0u32), Some(1), Some(u32::MAX)] {
        let bytes = encoded(|b| to_bytes_option_u32(b, &v).unwrap());
        assert_eq!(from_bytes_option_u32(bytes).unwrap(), v);
    }
}

#[test]
fn round_trip_enum() {
    for v in [E::Unit, E::Newtype(1), E::Tuple(1, 2), E::Struct { a: 1 }, E::Newtype(u32::MAX)] {
        let bytes = encoded(|b| to_bytes_e(b, &v).unwrap());
        assert_eq!(from_bytes_e(bytes).unwrap(), v);
    }
}

#[test]
fn fields_sequencer_counts_down_exactly() {
    // The sequencer forwards exactly as many field visits as were declared
    // and reports the exact remaining count at every step.
    let mut fs = Fields::begin(2);
    assert_eq!(fs.size_hint(), 2);
    assert!(fs.next_element());
    assert_eq!(fs.size_hint(), 1);
    assert!(fs.next_element());
    assert_eq!(fs.size_hint(), 0);
    // At zero the sequencer is terminal: no further field is admitted.
    assert!(!fs.next_element());
    assert_eq!(fs.size_hint(), 0);

    let mut empty = Fields::begin(0);
    assert!(!empty.next_element());
    assert_eq!(empty.size_hint(), 0);
}

use x11rb_core::codec::{ParseError, Serialize, TryParse};

fn round_trip<T: TryParse + Serialize + PartialEq + std::fmt::Debug + Copy>(v: T)
where
    T::Bytes: AsRef<[u8]>,
{
    let bytes = v.serialize();
    let (back, rest) = T::try_parse(bytes.as_ref()).unwrap();
    assert_eq!(back, v);
    assert!(rest.is_empty());
}

#[test]
fn round_trip_unsigned() {
    round_trip(0u8);
    round_trip(255u8);
    round_trip(0x1234u16);
    round_trip(u16::MAX);
    round_trip(0xdead_beefu32);
    round_trip(0x0102_0304_0506_0708u64);
    round_trip(u64::MAX);
}

#[test]
fn round_trip_signed() {
    round_trip(-1i8);
    round_trip(i8::MIN);
    round_trip(-2i16);
    round_trip(i16::MIN);
    round_trip(-100_000i32);
    round_trip(i32::MAX);
    round_trip(-5i64);
    round_trip(i64::MIN);
}

#[test]
fn round_trip_bool() {
    round_trip(true);
    round_trip(false);
}

#[test]
fn integers_use_native_order() {
    assert_eq!(0x1234u16.serialize(), 0x1234u16.to_ne_bytes());
    assert_eq!(0xdead_beefu32.serialize(), 0xdead_beefu32.to_ne_bytes());
    assert_eq!((-3i64).serialize(), (-3i64).to_ne_bytes());
    let (v, rest) = u32::try_parse(&[1, 0, 0, 0, 9]).unwrap();
    assert_eq!(v, u32::from_ne_bytes([1, 0, 0, 0]));
    assert_eq!(rest, &[9]);
}

#[test]
fn parse_leaves_the_remainder() {
    let (v, rest) = u16::try_parse(&[7, 0, 1, 2, 3]).unwrap();
    assert_eq!(v, u16::from_ne_bytes([7, 0]));
    assert_eq!(rest, &[1, 2, 3]);
}

#[test]
fn short_input_is_truncated() {
    assert_eq!(u8::try_parse(&[]).unwrap_err(), ParseError::TruncatedInput);
    assert_eq!(bool::try_parse(&[]).unwrap_err(), ParseError::TruncatedInput);
    assert_eq!(u16::try_parse(&[1]).unwrap_err(), ParseError::TruncatedInput);
    assert_eq!(i16::try_parse(&[1]).unwrap_err(), ParseError::TruncatedInput);
    assert_eq!(u32::try_parse(&[1, 2, 3]).unwrap_err(), ParseError::TruncatedInput);
    assert_eq!(i32::try_parse(&[]).unwrap_err(), ParseError::TruncatedInput);
    assert_eq!(u64::try_parse(&[1, 2, 3, 4, 5, 6, 7]).unwrap_err(), ParseError::TruncatedInput);
    assert_eq!(i64::try_parse(&[0; 4]).unwrap_err(), ParseError::TruncatedInput);
}

#[test]
fn bool_bytes() {
    assert_eq!(true.serialize(), [0x01]);
    assert_eq!(false.serialize(), [0x00]);
    assert_eq!(bool::try_parse(&[0x07]).unwrap().0, true);
    assert_eq!(bool::try_parse(&[0x00]).unwrap().0, false);
}

#[test]
fn slice_concatenates_items() {
    let items: [u16; 3] = [1, 0x0203, 0xffff];
    let mut expected = Vec::new();
    for i in items.iter() {
        expected.extend_from_slice(&i.to_ne_bytes());
    }
    assert_eq!(items[..].serialize(), expected);
    let none: [u32; 0] = [];
    assert!(none[..].serialize().is_empty());
    let flags = [true, false, true];
    assert_eq!(flags[..].serialize(), vec![1, 0, 1]);
}

#[test]
fn serialize_into_appends() {
    let mut out = vec![9u8];
    5u8.serialize_into(&mut out);
    0x0102u16.serialize_into(&mut out);
    let mut expected = vec![9u8, 5];
    expected.extend_from_slice(&0x0102u16.to_ne_bytes());
    assert_eq!(out, expected);
}

#[test]
fn floats_travel_as_their_bits() {
    let v = -1.5f32;
    let bytes = v.to_bits().serialize();
    let (bits, rest) = u32::try_parse(&bytes).unwrap();
    assert_eq!(f32::from_bits(bits), v);
    assert!(rest.is_empty());
    let nan = f64::from_bits(0x7ff8_0000_0000_0123);
    let (bits, _) = u64::try_parse(&nan.to_bits().serialize()).unwrap();
    assert_eq!(bits, 0x7ff8_0000_0000_0123);
}

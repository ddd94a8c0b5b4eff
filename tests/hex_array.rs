use serde_human_bytes::hex_array::{self, HexArrayError};
use serde_human_bytes::schema::decimal_string;
use serde_human_bytes::{HexArray, Token, TokenKind};

const FIXTURE: [u8; 16] = [
    0x01, 0x23, 0x45, 0x67, 0x89, 0xab, 0xcd, 0xef, 0x01, 0x23, 0x45, 0x67, 0x89, 0xab, 0xcd, 0xef,
];
const AS_HEX: &str = "0123456789abcdef0123456789abcdef";

fn text(s: &str) -> Token {
    Token::Str(s.to_string())
}

#[test]
fn hex_hex_serialize() {
    assert_eq!(hex_array::serialize(&FIXTURE, true), text(AS_HEX));
    assert_eq!(hex_array::serialize(&FIXTURE, false), Token::Bytes(FIXTURE.to_vec()));
}

#[test]
fn hex_serialize_upper() {
    assert_eq!(
        hex_array::serialize_upper(&FIXTURE, true),
        text("0123456789ABCDEF0123456789ABCDEF")
    );
    assert_eq!(hex_array::serialize_upper(&FIXTURE, false), Token::Bytes(FIXTURE.to_vec()));
}

#[test]
fn hex_hex_deserialize() {
    assert_eq!(hex_array::deserialize::<16>(true, &text(AS_HEX)), Ok(FIXTURE));
    assert_eq!(hex_array::deserialize::<16>(false, &Token::Bytes(FIXTURE.to_vec())), Ok(FIXTURE));
}

#[test]
fn hex_deserialize_wrong_size_string() {
    assert_eq!(
        hex_array::deserialize::<15>(true, &text(AS_HEX)),
        Err(HexArrayError::InvalidStringLength { actual: 32, expected: 15 })
    );
}

#[test]
fn hex_deserialize_odd_length() {
    assert_eq!(
        hex_array::deserialize::<16>(true, &text("0123456789abcdef0123456789abcde")),
        Err(HexArrayError::OddLength { expected: 16 })
    );
}

#[test]
fn hex_deserialize_invalid_character() {
    assert_eq!(
        hex_array::deserialize::<16>(true, &text("0123456789abcdef0123456789abcdeg")),
        Err(HexArrayError::InvalidHexCharacter { c: 'g', index: 31 })
    );
    assert_eq!(
        hex_array::deserialize::<2>(true, &text("x1zz")),
        Err(HexArrayError::InvalidHexCharacter { c: 'x', index: 0 })
    );
}

#[test]
fn hex_deserialize_non_ascii() {
    // "é" is the two bytes 0xc3 0xa9; the first is reported.
    assert_eq!(
        hex_array::deserialize::<1>(true, &text("é")),
        Err(HexArrayError::InvalidHexCharacter { c: '\u{c3}', index: 0 })
    );
    assert_eq!(
        hex_array::deserialize::<1>(true, &text("0é")),
        Err(HexArrayError::OddLength { expected: 1 })
    );
}

#[test]
fn hex_deserialize_wrong_size_bytes() {
    assert_eq!(
        hex_array::deserialize::<15>(false, &Token::Bytes(FIXTURE.to_vec())),
        Err(HexArrayError::InvalidLength { actual: 16, expected: 15 })
    );
    assert_eq!(
        hex_array::deserialize::<17>(false, &Token::Bytes(FIXTURE.to_vec())),
        Err(HexArrayError::InvalidLength { actual: 16, expected: 17 })
    );
}

#[test]
fn hex_deserialize_wrong_token() {
    assert_eq!(
        hex_array::deserialize::<16>(true, &Token::Bytes(FIXTURE.to_vec())),
        Err(HexArrayError::InvalidType { expected_kind: TokenKind::Str })
    );
    assert_eq!(
        hex_array::deserialize::<16>(false, &text(AS_HEX)),
        Err(HexArrayError::InvalidType { expected_kind: TokenKind::Bytes })
    );
}

#[test]
fn hex_case_insensitive() {
    let upper = hex_array::serialize_upper(&FIXTURE, true);
    let lower = hex_array::serialize(&FIXTURE, true);
    assert_eq!(hex_array::deserialize::<16>(true, &upper), hex_array::deserialize::<16>(true, &lower));
    assert_eq!(hex_array::deserialize::<16>(true, &text("0123456789AbCdEf0123456789aBcDeF")), Ok(FIXTURE));
    assert_eq!(
        hex_array::deserialize::<15>(true, &upper),
        hex_array::deserialize::<15>(true, &lower)
    );
}

#[test]
fn hex_round_trip() {
    let bytes: [u8; 4] = [0x00, 0xff, 0x10, 0x0a];
    for hr in [true, false] {
        let t = hex_array::serialize(&bytes, hr);
        assert_eq!(hex_array::deserialize::<4>(hr, &t), Ok(bytes));
        let t = hex_array::serialize_upper(&bytes, hr);
        assert_eq!(hex_array::deserialize::<4>(hr, &t), Ok(bytes));
    }
    assert_eq!(hex_array::serialize(&bytes, true), text("00ff100a"));
}

#[test]
fn hex_empty() {
    assert_eq!(hex_array::serialize(&[], true), text(""));
    assert_eq!(hex_array::deserialize::<0>(true, &text("")), Ok([]));
    assert_eq!(hex_array::deserialize::<0>(false, &Token::Bytes(Vec::new())), Ok([]));
    assert_eq!(
        hex_array::deserialize::<0>(true, &text("00")),
        Err(HexArrayError::InvalidStringLength { actual: 2, expected: 0 })
    );
}

#[test]
fn hex_array_wrapper() {
    let a = HexArray::new(FIXTURE);
    assert_eq!(a.into_inner(), FIXTURE);
    assert_eq!(HexArray::<16>::serialize(&FIXTURE, true), text(AS_HEX));
    assert_eq!(HexArray::<16>::deserialize(true, &text(AS_HEX)), Ok(FIXTURE));
    let b: HexArray<16> = HexArray::from(FIXTURE);
    assert!(a == b);
    let raw: [u8; 16] = b.into();
    assert_eq!(raw, FIXTURE);
    assert_eq!(HexArray::<3>::default().0, [0u8; 3]);
}

#[test]
fn hex_array_display() {
    let a = HexArray::new(FIXTURE);
    assert_eq!(a.to_string(), AS_HEX);
    assert_eq!(a.debug_string(), format!("HexArray({})", AS_HEX));
    // The same whichever mode the value came from.
    let from_bytes = HexArray::<16>::deserialize(false, &Token::Bytes(FIXTURE.to_vec())).unwrap();
    assert_eq!(HexArray::new(from_bytes).to_string(), AS_HEX);
}

#[test]
fn hex_array_access() {
    let mut a = HexArray::new([1u8, 2, 3]);
    assert_eq!(a.len(), 3);
    assert_eq!(a.as_ref(), &[1u8, 2, 3][..]);
    a[0] = 9;
    a.as_mut()[2] = 7;
    assert_eq!(a.0, [9, 2, 7]);
    assert_eq!(a.to_string(), "090207");
}

#[test]
fn hex_array_schema() {
    assert_eq!(HexArray::<16>::schema_name(), "HexArray_16");
    assert!(!HexArray::<16>::is_referenceable());
    let s = HexArray::<16>::json_schema();
    assert_eq!(s.min_length, Some(32));
    assert_eq!(s.max_length, Some(32));
    assert_eq!(s.pattern.as_deref(), Some("^[0-9a-fA-F]{32}$"));
    assert_eq!(s.format, None);
    assert_eq!(s.content_encoding, None);
    assert_eq!(HexArray::<0>::json_schema().pattern.as_deref(), Some("^[0-9a-fA-F]{0}$"));
}

#[test]
fn decimal_rendering() {
    assert_eq!(decimal_string(0), "0");
    assert_eq!(decimal_string(7), "7");
    assert_eq!(decimal_string(10), "10");
    assert_eq!(decimal_string(1234567890), "1234567890");
}

#[test]
fn hex_array_orders_by_bytes() {
    assert!(HexArray::new([0u8, 9]) < HexArray::new([1u8, 0]));
    assert!(HexArray::new([2u8, 0]) > HexArray::new([1u8, 255]));
}

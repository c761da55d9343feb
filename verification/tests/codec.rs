use goldilocks_field::field::GoldilocksField;
use goldilocks_field::model::MODULUS;
use lambdaworks_math::errors::ByteConversionError;
use lambdaworks_math::errors::CreationError;
use lambdaworks_math::errors::DeserializationError;

#[test]
fn to_bytes_be_is_most_significant_first() {
    let element = GoldilocksField { value: 0x0102_0304_0506_0708 };
    assert_eq!(element.to_bytes_be(), vec![1u8, 2, 3, 4, 5, 6, 7, 8]);
    assert_eq!(element.to_bytes_be(), 0x0102_0304_0506_0708u64.to_be_bytes().to_vec());
}

#[test]
fn to_bytes_le_is_least_significant_first() {
    let element = GoldilocksField { value: 0x0102_0304_0506_0708 };
    assert_eq!(element.to_bytes_le(), vec![8u8, 7, 6, 5, 4, 3, 2, 1]);
    assert_eq!(element.to_bytes_le(), 0x0102_0304_0506_0708u64.to_le_bytes().to_vec());
}

#[test]
fn encoding_does_not_reduce_the_word() {
    let element = GoldilocksField { value: u64::MAX };
    assert_eq!(element.to_bytes_be(), vec![0xffu8; 8]);
    assert_eq!(element.to_bytes_le(), vec![0xffu8; 8]);
    let back = GoldilocksField::from_bytes_be(&element.to_bytes_be()).unwrap();
    assert_eq!(back.value, u64::MAX);
}

#[test]
fn from_bytes_be_reads_eight_bytes() {
    let bytes: [u8; 8] = [1, 2, 3, 4, 5, 6, 7, 8];
    let element = GoldilocksField::from_bytes_be(&bytes).unwrap();
    assert_eq!(element.value, 0x0102_0304_0506_0708);
    assert_eq!(element.value, u64::from_be_bytes(bytes));
}

#[test]
fn from_bytes_le_reads_eight_bytes() {
    let bytes: [u8; 8] = [1, 2, 3, 4, 5, 6, 7, 8];
    let element = GoldilocksField::from_bytes_le(&bytes).unwrap();
    assert_eq!(element.value, 0x0807_0605_0403_0201);
    assert_eq!(element.value, u64::from_le_bytes(bytes));
}

#[test]
fn from_bytes_ignores_what_follows_the_eighth_byte() {
    let bytes: [u8; 11] = [1, 2, 3, 4, 5, 6, 7, 8, 9, 10, 11];
    assert_eq!(
        GoldilocksField::from_bytes_be(&bytes).unwrap().value,
        0x0102_0304_0506_0708
    );
    assert_eq!(
        GoldilocksField::from_bytes_le(&bytes).unwrap().value,
        0x0807_0605_0403_0201
    );
}

#[test]
fn from_bytes_be_of_seven_bytes_is_an_error() {
    let bytes: [u8; 7] = [1, 2, 3, 4, 5, 6, 7];
    assert_eq!(
        GoldilocksField::from_bytes_be(&bytes),
        Err(ByteConversionError::FromBEBytesError)
    );
    assert_eq!(
        GoldilocksField::from_bytes_be(&[]),
        Err(ByteConversionError::FromBEBytesError)
    );
}

#[test]
fn from_bytes_le_of_seven_bytes_is_an_error() {
    let bytes: [u8; 7] = [1, 2, 3, 4, 5, 6, 7];
    assert_eq!(
        GoldilocksField::from_bytes_le(&bytes),
        Err(ByteConversionError::FromLEBytesError)
    );
    assert_eq!(
        GoldilocksField::from_bytes_le(&[]),
        Err(ByteConversionError::FromLEBytesError)
    );
}

#[test]
fn bytes_round_trip_in_both_orders() {
    let samples: [u64; 7] = [
        0,
        1,
        0xff,
        0x0102_0304_0506_0708,
        MODULUS - 1,
        MODULUS,
        u64::MAX,
    ];
    for word in samples.iter() {
        let element = GoldilocksField { value: *word };
        assert_eq!(
            GoldilocksField::from_bytes_be(&element.to_bytes_be()),
            Ok(element)
        );
        assert_eq!(
            GoldilocksField::from_bytes_le(&element.to_bytes_le()),
            Ok(element)
        );
        assert_eq!(element.to_bytes_be().len(), 8);
        assert_eq!(element.to_bytes_le().len(), 8);
    }
}

#[test]
fn serialize_is_big_endian() {
    let element = GoldilocksField { value: 0x0102_0304_0506_0708 };
    assert_eq!(element.serialize(), vec![1u8, 2, 3, 4, 5, 6, 7, 8]);
    assert_eq!(element.serialize(), element.to_bytes_be());
}

#[test]
fn deserialize_reads_big_endian() {
    let bytes: [u8; 8] = [1, 2, 3, 4, 5, 6, 7, 8];
    assert_eq!(
        GoldilocksField::deserialize(&bytes),
        Ok(GoldilocksField { value: 0x0102_0304_0506_0708 })
    );
    let element = GoldilocksField { value: MODULUS - 1 };
    assert_eq!(GoldilocksField::deserialize(&element.serialize()), Ok(element));
}

#[test]
fn deserialize_of_seven_bytes_is_an_error() {
    let bytes: [u8; 7] = [1, 2, 3, 4, 5, 6, 7];
    assert_eq!(
        GoldilocksField::deserialize(&bytes),
        Err(DeserializationError::FieldFromBytesError)
    );
}

#[test]
fn from_hex_with_and_without_prefix() {
    assert_eq!(GoldilocksField::from_hex("0x10"), Ok(16));
    assert_eq!(GoldilocksField::from_hex("10"), Ok(16));
    assert_eq!(
        GoldilocksField::from_hex("0xdeadBEEF"),
        GoldilocksField::from_hex("deadBEEF")
    );
    assert_eq!(GoldilocksField::from_hex("deadBEEF"), Ok(0xdead_beef));
}

#[test]
fn from_hex_of_no_hex_digits_is_an_error() {
    assert_eq!(
        GoldilocksField::from_hex("zz"),
        Err(CreationError::InvalidHexString)
    );
    assert_eq!(
        GoldilocksField::from_hex("12g4"),
        Err(CreationError::InvalidHexString)
    );
    assert_eq!(
        GoldilocksField::from_hex("0x0x10"),
        Err(CreationError::InvalidHexString)
    );
    assert_eq!(
        GoldilocksField::from_hex(" 10"),
        Err(CreationError::InvalidHexString)
    );
    assert_eq!(
        GoldilocksField::from_hex("1_0"),
        Err(CreationError::InvalidHexString)
    );
    assert_eq!(
        GoldilocksField::from_hex("-10"),
        Err(CreationError::InvalidHexString)
    );
    assert_eq!(
        GoldilocksField::from_hex("+10"),
        Err(CreationError::InvalidHexString)
    );
    assert_eq!(
        GoldilocksField::from_hex("1\u{e9}"),
        Err(CreationError::InvalidHexString)
    );
    assert_eq!(
        GoldilocksField::from_hex("0x\u{663}"),
        Err(CreationError::InvalidHexString)
    );
}

#[test]
fn from_hex_of_an_empty_numeral_is_an_error() {
    assert_eq!(
        GoldilocksField::from_hex(""),
        Err(CreationError::InvalidHexString)
    );
    // a prefix with nothing behind it is no prefix
    assert_eq!(
        GoldilocksField::from_hex("0x"),
        Err(CreationError::InvalidHexString)
    );
}

#[test]
fn from_hex_short_strings() {
    assert_eq!(GoldilocksField::from_hex("0"), Ok(0));
    assert_eq!(GoldilocksField::from_hex("f"), Ok(15));
    assert_eq!(GoldilocksField::from_hex("F"), Ok(15));
    assert_eq!(GoldilocksField::from_hex("0x0"), Ok(0));
    assert_eq!(GoldilocksField::from_hex("0xA"), Ok(10));
    assert_eq!(GoldilocksField::from_hex("a9"), Ok(0xa9));
}

#[test]
fn from_hex_bounds_of_64_bits() {
    assert_eq!(
        GoldilocksField::from_hex("ffffffffffffffff"),
        Ok(u64::MAX)
    );
    assert_eq!(
        GoldilocksField::from_hex("0xFFFFFFFFFFFFFFFF"),
        Ok(u64::MAX)
    );
    assert_eq!(
        GoldilocksField::from_hex("10000000000000000"),
        Err(CreationError::InvalidHexString)
    );
    assert_eq!(
        GoldilocksField::from_hex("0xfffffffffffffffff"),
        Err(CreationError::InvalidHexString)
    );
    // leading zeros do not count towards the width
    assert_eq!(
        GoldilocksField::from_hex("0000000000000000000000ff"),
        Ok(255)
    );
}

#[test]
fn from_hex_does_not_reduce_the_word() {
    assert_eq!(
        GoldilocksField::from_hex("ffffffff00000001"),
        Ok(MODULUS)
    );
    assert_eq!(
        GoldilocksField::from_hex("0xffffffff00000002"),
        Ok(MODULUS + 1)
    );
}

#[test]
fn from_hex_agrees_with_the_standard_parser() {
    let samples: [&str; 8] = [
        "0",
        "7f",
        "DEADbeef",
        "ffffffffffffffff",
        "10000000000000000",
        "",
        "xyz",
        "12 34",
    ];
    for text in samples.iter() {
        assert_eq!(
            GoldilocksField::from_hex(text).ok(),
            u64::from_str_radix(text, 16).ok()
        );
    }
}

use bedrock_orm::database_providers::sqlite::{
    decimal_text, decode_value, encode_value, parameter_name, BoundValue, Encoding, StoredValue,
    MAX_PARAMETER_BYTES,
};
use bedrock_orm::domain::{Date, DateTime, F32Bits, F64Bits, ValueUnion};

#[test]
fn default_encoding_has_the_stated_texts() {
    let encoding = Encoding::default();
    assert_eq!(encoding.true_string, "true");
    assert_eq!(encoding.false_string, "false");
    assert_eq!(encoding.date_format, "%F");
    assert_eq!(encoding.datetime_format, "%+");
}

#[test]
fn decimal_text_of_numbers() {
    assert_eq!(decimal_text(0), "0");
    assert_eq!(decimal_text(1), "1");
    assert_eq!(decimal_text(9), "9");
    assert_eq!(decimal_text(10), "10");
    assert_eq!(decimal_text(99), "99");
    assert_eq!(decimal_text(100), "100");
    assert_eq!(decimal_text(907), "907");
    assert_eq!(decimal_text(1234567890), "1234567890");
    assert_eq!(decimal_text(9223372036854775807), "9223372036854775807");
    assert_eq!(decimal_text(9223372036854775808), "9223372036854775808");
    assert_eq!(decimal_text(u64::MAX), "18446744073709551615");
}

#[test]
fn decimal_text_is_what_the_standard_library_writes() {
    let mut number: u64 = 1;
    for _ in 0..64 {
        for near in [number.wrapping_sub(1), number, number.wrapping_add(1)] {
            assert_eq!(decimal_text(near), near.to_string());
        }
        number = number.wrapping_mul(2);
    }
    let mut power: u64 = 1;
    for _ in 0..19 {
        for near in [power - 1, power, power + 1] {
            assert_eq!(decimal_text(near), near.to_string());
        }
        power *= 10;
    }
}

#[test]
fn parameter_name_is_a_colon_and_the_identifier() {
    assert_eq!(parameter_name("abc"), ":abc");
    assert_eq!(parameter_name("_"), ":_");
    assert_eq!(parameter_name(""), ":");
}

#[test]
fn boolean_is_encoded_as_configured_text() {
    let encoding = Encoding::default();
    assert_eq!(
        encode_value(&ValueUnion::Bool(true), &encoding),
        Some(BoundValue::Text("true".to_owned()))
    );
    assert_eq!(
        encode_value(&ValueUnion::Bool(false), &encoding),
        Some(BoundValue::Text("false".to_owned()))
    );
    let custom = Encoding {
        true_string: "1".to_owned(),
        false_string: "".to_owned(),
        date_format: "%F".to_owned(),
        datetime_format: "%+".to_owned(),
    };
    assert_eq!(
        encode_value(&ValueUnion::Bool(true), &custom),
        Some(BoundValue::Text("1".to_owned()))
    );
    assert_eq!(
        encode_value(&ValueUnion::Bool(false), &custom),
        Some(BoundValue::Text(String::new()))
    );
}

#[test]
fn integer_is_encoded_as_signed_integer() {
    let encoding = Encoding::default();
    let cases = [
        (ValueUnion::U8(0), 0i64),
        (ValueUnion::U8(u8::MAX), 255),
        (ValueUnion::U16(u16::MAX), 65535),
        (ValueUnion::U32(u32::MAX), 4294967295),
        (ValueUnion::U64(0), 0),
        (ValueUnion::U64(i64::MAX as u64), i64::MAX),
        (ValueUnion::I8(i8::MIN), -128),
        (ValueUnion::I8(i8::MAX), 127),
        (ValueUnion::I16(i16::MIN), -32768),
        (ValueUnion::I32(i32::MIN), -2147483648),
        (ValueUnion::I64(i64::MIN), i64::MIN),
        (ValueUnion::I64(i64::MAX), i64::MAX),
        (ValueUnion::I64(-1), -1),
    ];
    for (value, expected) in cases {
        assert_eq!(
            encode_value(&value, &encoding),
            Some(BoundValue::Integer(expected)),
            "{value:?}"
        );
    }
}

#[test]
fn unsigned_number_above_the_signed_range_is_encoded_as_decimal_text() {
    let encoding = Encoding::default();
    assert_eq!(
        encode_value(&ValueUnion::U64(i64::MAX as u64 + 1), &encoding),
        Some(BoundValue::Text("9223372036854775808".to_owned()))
    );
    assert_eq!(
        encode_value(&ValueUnion::U64(u64::MAX), &encoding),
        Some(BoundValue::Text("18446744073709551615".to_owned()))
    );
}

#[test]
fn text_and_bytes_are_encoded_as_they_are() {
    let encoding = Encoding::default();
    let text = "some text".to_owned();
    assert_eq!(
        encode_value(&ValueUnion::String(&text), &encoding),
        Some(BoundValue::Text("some text".to_owned()))
    );
    let empty = String::new();
    assert_eq!(
        encode_value(&ValueUnion::String(&empty), &encoding),
        Some(BoundValue::Text(String::new()))
    );
    assert_eq!(
        encode_value(&ValueUnion::Bytestring(&[0, 1, 255]), &encoding),
        Some(BoundValue::Binary(vec![0, 1, 255]))
    );
    assert_eq!(
        encode_value(&ValueUnion::Bytestring(&[]), &encoding),
        Some(BoundValue::Binary(vec![]))
    );
}

#[test]
fn date_and_moment_are_encoded_under_the_configured_patterns() {
    let date = Date::from_ymd_opt(2023, 5, 17).expect("a date");
    let moment = DateTime::new(date, 12, 34, 56, 0).expect("a moment");
    let encoding = Encoding::default();
    assert_eq!(
        encode_value(&ValueUnion::Date(&date), &encoding),
        Some(BoundValue::Text("2023-05-17".to_owned()))
    );
    assert_eq!(
        encode_value(&ValueUnion::DateTime(&moment), &encoding),
        Some(BoundValue::Text("2023-05-17T12:34:56+00:00".to_owned()))
    );
    let custom = Encoding {
        true_string: "true".to_owned(),
        false_string: "false".to_owned(),
        date_format: "%d/%m/%y".to_owned(),
        datetime_format: "%H:%M on %F".to_owned(),
    };
    assert_eq!(
        encode_value(&ValueUnion::Date(&date), &custom),
        Some(BoundValue::Text("17/05/23".to_owned()))
    );
    assert_eq!(
        encode_value(&ValueUnion::DateTime(&moment), &custom),
        Some(BoundValue::Text("12:34 on 2023-05-17".to_owned()))
    );
}

#[test]
fn value_without_an_encoding_is_not_encoded() {
    let date = Date::from_ymd_opt(2023, 5, 17).expect("a date");
    let moment = DateTime::new(date, 12, 34, 56, 0).expect("a moment");
    let unusable = Encoding {
        true_string: "true".to_owned(),
        false_string: "false".to_owned(),
        date_format: "%T".to_owned(),
        datetime_format: "%Q".to_owned(),
    };
    assert_eq!(encode_value(&ValueUnion::Date(&date), &unusable), None);
    assert_eq!(encode_value(&ValueUnion::DateTime(&moment), &unusable), None);
    let encoding = Encoding::default();
    assert_eq!(
        encode_value(&ValueUnion::F32(F32Bits(1.5f32.to_bits())), &encoding),
        None
    );
    assert_eq!(
        encode_value(&ValueUnion::F64(F64Bits(1.5f64.to_bits())), &encoding),
        None
    );
}

#[test]
fn short_values_fit_a_parameter() {
    assert_eq!(MAX_PARAMETER_BYTES, 2147483647);
    assert!(BoundValue::Integer(i64::MAX).fits_parameter());
    assert!(BoundValue::Text("grüße".to_owned()).fits_parameter());
    assert!(BoundValue::Text(String::new()).fits_parameter());
    assert!(BoundValue::Binary(vec![0; 1024]).fits_parameter());
}

#[test]
fn stored_value_is_decoded_by_its_storage_kind() {
    let text = "words".to_owned();
    assert_eq!(
        decode_value(&StoredValue::Binary(vec![1, 2, 3])),
        Some(ValueUnion::Bytestring(&[1, 2, 3]))
    );
    assert_eq!(
        decode_value(&StoredValue::Float(1.5f64.to_bits())),
        Some(ValueUnion::F64(F64Bits(1.5f64.to_bits())))
    );
    assert_eq!(
        decode_value(&StoredValue::Integer(-7)),
        Some(ValueUnion::I64(-7))
    );
    assert_eq!(
        decode_value(&StoredValue::Text("words".to_owned())),
        Some(ValueUnion::String(&text))
    );
    assert_eq!(decode_value(&StoredValue::Null), None);
}

#[test]
fn decimal_text_has_at_most_twenty_digits() {
    assert_eq!(decimal_text(u64::MAX).len(), 20);
    assert_eq!(decimal_text(9_999_999_999_999_999_999).len(), 19);
    assert_eq!(decimal_text(10_000_000_000_000_000_000).len(), 20);
    for number in [0u64, 9, 10, u64::MAX / 3, u64::MAX - 1, u64::MAX] {
        let text = decimal_text(number);
        assert!(text.len() <= 20 && text.is_ascii());
    }
}

#[test]
fn whole_number_is_always_encoded_to_fit() {
    let encoding = Encoding::default();
    for value in [
        ValueUnion::U8(u8::MAX),
        ValueUnion::U16(u16::MAX),
        ValueUnion::U32(u32::MAX),
        ValueUnion::U64(u64::MAX),
        ValueUnion::U64(0),
        ValueUnion::I8(i8::MIN),
        ValueUnion::I16(i16::MIN),
        ValueUnion::I32(i32::MIN),
        ValueUnion::I64(i64::MIN),
    ] {
        let bound = encode_value(&value, &encoding).expect("an encoding");
        assert!(bound.fits_parameter(), "{value:?}");
    }
}

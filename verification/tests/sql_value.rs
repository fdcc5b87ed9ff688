use trailbase_core::admin::sql_value::{
    base64_text, decode_hex, Base64Error, Blob, DecodeError, SqlValue, Value,
};

#[test]
fn decode_hex_reads_two_characters_to_the_byte() {
    assert_eq!(decode_hex("00ff10Ab"), Ok(vec![0x00, 0xff, 0x10, 0xab]));
    assert_eq!(decode_hex("DEADbeef"), Ok(vec![0xde, 0xad, 0xbe, 0xef]));
    assert_eq!(decode_hex("7f"), Ok(vec![127]));
}

#[test]
fn decode_hex_of_nothing_is_nothing() {
    assert_eq!(decode_hex(""), Ok(vec![]));
}

#[test]
fn decode_hex_refuses_an_odd_length() {
    assert_eq!(decode_hex("a"), Err(DecodeError::Hex));
    assert_eq!(decode_hex("abc"), Err(DecodeError::Hex));
    assert_eq!(decode_hex("0011223"), Err(DecodeError::Hex));
}

#[test]
fn decode_hex_refuses_what_is_no_digit() {
    assert_eq!(decode_hex("zz"), Err(DecodeError::Hex));
    assert_eq!(decode_hex("0g"), Err(DecodeError::Hex));
    assert_eq!(decode_hex("g0"), Err(DecodeError::Hex));
    assert_eq!(decode_hex("00 1"), Err(DecodeError::Hex));
    assert_eq!(decode_hex("0x10"), Err(DecodeError::Hex));
    assert_eq!(decode_hex("-1"), Err(DecodeError::Hex));
    assert_eq!(decode_hex("1_"), Err(DecodeError::Hex));
}

#[test]
fn decode_hex_stops_at_the_first_bad_pair() {
    assert_eq!(decode_hex("00zz11"), Err(DecodeError::Hex));
    assert_eq!(decode_hex("zz0011"), Err(DecodeError::Hex));
    assert_eq!(decode_hex("0011zz"), Err(DecodeError::Hex));
}

#[test]
fn decode_hex_takes_a_leading_plus_as_a_sign() {
    assert_eq!(decode_hex("+f"), Ok(vec![15]));
    assert_eq!(decode_hex("+0"), Ok(vec![0]));
    assert_eq!(decode_hex("10+a"), Ok(vec![16, 10]));
    assert_eq!(decode_hex("f+"), Err(DecodeError::Hex));
    assert_eq!(decode_hex("++"), Err(DecodeError::Hex));
    assert_eq!(decode_hex("+-"), Err(DecodeError::Hex));
    assert_eq!(decode_hex("+g"), Err(DecodeError::Hex));
}

#[test]
fn decode_hex_agrees_with_the_standard_parser_on_every_ascii_pair() {
    for first in 0u8..128 {
        for second in 0u8..128 {
            let text = String::from_utf8(vec![first, second]).unwrap();
            let expected = match u8::from_str_radix(&text, 16) {
                Ok(byte) => Ok(vec![byte]),
                Err(_) => Err(DecodeError::Hex),
            };
            assert_eq!(decode_hex(&text), expected, "pair {:?}", text);
        }
    }
}

#[test]
fn decode_hex_refuses_text_outside_ascii() {
    assert_eq!(decode_hex("\u{e9}\u{e9}"), Err(DecodeError::Hex));
    assert_eq!(decode_hex("\u{e9}"), Err(DecodeError::Hex));
    assert_eq!(decode_hex("a\u{e9}b"), Err(DecodeError::Hex));
    assert_eq!(decode_hex("00\u{20ac}0"), Err(DecodeError::Hex));
    assert_eq!(decode_hex("\u{ff10}\u{ff10}"), Err(DecodeError::Hex));
}

#[test]
fn blob_of_bytes_is_its_bytes() {
    assert_eq!(Blob::Array(vec![1, 2, 3]).into_bytes(), Ok(vec![1, 2, 3]));
    assert_eq!(Blob::Array(vec![]).into_bytes(), Ok(vec![]));
}

#[test]
fn blob_of_hex_is_decoded() {
    assert_eq!(Blob::Hex("0aff".to_string()).into_bytes(), Ok(vec![10, 255]));
    assert_eq!(Blob::Hex("0af".to_string()).into_bytes(), Err(DecodeError::Hex));
}

#[test]
fn blob_of_base64_is_decoded() {
    assert_eq!(
        Blob::Base64UrlSafe("aGVsbG8=".to_string()).into_bytes(),
        Ok(b"hello".to_vec())
    );
    assert_eq!(Blob::Base64UrlSafe("".to_string()).into_bytes(), Ok(vec![]));
    assert_eq!(
        Blob::Base64UrlSafe("AAECAwQF".to_string()).into_bytes(),
        Ok(vec![0, 1, 2, 3, 4, 5])
    );
}

#[test]
fn blob_of_base64_uses_the_url_safe_alphabet() {
    assert_eq!(
        Blob::Base64UrlSafe("-_8=".to_string()).into_bytes(),
        Ok(vec![0xfb, 0xff])
    );
    assert_eq!(
        Blob::Base64UrlSafe("+/8=".to_string()).into_bytes(),
        Err(DecodeError::Base64(Base64Error::InvalidByte(0, b'+')))
    );
}

#[test]
fn base64_invalid_byte_is_reported_with_its_place() {
    assert_eq!(
        Blob::Base64UrlSafe("!!!!".to_string()).into_bytes(),
        Err(DecodeError::Base64(Base64Error::InvalidByte(0, b'!')))
    );
    assert_eq!(
        Blob::Base64UrlSafe("aGVs bG8=".to_string()).into_bytes(),
        Err(DecodeError::Base64(Base64Error::InvalidByte(4, b' ')))
    );
}

#[test]
fn base64_invalid_length_is_reported() {
    assert_eq!(
        Blob::Base64UrlSafe("a".to_string()).into_bytes(),
        Err(DecodeError::Base64(Base64Error::InvalidLength(1)))
    );
}

#[test]
fn base64_invalid_last_symbol_is_reported() {
    assert_eq!(
        Blob::Base64UrlSafe("aGVsbG9=".to_string()).into_bytes(),
        Err(DecodeError::Base64(Base64Error::InvalidLastSymbol(6, b'9')))
    );
}

#[test]
fn base64_missing_padding_is_reported() {
    assert_eq!(
        Blob::Base64UrlSafe("aGVsbG8".to_string()).into_bytes(),
        Err(DecodeError::Base64(Base64Error::InvalidPadding))
    );
}

#[test]
fn from_base64_hands_bytes_on_and_wraps_the_error() {
    assert_eq!(Blob::from_base64(Ok(vec![9, 8])), Ok(vec![9, 8]));
    assert_eq!(
        Blob::from_base64(Err(Base64Error::InvalidLength(5))),
        Err(DecodeError::Base64(Base64Error::InvalidLength(5)))
    );
    assert_eq!(
        Blob::from_base64(Err(Base64Error::InvalidPadding)),
        Err(DecodeError::Base64(Base64Error::InvalidPadding))
    );
}

#[test]
fn decode_error_from_base64_error() {
    assert_eq!(
        DecodeError::from(Base64Error::InvalidByte(3, 7)),
        DecodeError::Base64(Base64Error::InvalidByte(3, 7))
    );
    assert_eq!(
        DecodeError::from(Base64Error::InvalidLastSymbol(2, b'x')),
        DecodeError::Base64(Base64Error::InvalidLastSymbol(2, b'x'))
    );
}

#[test]
fn base64_text_encodes_with_padding() {
    assert_eq!(base64_text(&b"hello".to_vec()), Some("aGVsbG8=".to_string()));
    assert_eq!(base64_text(&vec![]), Some("".to_string()));
    assert_eq!(base64_text(&vec![0]), Some("AA==".to_string()));
    assert_eq!(base64_text(&vec![0, 1]), Some("AAE=".to_string()));
    assert_eq!(base64_text(&vec![0, 1, 2]), Some("AAEC".to_string()));
    assert_eq!(base64_text(&vec![0xfb, 0xff]), Some("-_8=".to_string()));
}

fn is_symbol(c: char) -> bool {
    c.is_ascii_alphanumeric() || c == '-' || c == '_' || c == '='
}

#[test]
fn base64_text_has_four_characters_for_every_three_bytes() {
    for len in 0usize..=100 {
        let bytes: Vec<u8> = (0..len).map(|i| (i * 37 + len * 11) as u8).collect();
        let text = base64_text(&bytes).unwrap();
        assert_eq!(text.chars().count(), 4 * ((len + 2) / 3), "length {}", len);
        assert!(text.chars().all(is_symbol), "text {:?}", text);
    }
}

#[test]
fn base64_text_of_every_byte_stays_in_the_alphabet() {
    for first in 0u8..=255 {
        for rest in [vec![], vec![0xff], vec![0x00, 0xfe]] {
            let mut bytes = vec![first];
            bytes.extend(rest);
            let text = base64_text(&bytes).unwrap();
            assert_eq!(text.chars().count(), 4);
            assert!(text.chars().all(is_symbol), "text {:?}", text);
            assert!(!text.contains('+') && !text.contains('/'));
        }
    }
}

#[test]
fn database_blob_becomes_text_of_the_length_of_its_bytes() {
    for len in [0usize, 1, 2, 3, 4, 5, 6, 255, 256, 1000] {
        let bytes = vec![0xa5u8; len];
        match SqlValue::from(&Value::Blob(bytes)) {
            SqlValue::Blob(Blob::Base64UrlSafe(text)) => {
                assert_eq!(text.chars().count(), 4 * ((len + 2) / 3));
                assert!(text.chars().all(is_symbol));
            }
            other => panic!("unexpected {:?}", other),
        }
    }
}

#[test]
fn sql_value_to_database_value() {
    assert_eq!(Value::try_from(SqlValue::Null), Ok(Value::Null));
    assert_eq!(Value::try_from(SqlValue::Integer(-7)), Ok(Value::Integer(-7)));
    assert_eq!(
        Value::try_from(SqlValue::Integer(i64::MAX)),
        Ok(Value::Integer(i64::MAX))
    );
    assert_eq!(
        Value::try_from(SqlValue::Text("text".to_string())),
        Ok(Value::Text("text".to_string()))
    );
    assert_eq!(
        Value::try_from(SqlValue::Blob(Blob::Array(vec![1, 2]))),
        Ok(Value::Blob(vec![1, 2]))
    );
    assert_eq!(
        Value::try_from(SqlValue::Blob(Blob::Base64UrlSafe("aGVsbG8=".to_string()))),
        Ok(Value::Blob(b"hello".to_vec()))
    );
    assert_eq!(
        Value::try_from(SqlValue::Blob(Blob::Hex("68656c6c6f".to_string()))),
        Ok(Value::Blob(b"hello".to_vec()))
    );
}

#[test]
fn sql_value_real_keeps_its_bits() {
    let bits = 1.5f64.to_bits();
    assert_eq!(Value::try_from(SqlValue::Real(bits)), Ok(Value::Real(bits)));
    match Value::try_from(SqlValue::Real((-0.0f64).to_bits())) {
        Ok(Value::Real(bits)) => {
            assert_eq!(f64::from_bits(bits), 0.0);
            assert!(f64::from_bits(bits).is_sign_negative());
        }
        other => panic!("unexpected {:?}", other),
    }
    assert_eq!(SqlValue::from(Value::Real(bits)), SqlValue::Real(bits));
    let nan = f64::NAN.to_bits();
    assert_eq!(SqlValue::from(&Value::Real(nan)), SqlValue::Real(nan));
}

#[test]
fn sql_value_with_undecodable_blob_is_refused() {
    assert_eq!(
        Value::try_from(SqlValue::Blob(Blob::Hex("xyz".to_string()))),
        Err(DecodeError::Hex)
    );
    assert_eq!(
        Value::try_from(SqlValue::Blob(Blob::Base64UrlSafe("a".to_string()))),
        Err(DecodeError::Base64(Base64Error::InvalidLength(1)))
    );
}

#[test]
fn database_value_to_sql_value() {
    assert_eq!(SqlValue::from(Value::Null), SqlValue::Null);
    assert_eq!(SqlValue::from(Value::Integer(42)), SqlValue::Integer(42));
    assert_eq!(
        SqlValue::from(Value::Text("abc".to_string())),
        SqlValue::Text("abc".to_string())
    );
    assert_eq!(
        SqlValue::from(Value::Blob(b"hello".to_vec())),
        SqlValue::Blob(Blob::Base64UrlSafe("aGVsbG8=".to_string()))
    );
    assert_eq!(
        SqlValue::from(Value::Blob(vec![])),
        SqlValue::Blob(Blob::Base64UrlSafe("".to_string()))
    );
}

#[test]
fn database_value_by_reference_to_sql_value() {
    let values = vec![
        Value::Null,
        Value::Integer(i64::MIN),
        Value::Real(2.25f64.to_bits()),
        Value::Text("abc".to_string()),
        Value::Blob(vec![0xfb, 0xff]),
    ];
    let expected = vec![
        SqlValue::Null,
        SqlValue::Integer(i64::MIN),
        SqlValue::Real(2.25f64.to_bits()),
        SqlValue::Text("abc".to_string()),
        SqlValue::Blob(Blob::Base64UrlSafe("-_8=".to_string())),
    ];
    for (value, expected) in values.iter().zip(expected.iter()) {
        assert_eq!(&SqlValue::from(value), expected);
        assert_eq!(&SqlValue::from(value.clone()), expected);
    }
    assert_eq!(values.len(), 5);
}

#[test]
fn database_values_come_back_from_their_sql_values() {
    let values = vec![
        Value::Null,
        Value::Integer(0),
        Value::Real(f64::MAX.to_bits()),
        Value::Text("".to_string()),
        Value::Blob(vec![]),
        Value::Blob((0u8..=255).collect()),
    ];
    for value in values {
        assert_eq!(Value::try_from(SqlValue::from(&value)), Ok(value));
    }
}

#[test]
fn conversions_work_through_into() {
    let value: Result<Value, DecodeError> = SqlValue::Integer(3).try_into();
    assert_eq!(value, Ok(Value::Integer(3)));
    let sql: SqlValue = Value::Integer(3).into();
    assert_eq!(sql, SqlValue::Integer(3));
    let error: DecodeError = Base64Error::InvalidPadding.into();
    assert_eq!(error, DecodeError::Base64(Base64Error::InvalidPadding));
}

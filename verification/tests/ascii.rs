use vm::ascii::{
    ascii_trim_range, ascii_u128_dec_unit, ascii_validate_transform, lowercase_ascii_vec_in_place,
    parse_quoted_ascii_value, ASCII_CLASS_ALNUM, ASCII_CLASS_DEC, ASCII_ERR_EMPTY,
    ASCII_ERR_FORMAT, ASCII_ERR_INVALID_CHAR, ASCII_ERR_OK, ASCII_ERR_OVERFLOW, DEC_UNIT_K1E3,
    DEC_UNIT_M1E6, TXT_FLAG_ALLOW_DASH_AS_EMPTY, TXT_FLAG_TO_LOWER, TXT_FLAG_TO_UPPER,
    TXT_FLAG_TRIM_ASCII_WS,
};
use vm::error::ItrErrCode;
use vm::value::Value;

fn errno_bytes(e: u16, b: &[u8]) -> Value {
    Value::Tuple(vec![Value::U16(e), Value::Bytes(b.to_vec())])
}

fn errno_u128(e: u16, n: u128) -> Value {
    Value::Tuple(vec![Value::U16(e), Value::U128(n)])
}

fn mode(flags: u8, low: u8, text: &[u8]) -> Vec<u8> {
    let mut v = vec![flags, low];
    v.extend_from_slice(text);
    v
}

#[test]
fn validate_transform_trims_checks_and_recases() {
    let f = TXT_FLAG_TRIM_ASCII_WS | TXT_FLAG_TO_UPPER;
    assert_eq!(
        ascii_validate_transform(0, &mode(f, ASCII_CLASS_ALNUM, b" ab1 ")).unwrap(),
        errno_bytes(ASCII_ERR_OK, b"AB1")
    );
    assert_eq!(
        ascii_validate_transform(0, &mode(TXT_FLAG_TO_LOWER, ASCII_CLASS_ALNUM, b"A-b")).unwrap(),
        errno_bytes(ASCII_ERR_INVALID_CHAR, b"")
    );
    assert_eq!(
        ascii_validate_transform(0, &mode(0, ASCII_CLASS_ALNUM, b"")).unwrap(),
        errno_bytes(ASCII_ERR_EMPTY, b"")
    );
    assert_eq!(
        ascii_validate_transform(0, &mode(TXT_FLAG_ALLOW_DASH_AS_EMPTY, ASCII_CLASS_DEC, b"-")).unwrap(),
        errno_bytes(ASCII_ERR_OK, b"")
    );
    assert_eq!(
        ascii_validate_transform(0, &mode(0, ASCII_CLASS_DEC, b"-")).unwrap(),
        errno_bytes(ASCII_ERR_FORMAT, b"")
    );
    let both = TXT_FLAG_TO_LOWER | TXT_FLAG_TO_UPPER;
    assert_eq!(
        ascii_validate_transform(0, &mode(both, ASCII_CLASS_ALNUM, b"a")).unwrap_err().0,
        ItrErrCode::NativeFuncError
    );
    assert_eq!(
        ascii_validate_transform(0, &mode(0, 9, b"a")).unwrap_err().0,
        ItrErrCode::NativeFuncError
    );
    assert_eq!(ascii_validate_transform(0, &[1]).unwrap_err().0, ItrErrCode::NativeFuncError);
}

#[test]
fn decimal_with_unit_suffixes() {
    let mask = DEC_UNIT_K1E3 | DEC_UNIT_M1E6;
    assert_eq!(ascii_u128_dec_unit(0, &mode(0, mask, b"12k")).unwrap(), errno_u128(ASCII_ERR_OK, 12_000));
    assert_eq!(ascii_u128_dec_unit(0, &mode(0, mask, b"3km")).unwrap(), errno_u128(ASCII_ERR_OK, 3_000_000_000));
    assert_eq!(ascii_u128_dec_unit(0, &mode(0, mask, b"1k2")).unwrap(), errno_u128(ASCII_ERR_FORMAT, 0));
    assert_eq!(ascii_u128_dec_unit(0, &mode(0, 0, b"12k")).unwrap(), errno_u128(ASCII_ERR_FORMAT, 0));
    assert_eq!(ascii_u128_dec_unit(0, &mode(0, mask, b"k")).unwrap(), errno_u128(ASCII_ERR_FORMAT, 0));
    let huge = b"340282366920938463463374607431768211456";
    assert_eq!(ascii_u128_dec_unit(0, &mode(0, 0, huge)).unwrap(), errno_u128(ASCII_ERR_OVERFLOW, 0));
}

#[test]
fn quoted_values_unescape_quote_and_backslash_only() {
    assert_eq!(parse_quoted_ascii_value(b"x=\"a\\\"b\"", 2), Ok((b"a\"b".to_vec(), 8)));
    assert_eq!(parse_quoted_ascii_value(b"\"\"", 0), Ok((vec![], 2)));
    assert_eq!(parse_quoted_ascii_value(b"\"a\\nb\"", 0), Err(ASCII_ERR_FORMAT));
    assert_eq!(parse_quoted_ascii_value(b"\"open", 0), Err(ASCII_ERR_FORMAT));
    assert_eq!(parse_quoted_ascii_value(b"abc", 0), Err(ASCII_ERR_FORMAT));
    assert_eq!(parse_quoted_ascii_value(b"\"", 5), Err(ASCII_ERR_FORMAT));
}

#[test]
fn trim_and_lowercase() {
    assert_eq!(ascii_trim_range(b" \t ab c\n"), b"ab c");
    assert_eq!(ascii_trim_range(b"   "), b"");
    let mut v = b"AbC-9".to_vec();
    lowercase_ascii_vec_in_place(&mut v);
    assert_eq!(v, b"abc-9".to_vec());
}

#[test]
fn hex_lower_is_idempotent() {
    let first = vm::ascii::ascii_hex_lower(0, b"DeAdBeEf").unwrap();
    assert_eq!(first, errno_bytes(ASCII_ERR_OK, b"deadbeef"));
    let again = vm::ascii::ascii_hex_lower(0, b"deadbeef").unwrap();
    assert_eq!(again, first);
}

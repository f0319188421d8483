use vm::argv::{func_argv, unit_and_u128};
use vm::cap::SpaceCap;
use vm::catalog::NativeFunc;
use vm::error::ItrErrCode;
use vm::value::{Value, ValueTy};

#[test]
fn concat_joins_scalar_bytes_within_the_size_limit() {
    let cap = SpaceCap::new(0);
    let v = Value::concat(&Value::U16(0x0102), &Value::Bool(true), &cap).unwrap();
    assert_eq!(v, Value::bytes(vec![1, 2, 1]));
    let v = Value::concat(&Value::U64(1), &Value::bytes(vec![]), &cap).unwrap();
    assert_eq!(v, Value::bytes(vec![0, 0, 0, 0, 0, 0, 0, 1]));
    assert_eq!(
        Value::concat(&Value::Nil, &Value::U8(1), &cap).unwrap_err().0,
        ItrErrCode::CastBeBytesFail
    );
    let big = Value::bytes(vec![0; 2048]);
    assert_eq!(
        Value::concat(&big, &Value::U8(1), &cap).unwrap_err().0,
        ItrErrCode::OutOfValueSize
    );
}

#[test]
fn uint_extraction_and_checked_cast() {
    assert_eq!(Value::U16(300).extract_u8(), None);
    assert_eq!(Value::U16(200).extract_u8(), Some(200));
    assert_eq!(Value::U128(1 << 70).extract_u64(), None);
    assert_eq!(Value::Bytes(vec![1]).extract_uint(), None);
    assert_eq!(Value::U16(256).checked_u8().unwrap_err().0, ItrErrCode::CastBeUintFail);
    assert_eq!(Value::U64(255).checked_u8().unwrap(), 255);
    assert_eq!(Value::U32(5).ty(), ValueTy::U32);
    assert!(Value::nil().is_nil());
    assert_eq!(Value::U32(0x01020304).scalar_bytes(), Some(vec![1, 2, 3, 4]));
}

#[test]
fn unit_and_value_arguments() {
    let argv = Value::Tuple(vec![Value::U8(240), Value::U64(7)]);
    assert_eq!(unit_and_u128(argv, NativeFunc::unit_to_hac).unwrap(), (240, 7));
    let argv = Value::Tuple(vec![Value::U16(300), Value::U64(7)]);
    assert_eq!(
        unit_and_u128(argv, NativeFunc::unit_to_hac).unwrap_err().0,
        ItrErrCode::NativeFuncError
    );
    let argv = Value::Tuple(vec![Value::U8(1)]);
    assert_eq!(
        unit_and_u128(argv, NativeFunc::unit_to_hac).unwrap_err().0,
        ItrErrCode::NativeFuncError
    );
    assert_eq!(func_argv(Value::U8(3), NativeFunc::sha2).unwrap(), vec![Value::U8(3)]);
}

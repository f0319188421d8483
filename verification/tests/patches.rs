use vm::cap::SpaceCap;
use vm::catalog::NativeFunc;
use vm::error::{ItrErr, ItrErrCode, VmrtRes};
use vm::natives::NativeFnEnv;
use vm::value::Value;

fn list(items: Vec<Value>) -> Value {
    Value::List(items)
}

fn assert_native_func_error<T: std::fmt::Debug>(r: VmrtRes<T>) {
    match r {
        Err(ItrErr(ItrErrCode::NativeFuncError, _)) => {}
        other => panic!("expected NativeFuncError, got {:?}", other),
    }
}

fn call_patches(argv: Value) -> VmrtRes<Value> {
    let cap = SpaceCap::new(0);
    let env = NativeFnEnv::new(&cap);
    NativeFunc::call_packed(&env, NativeFunc::patches.idx(), argv).map(|(v, gas)| {
        assert_eq!(
            gas,
            NativeFunc::try_from_u8(NativeFunc::patches.idx()).unwrap().gas_of()
        );
        v
    })
}

#[test]
fn patches_pause_matches_hand_encode() {
    let pause = 1u8;
    let argv = list(vec![Value::U8(0), Value::U8(1), Value::U8(pause)]);
    let got = call_patches(argv).unwrap();
    let mut expect = vec![1u8];
    expect.extend_from_slice(&0u16.to_be_bytes());
    expect.extend_from_slice(&1u16.to_be_bytes());
    expect.extend_from_slice(&1u16.to_be_bytes());
    expect.push(pause);
    assert_eq!(got, Value::bytes(expect));
}

#[test]
fn patches_insert_serializes_scalars_big_endian() {
    let argv = list(vec![Value::U8(0), Value::U8(0), Value::U64(0x0102_0304_0506_0708)]);
    let got = call_patches(argv).unwrap();
    let Value::Bytes(buf) = got else {
        panic!("expected bytes");
    };
    assert_eq!(buf[0], 1);
    assert_eq!(&buf[1..3], &0u16.to_be_bytes());
    assert_eq!(&buf[3..5], &0u16.to_be_bytes());
    assert_eq!(&buf[5..7], &8u16.to_be_bytes());
    assert_eq!(&buf[7..], &[1, 2, 3, 4, 5, 6, 7, 8]);

    let argv = list(vec![Value::U8(0), Value::U8(0), Value::bytes(vec![1, 2, 3, 4, 5, 6, 7, 8])]);
    let got = call_patches(argv).unwrap();
    let Value::Bytes(buf) = got else {
        panic!("expected bytes");
    };
    assert_eq!(&buf[7..], &[1, 2, 3, 4, 5, 6, 7, 8]);

    let argv = list(vec![Value::U8(0), Value::U8(1), Value::bytes(vec![])]);
    let got = call_patches(argv).unwrap();
    let Value::Bytes(buf) = got else {
        panic!("expected bytes");
    };
    assert_eq!(&buf[5..7], &0u16.to_be_bytes());
    assert_eq!(buf.len(), 7);
}

#[test]
fn patches_rejects_non_triples_count_and_overlap() {
    assert_native_func_error(call_patches(list(vec![
        Value::U8(0),
        Value::U8(1),
        Value::U8(1),
        Value::U8(2),
    ])));
    assert_native_func_error(call_patches(list(vec![])));
    let mut seventeen = Vec::new();
    for i in 0..17u16 {
        seventeen.push(Value::U16(i * 10));
        seventeen.push(Value::U8(0));
        seventeen.push(Value::bytes(vec![]));
    }
    assert_native_func_error(call_patches(list(seventeen)));
    assert_native_func_error(call_patches(list(vec![
        Value::U32(u16::MAX as u32 + 1),
        Value::U8(0),
        Value::bytes(vec![]),
    ])));
    assert_native_func_error(call_patches(list(vec![
        Value::U8(0),
        Value::U8(0),
        Value::bytes(vec![]),
        Value::U8(0),
        Value::U8(0),
        Value::bytes(vec![]),
    ])));
    assert_native_func_error(call_patches(list(vec![
        Value::U8(0),
        Value::U8(10),
        Value::bytes(vec![]),
        Value::U8(5),
        Value::U8(1),
        Value::bytes(vec![]),
    ])));
}

#[test]
fn patches_rejects_map_tuple_bytes_argv() {
    assert_native_func_error(call_patches(Value::Dict(Vec::new())));
    assert_native_func_error(call_patches(Value::Tuple(vec![
        Value::U8(0),
        Value::U8(1),
        Value::U8(1),
    ])));
    assert_native_func_error(call_patches(Value::bytes(vec![0, 1, 1])));
    assert_native_func_error(call_patches(Value::U8(1)));
}

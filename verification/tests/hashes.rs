use vm::cap::SpaceCap;
use vm::catalog::NativeFunc;
use vm::error::ItrErrCode;
use vm::natives::{call_ntfunc, NativeFnEnv};
use vm::value::Value;

fn digest(cty: NativeFunc, data: &[u8]) -> Vec<u8> {
    let cap = SpaceCap::new(0);
    let env = NativeFnEnv::new(&cap);
    let (v, gas) = NativeFunc::call(&env, cty.idx(), data).unwrap();
    assert_eq!(gas, cty.gas_of());
    match v {
        Value::Bytes(b) => b,
        other => panic!("expected bytes, got {:?}", other),
    }
}

#[test]
fn digests_of_abc_match_the_standard_vectors() {
    let cases = [
        (NativeFunc::sha2, "ba7816bf8f01cfea414140de5dae2223b00361a396177a9cb410ff61f20015ad"),
        (NativeFunc::sha3, "3a985da74fe225b2045c172d6bd390bd855f086e3e9d525b46bfe24511431532"),
        (NativeFunc::ripemd160, "8eb208f7e05d987a9b044a8e98c6b087f15a0bfc"),
        (NativeFunc::keccak256, "4e03657aea45a94fc7d47ba826c8d667c0d1e6e33a64a036ec44f58fa12d6c45"),
        (NativeFunc::blake2s256, "508c5e8c327c14e2e1a72ba34eeb452f37458b209ed63a294d999b4c86675982"),
        (NativeFunc::blake2b256, "bddd813c634239723171ef3fee98579b94964e3bb1cb3e427262c8c068d52319"),
    ];
    for (cty, want) in cases {
        let got = digest(cty, b"abc");
        assert_eq!(got, hex::decode(want).unwrap(), "{}", cty.name());
        assert_ne!(got, b"abc".to_vec());
    }
}

#[test]
fn call_ntfunc_checks_the_row_and_its_packing() {
    let (v, _) = call_ntfunc(0, NativeFunc::sha2.idx(), b"").unwrap();
    assert_eq!(
        v,
        Value::Bytes(hex::decode("e3b0c44298fc1c149afbf4c8996fb92427ae41e4649b934ca495991b7852b855").unwrap())
    );
    assert_eq!(call_ntfunc(0, 0, b"x").unwrap_err().0, ItrErrCode::NativeFuncError);
    assert_eq!(call_ntfunc(0, 250, b"x").unwrap_err().0, ItrErrCode::NativeFuncError);
    assert_eq!(
        call_ntfunc(0, NativeFunc::patches.idx(), b"x").unwrap_err().0,
        ItrErrCode::NativeFuncError
    );
}

#[test]
fn ascii_rows_through_the_concat_call() {
    let (v, _) = call_ntfunc(0, NativeFunc::ascii_hex_lower.idx(), b"AbC0").unwrap();
    assert_eq!(v, Value::Tuple(vec![Value::U16(0), Value::Bytes(b"abc0".to_vec())]));
    let (v, _) = call_ntfunc(0, NativeFunc::ascii_hex_lower.idx(), b"abc").unwrap();
    assert_eq!(v, Value::Tuple(vec![Value::U16(6), Value::Bytes(vec![])]));
    let (v, _) = call_ntfunc(0, NativeFunc::ascii_base58_validate_or_echo.idx(), b"3Fo").unwrap();
    assert_eq!(v, Value::Tuple(vec![Value::U16(0), Value::Bytes(b"3Fo".to_vec())]));
    let (v, _) = call_ntfunc(0, NativeFunc::ascii_base58_validate_or_echo.idx(), b"0O").unwrap();
    assert_eq!(v, Value::Tuple(vec![Value::U16(2), Value::Bytes(vec![])]));
}

use vm::addr::{addr_set_ok_bytes, VERSION_CONTRACT, VERSION_PRIVAKEY, VERSION_SCRIPTMH};
use vm::cap::SpaceCap;
use vm::catalog::{NativeArgvPack, NativeFunc};
use vm::error::{ItrErr, ItrErrCode, VmrtRes};
use vm::natives::NativeFnEnv;
use vm::value::Value;

fn call(cty: NativeFunc, arg: Value) -> VmrtRes<Value> {
    assert_eq!(cty.argv_pack_of(), NativeArgvPack::Packed);
    let cap = SpaceCap::new(0);
    let env = NativeFnEnv::new(&cap);
    NativeFunc::call_packed(&env, cty.idx(), arg).map(|(v, _)| v)
}

fn addr_with_version(version: u8, tail: u8) -> [u8; 21] {
    let mut raw = [0u8; 21];
    raw[0] = version;
    raw[20] = tail;
    raw
}

fn addr_value(a: [u8; 21]) -> Value {
    Value::Address(a.to_vec())
}

fn bytes21_value(a: [u8; 21]) -> Value {
    Value::Bytes(a.to_vec())
}

fn is_supported(a: [u8; 21]) -> bool {
    a[0] == VERSION_PRIVAKEY || a[0] == VERSION_CONTRACT || a[0] == VERSION_SCRIPTMH
}

#[test]
fn addr_set_ok_accepts_a_unique_privkey_table() {
    let a = {
        let mut raw = [0u8; 21];
        raw[1] = 1;
        raw[20] = 2;
        raw
    };
    let b = {
        let mut raw = [0u8; 21];
        raw[1] = 3;
        raw[20] = 4;
        raw
    };
    let mut raw = Vec::new();
    raw.extend_from_slice(&a);
    raw.extend_from_slice(&b);
    assert!(addr_set_ok_bytes(&raw, 1, 2));
    raw.extend_from_slice(&a);
    assert!(!addr_set_ok_bytes(&raw, 1, 3));
    assert!(!addr_set_ok_bytes(&[], 1, 201));
}

#[test]
fn version_predicates_partition_supported_versions() {
    let cases: [(u8, NativeFunc, bool); 9] = [
        (VERSION_PRIVAKEY, NativeFunc::is_privkey, true),
        (VERSION_PRIVAKEY, NativeFunc::is_contract, false),
        (VERSION_PRIVAKEY, NativeFunc::is_scriptmh, false),
        (VERSION_CONTRACT, NativeFunc::is_privkey, false),
        (VERSION_CONTRACT, NativeFunc::is_contract, true),
        (VERSION_CONTRACT, NativeFunc::is_scriptmh, false),
        (VERSION_SCRIPTMH, NativeFunc::is_privkey, false),
        (VERSION_SCRIPTMH, NativeFunc::is_contract, false),
        (VERSION_SCRIPTMH, NativeFunc::is_scriptmh, true),
    ];
    for (version, cty, want) in cases {
        let a = addr_with_version(version, 1);
        let r = call(cty, addr_value(a)).unwrap();
        assert_eq!(r, Value::Bool(want), "{} on version {}", cty.name(), version);
    }
}

#[test]
fn version_predicates_accept_bytes21_implicitly() {
    let a = addr_with_version(VERSION_CONTRACT, 2);
    let r = call(NativeFunc::is_contract, bytes21_value(a)).unwrap();
    assert_eq!(r, Value::Bool(true));
    let r = call(NativeFunc::is_privkey, bytes21_value(a)).unwrap();
    assert_eq!(r, Value::Bool(false));
}

#[test]
fn address_version_reports_raw_version_byte() {
    let cases = [(VERSION_PRIVAKEY, true), (VERSION_CONTRACT, true), (VERSION_SCRIPTMH, true)];
    for (version, supported) in cases {
        assert!(is_supported(addr_with_version(version, 1)) == supported);
        let r = call(NativeFunc::address_version, addr_value(addr_with_version(version, 1))).unwrap();
        assert_eq!(r, Value::U8(version), "version {version}");
    }
}

#[test]
fn address_version_accepts_bytes21_and_rejects_other_shapes() {
    let addr = addr_with_version(VERSION_CONTRACT, 7);
    let r = call(NativeFunc::address_version, bytes21_value(addr)).unwrap();
    assert_eq!(r, Value::U8(VERSION_CONTRACT));

    let r = call(NativeFunc::address_version, Value::Bytes(vec![0u8; 20]));
    assert!(matches!(r, Err(ItrErr(ItrErrCode::NativeFuncError, _))));

    let r = call(NativeFunc::address_version, Value::Bytes(addr_with_version(0x02, 1).to_vec()));
    assert!(matches!(r, Err(ItrErr(ItrErrCode::NativeFuncError, _))));
}

#[test]
fn privkey_unknown_predicates() {
    let system = addr_with_version(VERSION_PRIVAKEY, 1);
    let blackhole = [0u8; 21];
    for a in [system, blackhole] {
        let r = call(NativeFunc::is_privkey_unknown, addr_value(a)).unwrap();
        assert_eq!(r, Value::Bool(true));
        let r = call(NativeFunc::is_privkey_not_unknown, addr_value(a)).unwrap();
        assert_eq!(r, Value::Bool(false));
    }

    let normal = {
        let mut raw = [0u8; 21];
        raw[0] = VERSION_PRIVAKEY;
        raw[1] = 0xAA;
        raw[20] = 0x99;
        raw
    };
    let r = call(NativeFunc::is_privkey_unknown, addr_value(normal)).unwrap();
    assert_eq!(r, Value::Bool(false));
    let r = call(NativeFunc::is_privkey_not_unknown, addr_value(normal)).unwrap();
    assert_eq!(r, Value::Bool(true));

    for v in [VERSION_CONTRACT, VERSION_SCRIPTMH] {
        let a = addr_with_version(v, 3);
        let r = call(NativeFunc::is_privkey_unknown, addr_value(a)).unwrap();
        assert_eq!(r, Value::Bool(false));
        let r = call(NativeFunc::is_privkey_not_unknown, addr_value(a)).unwrap();
        assert_eq!(r, Value::Bool(false));
    }
}

#[test]
fn predicates_accept_bytes21_implicitly() {
    let normal = {
        let mut raw = [0u8; 21];
        raw[0] = VERSION_PRIVAKEY;
        raw[2] = 0xBB;
        raw
    };
    let r = call(NativeFunc::is_privkey_not_unknown, bytes21_value(normal)).unwrap();
    assert_eq!(r, Value::Bool(true));
    let r = call(NativeFunc::is_privkey_unknown, bytes21_value([0u8; 21])).unwrap();
    assert_eq!(r, Value::Bool(true));
}

#[test]
fn privkey_unknown_boundary_is_u32_max() {
    // 21-byte value just below u32::MAX is still a system address; u32::MAX itself is not.
    let mut below = [0u8; 21];
    below[17] = 0xff;
    below[18] = 0xff;
    below[19] = 0xff;
    below[20] = 0xfe;
    let mut at = below;
    at[20] = 0xff;
    assert_eq!(call(NativeFunc::is_privkey_unknown, addr_value(below)).unwrap(), Value::Bool(true));
    assert_eq!(call(NativeFunc::is_privkey_unknown, addr_value(at)).unwrap(), Value::Bool(false));
}

#[test]
fn addr_set_rejects_bad_bounds_and_system_keys() {
    let mut a = [0u8; 21];
    a[1] = 9;
    assert!(!addr_set_ok_bytes(&a, 2, 1));
    assert!(!addr_set_ok_bytes(&a[..20], 0, 1));
    assert!(addr_set_ok_bytes(&a, 1, 1));
    assert!(!addr_set_ok_bytes(&[0u8; 21], 1, 1));
    let mut c = a;
    c[0] = VERSION_CONTRACT;
    assert!(!addr_set_ok_bytes(&c, 1, 1));
    assert!(addr_set_ok_bytes(&[], 0, 200));
}

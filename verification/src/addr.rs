//! Account addresses as natives see them: 21 bytes whose first byte is the
//! version (0 private key, 1 contract, 5 script hash), the version
//! predicates, and signer-table checks.

use vstd::prelude::*;
use crate::argv::{func_argv, spec_unpack_argv};
use crate::catalog::{NativeFunc, spec_func_argv_len};
use crate::error::{ItrErr, ItrErrCode, VmrtRes};
use crate::natives::NativeFnEnv;
use crate::value::{ADDRESS_SIZE, Val, Value, vals_of};

verus! {

pub const VERSION_PRIVAKEY: u8 = 0;
pub const VERSION_CONTRACT: u8 = 1;
pub const VERSION_SCRIPTMH: u8 = 5;

/// Most addresses a signer table may hold.
pub const ADDR_SET_CAP: u64 = 200;

/// 21 bytes with a supported version.
pub open spec fn addr_supported(a: Seq<u8>) -> bool {
    a.len() == 21 && (a[0] == VERSION_PRIVAKEY || a[0] == VERSION_CONTRACT || a[0] == VERSION_SCRIPTMH)
}

/// The address a value holds: an address, or 21 bytes, of a supported version.
pub open spec fn val_address(v: Val) -> Option<Seq<u8>> {
    match v {
        Val::Address(a) => if addr_supported(a) { Some(a) } else { None },
        Val::Bytes(a) => if addr_supported(a) { Some(a) } else { None },
        _ => None,
    }
}

/// A private-key address.
pub open spec fn addr_is_privkey(a: Seq<u8>) -> bool {
    a[0] == VERSION_PRIVAKEY
}

/// A private-key address whose 21-byte value is below `u32::MAX`: a system
/// address nobody holds the key of.
pub open spec fn addr_is_privkey_unknown(a: Seq<u8>) -> bool {
    &&& a[0] == VERSION_PRIVAKEY
    &&& forall|i: int| 1 <= i < 17 ==> a[i] == 0
    &&& !(a[17] == 0xff && a[18] == 0xff && a[19] == 0xff && a[20] == 0xff)
}

/// The address in a value, if it holds one.
pub fn extract_address(v: &Value) -> (r: Option<Vec<u8>>)
    ensures
        match val_address(v@) {
            Some(a) => r matches Some(x) && x@ == a,
            None => r is None,
        },
{
    let b = match v {
        Value::Address(a) => a,
        Value::Bytes(a) => a,
        _ => return None,
    };
    if b.len() != ADDRESS_SIZE {
        return None;
    }
    let ver = b[0];
    if ver == VERSION_PRIVAKEY || ver == VERSION_CONTRACT || ver == VERSION_SCRIPTMH {
        Some(b.clone())
    } else {
        None
    }
}

/// An address argument of a native function.
pub fn func_address(value: &Value, cty: NativeFunc, label: &str) -> (r: VmrtRes<Vec<u8>>)
    requires
        cty != NativeFunc::Null,
    ensures
        match val_address(value@) {
            Some(a) => r matches Ok(x) && x@ == a,
            None => r matches Err(e) && e.0 == ItrErrCode::NativeFuncError,
        },
{
    match extract_address(value) {
        Some(a) => Ok(a),
        None => Err(ItrErr::new(ItrErrCode::NativeFuncError, "native func requires address argument")),
    }
}

/// The one argument of a native function of arity 1.
pub fn packed_single(argv: Value, cty: NativeFunc) -> (r: VmrtRes<Value>)
    requires
        cty != NativeFunc::Null,
        spec_func_argv_len(cty) == 1,
    ensures
        r matches Ok(v) && v@ == argv@,
{
    let ghost a = argv@;
    let mut args = func_argv(argv, cty)?;
    assert(vals_of(args@) == seq![a]);
    assert(vals_of(args@)[0] == crate::value::val_of(args@[0]));
    Ok(args.pop().unwrap())
}

/// Whether an address is a system address nobody holds the key of.
pub fn is_privkey_unknown_addr(a: &Vec<u8>) -> (r: bool)
    requires
        a@.len() == 21,
    ensures
        r == addr_is_privkey_unknown(a@),
{
    if a[0] != VERSION_PRIVAKEY {
        return false;
    }
    let mut i: usize = 1;
    while i < 17
        invariant
            1 <= i <= 17,
            a@.len() == 21,
            forall|j: int| 1 <= j < i ==> a@[j] == 0,
        decreases 17 - i,
    {
        if a[i] != 0 {
            return false;
        }
        i = i + 1;
    }
    !(a[17] == 0xff && a[18] == 0xff && a[19] == 0xff && a[20] == 0xff)
}

/// `address_version(addr)`: the version byte of a supported address.
pub open spec fn spec_address_pred(c: NativeFunc, a: Seq<u8>) -> Val {
    match c {
        NativeFunc::address_version => Val::U8(a[0]),
        NativeFunc::is_privkey_unknown => Val::Bool(addr_is_privkey_unknown(a)),
        NativeFunc::is_privkey_not_unknown => Val::Bool(addr_is_privkey(a) && !addr_is_privkey_unknown(a)),
        NativeFunc::is_privkey => Val::Bool(a[0] == VERSION_PRIVAKEY),
        NativeFunc::is_contract => Val::Bool(a[0] == VERSION_CONTRACT),
        _ => Val::Bool(a[0] == VERSION_SCRIPTMH),
    }
}

/// The address rows: version byte and version predicates of one address.
pub open spec fn is_address_row(c: NativeFunc) -> bool {
    c == NativeFunc::address_version || c == NativeFunc::is_privkey_unknown
        || c == NativeFunc::is_privkey_not_unknown || c == NativeFunc::is_privkey
        || c == NativeFunc::is_contract || c == NativeFunc::is_scriptmh
}

/// The version byte or a version predicate of the one address argument.
pub fn address_pred(_env: &NativeFnEnv, cty: NativeFunc, argv: Value) -> (r: VmrtRes<Value>)
    requires
        is_address_row(cty),
    ensures
        match val_address(argv@) {
            Some(a) => r matches Ok(v) && v@ == spec_address_pred(cty, a),
            None => r matches Err(e) && e.0 == ItrErrCode::NativeFuncError,
        },
{
    let arg = packed_single(argv, cty)?;
    let addr = func_address(&arg, cty, "address")?;
    let out = match cty {
        NativeFunc::address_version => Value::U8(addr[0]),
        NativeFunc::is_privkey_unknown => Value::Bool(is_privkey_unknown_addr(&addr)),
        NativeFunc::is_privkey_not_unknown => Value::Bool(addr[0] == VERSION_PRIVAKEY && !is_privkey_unknown_addr(&addr)),
        NativeFunc::is_privkey => Value::Bool(addr[0] == VERSION_PRIVAKEY),
        NativeFunc::is_contract => Value::Bool(addr[0] == VERSION_CONTRACT),
        _ => Value::Bool(addr[0] == VERSION_SCRIPTMH),
    };
    Ok(out)
}

/// `address_version(addr | bytes21)`: the raw version byte of a supported address.
pub fn address_version(env: &NativeFnEnv, argv: Value) -> (r: VmrtRes<Value>)
    ensures
        match val_address(argv@) {
            Some(a) => r matches Ok(v) && v@ == spec_address_pred(NativeFunc::address_version, a),
            None => r matches Err(e) && e.0 == ItrErrCode::NativeFuncError,
        },
{
    address_pred(env, NativeFunc::address_version, argv)
}

/// `is_privkey_unknown(addr | bytes21)`: whether the address is a private-key address nobody holds the key of (a system address).
pub fn is_privkey_unknown(env: &NativeFnEnv, argv: Value) -> (r: VmrtRes<Value>)
    ensures
        match val_address(argv@) {
            Some(a) => r matches Ok(v) && v@ == spec_address_pred(NativeFunc::is_privkey_unknown, a),
            None => r matches Err(e) && e.0 == ItrErrCode::NativeFuncError,
        },
{
    address_pred(env, NativeFunc::is_privkey_unknown, argv)
}

/// `is_privkey_not_unknown(addr | bytes21)`: whether the address may sign: a private-key address that is not a system address.
pub fn is_privkey_not_unknown(env: &NativeFnEnv, argv: Value) -> (r: VmrtRes<Value>)
    ensures
        match val_address(argv@) {
            Some(a) => r matches Ok(v) && v@ == spec_address_pred(NativeFunc::is_privkey_not_unknown, a),
            None => r matches Err(e) && e.0 == ItrErrCode::NativeFuncError,
        },
{
    address_pred(env, NativeFunc::is_privkey_not_unknown, argv)
}

/// `is_privkey(addr | bytes21)`: whether the address is a private-key address, system or not.
pub fn is_privkey(env: &NativeFnEnv, argv: Value) -> (r: VmrtRes<Value>)
    ensures
        match val_address(argv@) {
            Some(a) => r matches Ok(v) && v@ == spec_address_pred(NativeFunc::is_privkey, a),
            None => r matches Err(e) && e.0 == ItrErrCode::NativeFuncError,
        },
{
    address_pred(env, NativeFunc::is_privkey, argv)
}

/// `is_contract(addr | bytes21)`: whether the address is a contract address.
pub fn is_contract(env: &NativeFnEnv, argv: Value) -> (r: VmrtRes<Value>)
    ensures
        match val_address(argv@) {
            Some(a) => r matches Ok(v) && v@ == spec_address_pred(NativeFunc::is_contract, a),
            None => r matches Err(e) && e.0 == ItrErrCode::NativeFuncError,
        },
{
    address_pred(env, NativeFunc::is_contract, argv)
}

/// `is_scriptmh(addr | bytes21)`: whether the address is a script-hash address.
pub fn is_scriptmh(env: &NativeFnEnv, argv: Value) -> (r: VmrtRes<Value>)
    ensures
        match val_address(argv@) {
            Some(a) => r matches Ok(v) && v@ == spec_address_pred(NativeFunc::is_scriptmh, a),
            None => r matches Err(e) && e.0 == ItrErrCode::NativeFuncError,
        },
{
    address_pred(env, NativeFunc::is_scriptmh, argv)
}

/// The `i`-th address of a signer table.
pub open spec fn chunk(raw: Seq<u8>, i: int) -> Seq<u8> {
    raw.subrange(21 * i, 21 * i + 21)
}

/// A signer table: `21 * n` bytes with `min <= n <= max <= 200`, every address
/// a private key nobody-holds excluded, no address twice.
pub open spec fn spec_addr_set_ok(raw: Seq<u8>, min: u64, max: u64) -> bool {
    let n = raw.len() / 21;
    &&& min <= max
    &&& max <= ADDR_SET_CAP
    &&& raw.len() % 21 == 0
    &&& min <= n <= max
    &&& forall|i: int| 0 <= i < n ==> addr_is_privkey(#[trigger] chunk(raw, i)) && !addr_is_privkey_unknown(chunk(raw, i))
    &&& forall|i: int, j: int| 0 <= i < j < n ==> #[trigger] chunk(raw, i) != #[trigger] chunk(raw, j)
}

fn bytes_eq(a: &Vec<u8>, b: &Vec<u8>) -> (r: bool)
    ensures
        r == (a@ == b@),
{
    if a.len() != b.len() {
        return false;
    }
    let mut i: usize = 0;
    while i < a.len()
        invariant
            i <= a@.len(),
            a@.len() == b@.len(),
            forall|j: int| 0 <= j < i ==> a@[j] == b@[j],
        decreases a@.len() - i,
    {
        if a[i] != b[i] {
            return false;
        }
        i = i + 1;
    }
    assert(a@ =~= b@);
    true
}

/// Whether raw bytes are a signer table within `min..=max` addresses.
pub fn addr_set_ok_bytes(raw: &[u8], min: u64, max: u64) -> (r: bool)
    ensures
        r == spec_addr_set_ok(raw@, min, max),
{
    if min > max || max > ADDR_SET_CAP || raw.len() % ADDRESS_SIZE != 0 {
        return false;
    }
    let n = raw.len() / ADDRESS_SIZE;
    if (n as u64) < min || (n as u64) > max {
        return false;
    }
    let mut seen: Vec<Vec<u8>> = Vec::new();
    let mut i: usize = 0;
    while i < n
        invariant
            n == raw@.len() / 21,
            raw@.len() % 21 == 0,
            min <= max <= ADDR_SET_CAP,
            min <= n <= max,
            raw@.len() <= usize::MAX,
            i <= n,
            seen@.len() == i,
            forall|k: int| 0 <= k < i ==> (#[trigger] seen@[k])@ == chunk(raw@, k),
            forall|k: int| 0 <= k < i ==> addr_is_privkey(#[trigger] chunk(raw@, k)) && !addr_is_privkey_unknown(chunk(raw@, k)),
            forall|k: int, l: int| 0 <= k < l < i ==> #[trigger] chunk(raw@, k) != #[trigger] chunk(raw@, l),
        decreases n - i,
    {
        let mut a: Vec<u8> = Vec::new();
        let mut k: usize = 0;
        assert(21 * i + 21 <= raw@.len()) by (nonlinear_arith)
            requires
                i < n,
                n == raw@.len() / 21,
                raw@.len() % 21 == 0,
        ;
        while k < ADDRESS_SIZE
            invariant
                k <= 21,
                i < n,
                n == raw@.len() / 21,
                raw@.len() % 21 == 0,
                a@ == raw@.subrange(21 * i as int, 21 * i + k),
                21 * i + 21 <= raw@.len(),
                raw@.len() <= usize::MAX,
            decreases 21 - k,
        {
            assert(21 * i + k < raw@.len() && 21 * i + 21 <= raw@.len()) by (nonlinear_arith)
                requires
                    i < n,
                    n == raw@.len() / 21,
                    raw@.len() % 21 == 0,
                    k < 21,
            ;
            a.push(raw[i * ADDRESS_SIZE + k]);
            k = k + 1;
            assert(a@ =~= raw@.subrange(21 * i as int, 21 * i + k));
        }
        assert(a@ == chunk(raw@, i as int));
        if !(a[0] == VERSION_PRIVAKEY) || is_privkey_unknown_addr(&a) {
            assert(!(addr_is_privkey(chunk(raw@, i as int)) && !addr_is_privkey_unknown(chunk(raw@, i as int))));
            return false;
        }
        let mut j: usize = 0;
        while j < seen.len()
            invariant
                j <= seen@.len(),
                seen@.len() == i,
                forall|k: int| 0 <= k < i ==> (#[trigger] seen@[k])@ == chunk(raw@, k),
                forall|k: int| 0 <= k < j ==> chunk(raw@, k) != a@,
                a@ == chunk(raw@, i as int),
                i < n,
                n == raw@.len() / 21,
            decreases seen@.len() - j,
        {
            if bytes_eq(&seen[j], &a) {
                assert(chunk(raw@, j as int) == chunk(raw@, i as int));
                return false;
            }
            j = j + 1;
        }
        seen.push(a);
        i = i + 1;
    }
    true
}

/// The version predicates partition the supported addresses: each supported
/// address satisfies exactly one of `is_privkey`, `is_contract` and
/// `is_scriptmh`, and `is_privkey_not_unknown` is `is_privkey` without the
/// system addresses.
pub proof fn lemma_version_predicates_partition(a: Seq<u8>)
    requires
        addr_supported(a),
    ensures
        ({
            let p = spec_address_pred(NativeFunc::is_privkey, a) == Val::Bool(true);
            let c = spec_address_pred(NativeFunc::is_contract, a) == Val::Bool(true);
            let s = spec_address_pred(NativeFunc::is_scriptmh, a) == Val::Bool(true);
            (p || c || s) && !(p && c) && !(p && s) && !(c && s)
        }),
        spec_address_pred(NativeFunc::is_privkey_not_unknown, a) == Val::Bool(
            spec_address_pred(NativeFunc::is_privkey, a) == Val::Bool(true)
                && spec_address_pred(NativeFunc::is_privkey_unknown, a) == Val::Bool(false),
        ),
{
}

} // verus!

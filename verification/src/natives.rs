//! Pure native functions and their dispatch: the digests, the patch-set
//! encoder, and the catalog-checked calls.

use vstd::prelude::*;
use crate::addr::{
    address_version, is_contract, is_privkey, is_privkey_not_unknown, is_privkey_unknown, is_scriptmh,
    spec_address_pred, val_address,
};
use crate::argv::{func_list, func_u16, spec_list_items};
use crate::ascii::{ascii_base58_validate_or_echo, ascii_hex_lower, spec_base58_echo, spec_hex_lower};
use crate::cap::SpaceCap;
use crate::catalog::{
    NativeArgvPack, NativeFunc, spec_func_at, spec_func_gas, spec_func_pack, spec_func_rty,
};
use crate::error::{ItrErr, ItrErrCode, VmrtRes};
use crate::hash::{
    blake2b256_digest, blake2s256_digest, keccak256_digest, ripemd160_digest, sha256_digest,
    sha3_256_digest,
};
use crate::value::{Val, Value, val_scalar_bytes, val_ty, val_uint_below, vals_of};

verus! {

/// What a native function may read of the execution: its space limits.
#[derive(Debug, Clone, Copy)]
pub struct NativeFnEnv {
    pub cap: SpaceCap,
}

impl NativeFnEnv {
    pub fn new(cap: &SpaceCap) -> (r: NativeFnEnv)
        ensures
            r.cap == *cap,
    {
        NativeFnEnv { cap: *cap }
    }
}

/// A call's result checked against the catalog: the value must have the
/// row's return type, and the row's gas is charged.
pub open spec fn spec_finish(cty: NativeFunc, v: Val) -> Option<(Val, i64)> {
    if spec_func_rty(cty) != val_ty(v) { None } else { Some((v, spec_func_gas(cty))) }
}

/// The result of a native call against its modelled value and gas, or an
/// error with code `NativeFuncError`.
pub open spec fn call_result(r: VmrtRes<(Value, i64)>, s: Option<(Val, i64)>) -> bool {
    match s {
        Some(x) => r matches Ok(y) && y.0@ == x.0 && y.1 == x.1,
        None => r matches Err(e) && e.0 == ItrErrCode::NativeFuncError,
    }
}

/// Check a handler's value against the catalog row and attach its gas.
pub fn finish_ntfunc(cty: NativeFunc, r: Value) -> (res: VmrtRes<(Value, i64)>)
    ensures
        call_result(res, spec_finish(cty, r@)),
{
    if cty.rty_of() != r.ty() {
        return Err(ItrErr::new(ItrErrCode::NativeFuncError, "native func return type mismatch"));
    }
    let g = cty.gas_of();
    Ok((r, g))
}

/// `sha2`: SHA-256 of the argument bytes.
pub fn sha2(_env: &NativeFnEnv, buf: &[u8]) -> (r: VmrtRes<Value>)
    ensures
        r matches Ok(v) && v@ == Val::Bytes(sha256_digest(buf@)),
{
    Ok(Value::bytes(crate::hash::sha256(buf)))
}

/// `sha3`: SHA3-256 of the argument bytes.
pub fn sha3(_env: &NativeFnEnv, buf: &[u8]) -> (r: VmrtRes<Value>)
    ensures
        r matches Ok(v) && v@ == Val::Bytes(sha3_256_digest(buf@)),
{
    Ok(Value::bytes(crate::hash::sha3_256(buf)))
}

/// `ripemd160`: RIPEMD-160 of the argument bytes.
pub fn ripemd160(_env: &NativeFnEnv, buf: &[u8]) -> (r: VmrtRes<Value>)
    ensures
        r matches Ok(v) && v@ == Val::Bytes(ripemd160_digest(buf@)),
{
    Ok(Value::bytes(crate::hash::ripemd160(buf)))
}

/// `keccak256`: Keccak-256 of the argument bytes.
pub fn keccak256(_env: &NativeFnEnv, buf: &[u8]) -> (r: VmrtRes<Value>)
    ensures
        r matches Ok(v) && v@ == Val::Bytes(keccak256_digest(buf@)),
{
    Ok(Value::bytes(crate::hash::keccak256(buf)))
}

/// `blake2s256`: BLAKE2s-256 of the argument bytes.
pub fn blake2s256(_env: &NativeFnEnv, buf: &[u8]) -> (r: VmrtRes<Value>)
    ensures
        r matches Ok(v) && v@ == Val::Bytes(blake2s256_digest(buf@)),
{
    Ok(Value::bytes(crate::hash::blake2s256(buf)))
}

/// `blake2b256`: BLAKE2b-256 of the argument bytes.
pub fn blake2b256(_env: &NativeFnEnv, buf: &[u8]) -> (r: VmrtRes<Value>)
    ensures
        r matches Ok(v) && v@ == Val::Bytes(blake2b256_digest(buf@)),
{
    Ok(Value::bytes(crate::hash::blake2b256(buf)))
}

/// One patch: offset, length deleted there, bytes inserted there.
pub type PatchRec = (int, int, Seq<u8>);

/// Two bytes of a 16-bit value, big endian.
pub open spec fn be16(v: int) -> Seq<u8> {
    seq![(v / 256) as u8, (v % 256) as u8]
}

/// The wire form of one patch: offset, delete length and insert length as
/// big-endian `u16`, then the inserted bytes.
pub open spec fn encode_record(r: PatchRec) -> Seq<u8> {
    be16(r.0) + be16(r.1) + be16(r.2.len() as int) + r.2
}

/// The wire forms of patches one after another.
pub open spec fn encode_records(recs: Seq<PatchRec>) -> Seq<u8>
    decreases recs.len(),
{
    if recs.len() == 0 {
        Seq::empty()
    } else {
        encode_records(recs.drop_last()) + encode_record(recs.last())
    }
}

/// A patch starts after the one before it and past what that one deletes.
pub open spec fn follows(prev: PatchRec, cur: PatchRec) -> bool {
    cur.0 > prev.0 && cur.0 >= prev.0 + prev.1
}

/// A patch set that can be encoded: 1 to 16 patches, each after the one
/// before, every field within `u16`.
pub open spec fn patch_set_ok(recs: Seq<PatchRec>) -> bool {
    &&& 1 <= recs.len() <= 16
    &&& forall|i: int| 0 <= i < recs.len() ==> 0 <= #[trigger] recs[i].0 <= 0xffff && 0 <= recs[i].1 <= 0xffff && recs[i].2.len() <= 0xffff
    &&& forall|i: int| 1 <= i < recs.len() ==> follows(recs[i - 1], #[trigger] recs[i])
}

/// The canonical patch-set bytes: the count, then each patch.
pub open spec fn spec_encode_patch_set(recs: Seq<PatchRec>) -> Option<Seq<u8>> {
    if patch_set_ok(recs) { Some(seq![recs.len() as u8] + encode_records(recs)) } else { None }
}

/// The patch in list positions `3i .. 3i+3`: offset and delete length
/// convertible to `u16`, and a scalar whose bytes fit a `u16` length.
pub open spec fn spec_patch_record(items: Seq<Val>, i: int) -> Option<PatchRec> {
    match val_uint_below(items[3 * i], 0xffff) {
        None => None,
        Some(o) => match val_uint_below(items[3 * i + 1], 0xffff) {
            None => None,
            Some(d) => match val_scalar_bytes(items[3 * i + 2]) {
                None => None,
                Some(b) => if b.len() > 0xffff { None } else { Some((o, d, b)) },
            },
        },
    }
}

/// The first `n` patches of a list, each after the one before it.
pub open spec fn spec_patch_records(items: Seq<Val>, n: nat) -> Option<Seq<PatchRec>>
    decreases n,
{
    if n == 0 {
        Some(Seq::empty())
    } else {
        match spec_patch_records(items, (n - 1) as nat) {
            None => None,
            Some(prev) => match spec_patch_record(items, n - 1) {
                None => None,
                Some(r) => if prev.len() > 0 && !follows(prev.last(), r) { None } else { Some(prev.push(r)) },
            },
        }
    }
}

/// `patches`: a list of (offset, delete length, insert) triples, 1 to 16 of
/// them, in increasing non-overlapping order, to the canonical patch-set bytes.
pub open spec fn spec_patches(argv: Val) -> Option<Seq<u8>> {
    match spec_list_items(argv) {
        None => None,
        Some(items) => {
            if items.len() % 3 != 0 {
                None
            } else {
                let count = items.len() / 3;
                if count < 1 || count > 16 {
                    None
                } else {
                    match spec_patch_records(items, count) {
                        None => None,
                        Some(recs) => Some(seq![count as u8] + encode_records(recs)),
                    }
                }
            }
        },
    }
}

proof fn lemma_records_none_grows(items: Seq<Val>, m: nat, n: nat)
    requires
        m <= n,
        spec_patch_records(items, m) is None,
    ensures
        spec_patch_records(items, n) is None,
    decreases n,
{
    if n > m {
        lemma_records_none_grows(items, m, (n - 1) as nat);
    }
}

proof fn lemma_records_shape(items: Seq<Val>, n: nat)
    ensures
        spec_patch_records(items, n) matches Some(recs) ==> {
            &&& recs.len() == n
            &&& forall|i: int| 0 <= i < recs.len() ==> 0 <= #[trigger] recs[i].0 <= 0xffff && 0 <= recs[i].1 <= 0xffff && recs[i].2.len() <= 0xffff
            &&& forall|i: int| 1 <= i < recs.len() ==> follows(recs[i - 1], #[trigger] recs[i])
        },
    decreases n,
{
    if n > 0 {
        lemma_records_shape(items, (n - 1) as nat);
    }
}

/// The model of executable patch records.
pub open spec fn recs_of(v: Seq<(u16, u16, Vec<u8>)>) -> Seq<PatchRec> {
    Seq::new(v.len(), |i: int| (v[i].0 as int, v[i].1 as int, v[i].2@))
}

fn push_be16(out: &mut Vec<u8>, v: u16)
    ensures
        final(out)@ == old(out)@ + be16(v as int),
{
    out.push((v / 256) as u8);
    out.push((v % 256) as u8);
    assert(out@ =~= old(out)@ + be16(v as int));
}

/// The canonical patch-set bytes of checked patches.
fn encode_patches_bytes(records: &Vec<(u16, u16, Vec<u8>)>) -> (r: VmrtRes<Vec<u8>>)
    ensures
        match spec_encode_patch_set(recs_of(records@)) {
            Some(b) => r matches Ok(v) && v@ == b,
            None => r matches Err(e) && e.0 == ItrErrCode::NativeFuncError,
        },
{
    let ghost recs = recs_of(records@);
    let n = records.len();
    if n < 1 || n > 16 {
        return Err(ItrErr::new(ItrErrCode::NativeFuncError, "patch set count must be in 1..=16"));
    }
    let mut out: Vec<u8> = Vec::new();
    out.push(n as u8);
    let mut i: usize = 0;
    assert(recs.subrange(0, 0) =~= Seq::<PatchRec>::empty());
    while i < n
        invariant
            n == records@.len(),
            1 <= n <= 16,
            i <= n,
            recs == recs_of(records@),
            forall|k: int| 0 <= k < i ==> recs[k].2.len() <= 0xffff,
            forall|k: int| 1 <= k < i ==> follows(recs[k - 1], #[trigger] recs[k]),
            out@ == seq![n as u8] + encode_records(recs.subrange(0, i as int)),
        decreases n - i,
    {
        let rec = &records[i];
        if rec.2.len() > 0xffff {
            return Err(ItrErr::new(ItrErrCode::NativeFuncError, "patch insert exceeds u16 length"));
        }
        if i > 0 {
            let prev = &records[i - 1];
            if rec.0 <= prev.0 || (rec.0 as u32) < (prev.0 as u32) + (prev.1 as u32) {
                return Err(ItrErr::new(ItrErrCode::NativeFuncError, "patch offsets must be increasing and non-overlapping"));
            }
        }
        let ghost before = out@;
        push_be16(&mut out, rec.0);
        push_be16(&mut out, rec.1);
        push_be16(&mut out, rec.2.len() as u16);
        let mut k: usize = 0;
        let ghost mid = out@;
        while k < rec.2.len()
            invariant
                k <= rec.2@.len(),
                out@ == mid + rec.2@.subrange(0, k as int),
            decreases rec.2@.len() - k,
        {
            out.push(rec.2[k]);
            k = k + 1;
            assert(out@ =~= mid + rec.2@.subrange(0, k as int));
        }
        proof {
            assert(rec.2@.subrange(0, rec.2@.len() as int) =~= rec.2@);
            assert(recs.subrange(0, i + 1).drop_last() =~= recs.subrange(0, i as int));
            assert(recs.subrange(0, i + 1).last() == recs[i as int]);
            assert(out@ =~= before + encode_record(recs[i as int]));
        }
        i = i + 1;
    }
    assert(recs.subrange(0, n as int) =~= recs);
    assert(patch_set_ok(recs));
    Ok(out)
}

fn patches_insert(v: &Value) -> (r: VmrtRes<Vec<u8>>)
    ensures
        match val_scalar_bytes(v@) {
            Some(b) => if b.len() > 0xffff {
                r matches Err(e) && e.0 == ItrErrCode::NativeFuncError
            } else {
                r matches Ok(x) && x@ == b
            },
            None => r matches Err(e) && e.0 == ItrErrCode::NativeFuncError,
        },
{
    match v.scalar_bytes() {
        None => Err(ItrErr::new(ItrErrCode::NativeFuncError, "patches insert cannot serialize the value")),
        Some(bytes) => {
            if bytes.len() > 0xffff {
                return Err(ItrErr::new(ItrErrCode::NativeFuncError, "patches insert exceeds u16::MAX length"));
            }
            Ok(bytes)
        },
    }
}

/// `patches`: encode a list of (offset, delete length, insert) triples as the
/// canonical patch-set bytes.
pub fn patches(_env: &NativeFnEnv, argv: Value) -> (r: VmrtRes<Value>)
    ensures
        match spec_patches(argv@) {
            Some(b) => r matches Ok(v) && v@ == Val::Bytes(b),
            None => r matches Err(e) && e.0 == ItrErrCode::NativeFuncError,
        },
{
    let items = func_list(argv, NativeFunc::patches)?;
    let ghost its = vals_of(items@);
    let len = items.len();
    if len % 3 != 0 {
        return Err(ItrErr::new(ItrErrCode::NativeFuncError, "patches list length is not a multiple of 3"));
    }
    let count = len / 3;
    if count < 1 || count > 16 {
        return Err(ItrErr::new(ItrErrCode::NativeFuncError, "patches count must be in 1..=16"));
    }
    let mut records: Vec<(u16, u16, Vec<u8>)> = Vec::new();
    let mut i: usize = 0;
    while i < count
        invariant
            count == len / 3,
            len == items@.len(),
            len % 3 == 0,
            1 <= count <= 16,
            i <= count,
            its == vals_of(items@),
            records@.len() == i,
            spec_patch_records(its, i as nat) == Some(recs_of(records@)),
            spec_list_items(argv@) == Some(its),
        decreases count - i,
    {
        assert(its[3 * i as int] == crate::value::val_of(items@[3 * i as int]));
        assert(its[3 * i + 1] == crate::value::val_of(items@[3 * i + 1]));
        assert(its[3 * i + 2] == crate::value::val_of(items@[3 * i + 2]));
        proof {
            if spec_patch_record(its, i as int) is None {
                lemma_records_none_grows(its, (i + 1) as nat, count as nat);
            }
        }
        let offset = func_u16(&items[i * 3], NativeFunc::patches, "offset")?;
        let delete_len = func_u16(&items[i * 3 + 1], NativeFunc::patches, "delete_len")?;
        let insert = patches_insert(&items[i * 3 + 2])?;
        if i > 0 {
            let prev_offset = records[i - 1].0;
            let prev_delete = records[i - 1].1;
            let prev_end = (prev_offset as u32) + (prev_delete as u32);
            if (offset as u32) <= (prev_offset as u32) || (offset as u32) < prev_end {
                proof {
                    assert(recs_of(records@).last() == recs_of(records@)[i - 1]);
                    lemma_records_none_grows(its, (i + 1) as nat, count as nat);
                }
                return Err(ItrErr::new(ItrErrCode::NativeFuncError, "patches offsets must be strictly increasing and non-overlapping"));
            }
        }
        let ghost prev = recs_of(records@);
        records.push((offset, delete_len, insert));
        proof {
            assert(recs_of(records@) =~= prev.push((offset as int, delete_len as int, insert@)));
            if i > 0 {
                assert(prev.last() == prev[i - 1]);
            }
        }
        i = i + 1;
    }
    proof {
        lemma_records_shape(its, count as nat);
    }
    let bytes = encode_patches_bytes(&records)?;
    Ok(Value::bytes(bytes))
}

/// A native call with a byte-string argument, as this library computes it:
/// the digests and the hex and base58 text checks. The remaining rows that
/// take bytes decode a Hacash amount or a fold64 number, whose wire formats
/// belong to the field codec this library does not carry; they fail.
pub open spec fn spec_concat_call(idx: u8, data: Seq<u8>) -> Option<(Val, i64)> {
    match spec_func_at(idx) {
        None => None,
        Some(c) => {
            if spec_func_pack(c) != NativeArgvPack::Concat {
                None
            } else {
                match c {
                    NativeFunc::sha2 => spec_finish(c, Val::Bytes(sha256_digest(data))),
                    NativeFunc::sha3 => spec_finish(c, Val::Bytes(sha3_256_digest(data))),
                    NativeFunc::ripemd160 => spec_finish(c, Val::Bytes(ripemd160_digest(data))),
                    NativeFunc::keccak256 => spec_finish(c, Val::Bytes(keccak256_digest(data))),
                    NativeFunc::blake2s256 => spec_finish(c, Val::Bytes(blake2s256_digest(data))),
                    NativeFunc::blake2b256 => spec_finish(c, Val::Bytes(blake2b256_digest(data))),
                    NativeFunc::ascii_hex_lower => spec_finish(c, spec_hex_lower(data)),
                    NativeFunc::ascii_base58_validate_or_echo => spec_finish(c, spec_base58_echo(data)),
                    _ => None,
                }
            }
        },
    }
}

/// A native call with structured arguments, as this library computes it:
/// `patches` and the address version rows. The remaining rows fail: the
/// amount and asset rows encode field-codec values, `address_ptr` adds a
/// reference-marker base that the field crate defines, `verify_signature`
/// needs account key recovery, and the ASCII rows (flat key-value parse,
/// validate-transform, decimal-with-unit) are catalogued with packed
/// arguments whose mapping onto the byte-string handlers
/// (`ascii_validate_transform`, `ascii_u128_dec_unit`, callable directly)
/// has no definition here.
pub open spec fn spec_packed_call(idx: u8, argv: Val) -> Option<(Val, i64)> {
    match spec_func_at(idx) {
        None => None,
        Some(c) => {
            if spec_func_pack(c) != NativeArgvPack::Packed {
                None
            } else {
                match c {
                    NativeFunc::patches => match spec_patches(argv) {
                        Some(b) => spec_finish(c, Val::Bytes(b)),
                        None => None,
                    },
                    NativeFunc::address_version | NativeFunc::is_privkey_unknown
                    | NativeFunc::is_privkey_not_unknown | NativeFunc::is_privkey
                    | NativeFunc::is_contract | NativeFunc::is_scriptmh => match val_address(argv) {
                        Some(a) => spec_finish(c, spec_address_pred(c, a)),
                        None => None,
                    },
                    _ => None,
                }
            }
        },
    }
}

fn handler_unavailable() -> (r: ItrErr)
    ensures
        r.0 == ItrErrCode::NativeFuncError,
{
    ItrErr::new(ItrErrCode::NativeFuncError, "native func handler not available")
}

impl NativeFunc {
    /// Call the function at `idx` with one byte-string argument; the row must
    /// take its argument by concatenation.
    pub fn call(env: &NativeFnEnv, idx: u8, argv: &[u8]) -> (r: VmrtRes<(Value, i64)>)
        ensures
            call_result(r, spec_concat_call(idx, argv@)),
    {
        let cty = NativeFunc::try_from_u8(idx)?;
        if cty.argv_pack_of() != NativeArgvPack::Concat {
            return Err(ItrErr::new(ItrErrCode::NativeFuncError, "native func requires packed argv"));
        }
        let r = match cty {
            NativeFunc::sha2 => sha2(env, argv)?,
            NativeFunc::sha3 => sha3(env, argv)?,
            NativeFunc::ripemd160 => ripemd160(env, argv)?,
            NativeFunc::keccak256 => keccak256(env, argv)?,
            NativeFunc::blake2s256 => blake2s256(env, argv)?,
            NativeFunc::blake2b256 => blake2b256(env, argv)?,
            NativeFunc::ascii_hex_lower => ascii_hex_lower(0, argv)?,
            NativeFunc::ascii_base58_validate_or_echo => ascii_base58_validate_or_echo(0, argv)?,
            _ => return Err(handler_unavailable()),
        };
        finish_ntfunc(cty, r)
    }

    /// Call the function at `idx` with structured arguments; the row must take
    /// packed arguments.
    pub fn call_packed(env: &NativeFnEnv, idx: u8, argv: Value) -> (r: VmrtRes<(Value, i64)>)
        ensures
            call_result(r, spec_packed_call(idx, argv@)),
    {
        let cty = NativeFunc::try_from_u8(idx)?;
        if cty.argv_pack_of() != NativeArgvPack::Packed {
            return Err(ItrErr::new(ItrErrCode::NativeFuncError, "native func requires concat argv"));
        }
        let r = match cty {
            NativeFunc::patches => patches(env, argv)?,
            NativeFunc::address_version => address_version(env, argv)?,
            NativeFunc::is_privkey_unknown => is_privkey_unknown(env, argv)?,
            NativeFunc::is_privkey_not_unknown => is_privkey_not_unknown(env, argv)?,
            NativeFunc::is_privkey => is_privkey(env, argv)?,
            NativeFunc::is_contract => is_contract(env, argv)?,
            NativeFunc::is_scriptmh => is_scriptmh(env, argv)?,
            _ => return Err(handler_unavailable()),
        };
        finish_ntfunc(cty, r)
    }
}

/// Call a native function with a byte-string argument under the limits of a
/// block height.
pub fn call_ntfunc(hei: u64, idx: u8, argv: &[u8]) -> (r: VmrtRes<(Value, i64)>)
    ensures
        call_result(r, spec_concat_call(idx, argv@)),
{
    let cap = SpaceCap::new(hei);
    let env = NativeFnEnv::new(&cap);
    NativeFunc::call(&env, idx, argv)
}

} // verus!

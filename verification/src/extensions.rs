//! Buffer and arithmetic helpers of the extension natives: bounded reads of
//! big-endian integers, digest prefixes, a ceiling fee, and a strided key
//! scan. Every failure is a `NativeFuncError`.

use vstd::prelude::*;
use crate::error::{ItrErr, ItrErrCode, VmrtRes};
use crate::hash::sha256_digest;
use crate::value::{Val, Value, vals_of};

verus! {

/// Most keys one scan may visit.
pub const SCAN_COUNT_MAX: u64 = 64;
/// Most parts one digest of parts may join.
pub const CAT_PARTS_MAX: usize = 16;
/// Most bytes one digest of parts may join.
pub const CAT_BYTES_MAX: usize = 4096;

fn func_err(msg: &str) -> (r: ItrErr)
    ensures
        r.0 == ItrErrCode::NativeFuncError,
{
    ItrErr::new(ItrErrCode::NativeFuncError, msg)
}

/// The `width` bytes at `offset`, if they lie inside the buffer.
pub fn read<'a>(buf: &'a [u8], offset: u64, width: usize) -> (r: VmrtRes<&'a [u8]>)
    ensures
        offset + width <= buf@.len() ==> (r matches Ok(s) && s@ == buf@.subrange(offset as int, offset + width)),
        offset + width > buf@.len() ==> (r matches Err(e) && e.0 == ItrErrCode::NativeFuncError),
{
    let n = buf.len();
    if offset as u128 > n as u128 {
        return Err(func_err("range out of bounds"));
    }
    let start = offset as usize;
    if width > n - start {
        return Err(func_err("range out of bounds"));
    }
    Ok(vstd::slice::slice_subrange(buf, start, start + width))
}

/// Big-endian value of a byte sequence.
pub open spec fn be_uint(s: Seq<u8>) -> nat
    decreases s.len(),
{
    if s.len() == 0 { 0 } else { be_uint(s.drop_last()) * 256 + s.last() as nat }
}

proof fn lemma_be_uint_bound(s: Seq<u8>)
    ensures
        be_uint(s) < pow2_8(s.len()),
    decreases s.len(),
{
    if s.len() > 0 {
        lemma_be_uint_bound(s.drop_last());
        let a = be_uint(s.drop_last());
        let p = pow2_8((s.len() - 1) as nat);
        assert(a * 256 + s.last() < p * 256) by (nonlinear_arith)
            requires
                a < p,
                s.last() < 256,
        ;
    }
}

/// `256^n`.
pub open spec fn pow2_8(n: nat) -> nat
    decreases n,
{
    if n == 0 { 1 } else { pow2_8((n - 1) as nat) * 256 }
}

fn be_of(s: &[u8]) -> (r: u64)
    requires
        s@.len() <= 8,
    ensures
        r == be_uint(s@),
{
    let mut v: u64 = 0;
    let mut i: usize = 0;
    while i < s.len()
        invariant
            i <= s@.len() <= 8,
            v == be_uint(s@.subrange(0, i as int)),
        decreases s@.len() - i,
    {
        proof {
            let pre = s@.subrange(0, i + 1);
            assert(pre.drop_last() =~= s@.subrange(0, i as int));
            lemma_be_uint_bound(s@.subrange(0, i as int));
            lemma_pow2_8_le(i as nat, 7);
            assert(pow2_8(7) == 0x100_0000_0000_0000) by {
                reveal_with_fuel(pow2_8, 8);
            }
            assert(v * 256 + s@[i as int] <= 0xffff_ffff_ffff_ffff) by (nonlinear_arith)
                requires
                    v < 0x100_0000_0000_0000,
                    s@[i as int] < 256,
            ;
        }
        v = v * 256 + s[i] as u64;
        i = i + 1;
    }
    assert(s@.subrange(0, s@.len() as int) =~= s@);
    v
}

proof fn lemma_pow2_8_le(a: nat, b: nat)
    requires
        a <= b,
    ensures
        pow2_8(a) <= pow2_8(b),
    decreases b,
{
    if a < b {
        lemma_pow2_8_le(a, (b - 1) as nat);
    }
}

/// The big-endian `u16` at `offset`.
pub fn buf_u16(buf: &[u8], offset: u64) -> (r: VmrtRes<u16>)
    ensures
        offset + 2 <= buf@.len() ==> (r matches Ok(v) && v == be_uint(buf@.subrange(offset as int, offset + 2))),
        offset + 2 > buf@.len() ==> (r matches Err(e) && e.0 == ItrErrCode::NativeFuncError),
{
    let s = read(buf, offset, 2)?;
    proof {
        lemma_be_uint_bound(s@);
        assert(pow2_8(2) == 65536) by {
            reveal_with_fuel(pow2_8, 3);
        }
    }
    Ok(be_of(s) as u16)
}

/// The big-endian `u32` at `offset`.
pub fn buf_u32(buf: &[u8], offset: u64) -> (r: VmrtRes<u32>)
    ensures
        offset + 4 <= buf@.len() ==> (r matches Ok(v) && v == be_uint(buf@.subrange(offset as int, offset + 4))),
        offset + 4 > buf@.len() ==> (r matches Err(e) && e.0 == ItrErrCode::NativeFuncError),
{
    let s = read(buf, offset, 4)?;
    proof {
        lemma_be_uint_bound(s@);
        assert(pow2_8(4) == 0x1_0000_0000) by {
            reveal_with_fuel(pow2_8, 5);
        }
    }
    Ok(be_of(s) as u32)
}

/// The big-endian `u64` at `offset`.
pub fn buf_u64(buf: &[u8], offset: u64) -> (r: VmrtRes<u64>)
    ensures
        offset + 8 <= buf@.len() ==> (r matches Ok(v) && v == be_uint(buf@.subrange(offset as int, offset + 8))),
        offset + 8 > buf@.len() ==> (r matches Err(e) && e.0 == ItrErrCode::NativeFuncError),
{
    let s = read(buf, offset, 8)?;
    Ok(be_of(s))
}

/// The first eight bytes of SHA-256, big endian.
pub fn sha2_prefix_u64(buf: &[u8]) -> (r: u64)
    ensures
        r == be_uint(sha256_digest(buf@).subrange(0, 8)),
{
    let d = crate::hash::sha256(buf);
    let s = vstd::slice::slice_subrange(d.as_slice(), 0, 8);
    be_of(s)
}

/// The first twenty bytes of SHA-256.
pub fn sha2_prefix_u160(buf: &[u8]) -> (r: Vec<u8>)
    ensures
        r@ == sha256_digest(buf@).subrange(0, 20),
{
    let d = crate::hash::sha256(buf);
    let s = vstd::slice::slice_subrange(d.as_slice(), 0, 20);
    vstd::slice::slice_to_vec(s)
}

/// `amount` plus its fee of `bps` basis points rounded up; it must fit `u64`.
pub open spec fn spec_fee_add(amount: u64, bps: u64) -> Option<u64> {
    let p = amount as int * bps as int;
    let fee = p / 10_000 + if p % 10_000 != 0 { 1int } else { 0int };
    if amount + fee > u64::MAX { None } else { Some((amount + fee) as u64) }
}

/// Repayment with a fee of `bps` basis points, rounded up.
pub fn fee_add_bps_ceil(amount: u64, bps: u64) -> (r: VmrtRes<u64>)
    ensures
        match spec_fee_add(amount, bps) {
            Some(v) => r == Ok::<u64, ItrErr>(v),
            None => r matches Err(e) && e.0 == ItrErrCode::NativeFuncError,
        },
{
    assert((amount as int) * (bps as int) <= 0xffff_ffff_ffff_ffff * 0xffff_ffff_ffff_ffff) by (nonlinear_arith)
        requires
            amount <= 0xffff_ffff_ffff_ffff,
            bps <= 0xffff_ffff_ffff_ffff,
    ;
    let p: u128 = amount as u128 * bps as u128;
    let fee: u128 = p / 10_000 + if p % 10_000 != 0 { 1 } else { 0 };
    let repay: u128 = amount as u128 + fee;
    if repay > 0xffff_ffff_ffff_ffff {
        return Err(func_err("repayment exceeds u64"));
    }
    Ok(repay as u64)
}

/// The first of `count` slots, `stride` bytes apart from `start`, whose first
/// four bytes are `key` big endian; the slots must lie inside the buffer.
pub open spec fn spec_scan_u32(buf: Seq<u8>, start: u64, count: u64, stride: u64, key: u64) -> Result<Option<u64>, ItrErrCode> {
    if key > u32::MAX || stride < 4 || count > SCAN_COUNT_MAX {
        Err(ItrErrCode::NativeFuncError)
    } else if count == 0 {
        Ok(None)
    } else if start + count * stride > buf.len() {
        Err(ItrErrCode::NativeFuncError)
    } else if exists|i: int| 0 <= i < count && be_uint(#[trigger] buf.subrange(start + i * stride, start + i * stride + 4)) == key {
        let i = choose|i: int| 0 <= i < count && be_uint(#[trigger] buf.subrange(start + i * stride, start + i * stride + 4)) == key
            && forall|j: int| 0 <= j < i ==> be_uint(#[trigger] buf.subrange(start + j * stride, start + j * stride + 4)) != key;
        Ok(Some((start + i * stride) as u64))
    } else {
        Ok(None)
    }
}

/// Scan strided slots for a `u32` key: `(offset, found)`.
pub fn buf_scan_u32(buf: &[u8], start: u64, count: u64, stride: u64, key: u64) -> (r: VmrtRes<(u64, bool)>)
    ensures
        match spec_scan_u32(buf@, start, count, stride, key) {
            Ok(Some(at)) => r == Ok::<(u64, bool), ItrErr>((at, true)),
            Ok(None) => r == Ok::<(u64, bool), ItrErr>((0, false)),
            Err(c) => r matches Err(e) && e.0 == c,
        },
{
    if key > 0xffff_ffff {
        return Err(func_err("buf_scan_u32 key does not fit u32"));
    }
    if stride < 4 {
        return Err(func_err("buf_scan_u32 stride is below 4"));
    }
    if count > SCAN_COUNT_MAX {
        return Err(func_err("buf_scan_u32 count exceeds the cap"));
    }
    if count == 0 {
        return Ok((0, false));
    }
    let n = buf.len();
    assert((count as int) * (stride as int) <= 64 * 0xffff_ffff_ffff_ffff) by (nonlinear_arith)
        requires
            count <= 64,
            stride <= 0xffff_ffff_ffff_ffff,
    ;
    let span: u128 = count as u128 * stride as u128;
    if start as u128 + span > n as u128 {
        return Err(func_err("buf_scan_u32 window exceeds buffer"));
    }
    let mut i: u64 = 0;
    while i < count
        invariant
            i <= count <= SCAN_COUNT_MAX,
            stride >= 4,
            key <= u32::MAX,
            start + count * stride <= buf@.len(),
            n == buf@.len(),
            forall|j: int| 0 <= j < i ==> be_uint(#[trigger] buf@.subrange(start + j * stride, start + j * stride + 4)) != key,
        decreases count - i,
    {
        assert(start + i * stride + 4 <= start + count * stride) by (nonlinear_arith)
            requires
                i < count,
                stride >= 4,
        ;
        let at: u64 = start + i * stride;
        let s = vstd::slice::slice_subrange(buf, at as usize, at as usize + 4);
        let v = be_of(s);
        if v == key {
            let ghost w = i as int;
            assert(be_uint(buf@.subrange(start + w * stride, start + w * stride + 4)) == key);
            proof {
                let c = choose|c: int| 0 <= c < count && be_uint(#[trigger] buf@.subrange(start + c * stride, start + c * stride + 4)) == key
                    && forall|j: int| 0 <= j < c ==> be_uint(#[trigger] buf@.subrange(start + j * stride, start + j * stride + 4)) != key;
                assert(0 <= w < count && be_uint(buf@.subrange(start + w * stride, start + w * stride + 4)) == key
                    && forall|j: int| 0 <= j < w ==> be_uint(#[trigger] buf@.subrange(start + j * stride, start + j * stride + 4)) != key);
                if c < w {
                    assert(be_uint(buf@.subrange(start + c * stride, start + c * stride + 4)) != key);
                }
                if c > w {
                    assert(be_uint(buf@.subrange(start + w * stride, start + w * stride + 4)) != key);
                }
            }
            return Ok((at, true));
        }
        i = i + 1;
    }
    Ok((0, false))
}

/// SHA-256 prefix of byte-string parts joined in order: at most 16 parts and
/// 4096 bytes; a part that is not a byte string is an error.
pub open spec fn spec_cat_parts(parts: Seq<Val>, n: nat) -> Option<Seq<u8>>
    decreases n,
{
    if n == 0 {
        Some(Seq::empty())
    } else {
        match spec_cat_parts(parts, (n - 1) as nat) {
            None => None,
            Some(acc) => match parts[n - 1] {
                Val::Bytes(b) => if acc.len() + b.len() > CAT_BYTES_MAX { None } else { Some(acc + b) },
                _ => None,
            },
        }
    }
}

proof fn lemma_cat_parts_none(parts: Seq<Val>, m: nat, n: nat)
    requires
        m <= n,
        spec_cat_parts(parts, m) is None,
    ensures
        spec_cat_parts(parts, n) is None,
    decreases n,
{
    if n > m {
        lemma_cat_parts_none(parts, m, (n - 1) as nat);
    }
}

/// The SHA-256 prefix of byte-string parts joined in order.
pub fn sha2_prefix_u64_cat(parts: &Vec<Value>) -> (r: VmrtRes<u64>)
    ensures
        parts@.len() > CAT_PARTS_MAX ==> (r matches Err(e) && e.0 == ItrErrCode::NativeFuncError),
        parts@.len() <= CAT_PARTS_MAX ==> match spec_cat_parts(vals_of(parts@), parts@.len()) {
            Some(b) => r == Ok::<u64, ItrErr>(be_uint(sha256_digest(b).subrange(0, 8)) as u64),
            None => r matches Err(e) && e.0 == ItrErrCode::NativeFuncError,
        },
{
    if parts.len() > CAT_PARTS_MAX {
        return Err(func_err("sha2_prefix_u64_cat part count exceeds the cap"));
    }
    let ghost ps = vals_of(parts@);
    let mut buf: Vec<u8> = Vec::new();
    let mut i: usize = 0;
    while i < parts.len()
        invariant
            i <= parts@.len() <= CAT_PARTS_MAX,
            ps == vals_of(parts@),
            spec_cat_parts(ps, i as nat) == Some(buf@),
        decreases parts@.len() - i,
    {
        assert(ps[i as int] == crate::value::val_of(parts@[i as int]));
        let b = match &parts[i] {
            Value::Bytes(b) => b,
            _ => {
                proof {
                    lemma_cat_parts_none(ps, (i + 1) as nat, parts@.len());
                }
                return Err(func_err("sha2_prefix_u64_cat part must be bytes"));
            },
        };
        if b.len() > CAT_BYTES_MAX || buf.len() > CAT_BYTES_MAX - b.len() {
            proof {
                lemma_cat_parts_none(ps, (i + 1) as nat, parts@.len());
            }
            return Err(func_err("sha2_prefix_u64_cat length exceeds the cap"));
        }
        let ghost b0 = buf@;
        let mut k: usize = 0;
        while k < b.len()
            invariant
                k <= b@.len(),
                buf@ == b0 + b@.subrange(0, k as int),
            decreases b@.len() - k,
        {
            buf.push(b[k]);
            k = k + 1;
            assert(buf@ =~= b0 + b@.subrange(0, k as int));
        }
        assert(b@.subrange(0, b@.len() as int) =~= b@);
        i = i + 1;
    }
    Ok(sha2_prefix_u64(buf.as_slice()))
}

} // verus!

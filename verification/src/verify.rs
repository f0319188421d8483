//! Static check of a runtime bytecode body: non-empty, bounded, ends on a
//! terminal instruction, every byte read as an opcode is valid, and every
//! jump lands on the start of an instruction. An immediate that runs past
//! the end of the body is not refused here: the walk simply ends.

use vstd::prelude::*;
use crate::bytecode::{spec_meta, spec_valid, spec_is_terminal, lemma_byte_roundtrip, Bytecode};
use crate::error::{ItrErr, ItrErrCode, VmrtErr, VmrtRes};

verus! {

/// Big-endian unsigned 16-bit value of two bytes.
pub open spec fn be_u16(hi: u8, lo: u8) -> int {
    hi * 256 + lo
}

/// Two's-complement signed value of one byte.
pub open spec fn as_i8(b: u8) -> int {
    if b < 128 { b as int } else { b - 256 }
}

/// Two's-complement signed big-endian 16-bit value of two bytes.
pub open spec fn as_i16(hi: u8, lo: u8) -> int {
    if be_u16(hi, lo) < 32768 { be_u16(hi, lo) } else { be_u16(hi, lo) - 65536 }
}

/// One step of the instruction walk at `i`: the position of the next
/// instruction and the jump destination this instruction records, if any.
pub open spec fn walk_step(codes: Seq<u8>, i: int) -> Result<(int, Option<int>), ItrErrCode>
    recommends
        0 <= i < codes.len(),
{
    let b = codes[i];
    let j = i + 1;
    let param = spec_meta(b).1 as int;
    if !spec_valid(b) {
        Err(ItrErrCode::InstInvalid)
    } else if b == 0x22 {
        // PBUF: one length byte, then that many data bytes
        if j >= codes.len() { Err(ItrErrCode::CodeOverflow) } else { Ok((j + codes[j] + param, None)) }
    } else if b == 0x23 {
        // PBUFL: two length bytes, then that many data bytes
        if j + 2 > codes.len() { Err(ItrErrCode::CodeOverflow) }
        else { Ok((j + be_u16(codes[j], codes[j + 1]) + param, None)) }
    } else if b == 0xe0 || b == 0xe3 {
        // JMPL / BRL: absolute 16-bit target
        if j + 2 > codes.len() { Err(ItrErrCode::CodeOverflow) }
        else { Ok((j + param, Some(be_u16(codes[j], codes[j + 1])))) }
    } else if b == 0xe1 || b == 0xe4 {
        // JMPS / BRS: signed 8-bit offset
        if j >= codes.len() { Err(ItrErrCode::CodeOverflow) }
        else { Ok((j + param, Some(j + as_i8(codes[j]) + 1))) }
    } else if b == 0xe2 || b == 0xe5 || b == 0xe6 {
        // JMPSL / BRSL / BRSLN: signed 16-bit offset
        if j + 2 > codes.len() { Err(ItrErrCode::CodeOverflow) }
        else { Ok((j + param, Some(j + as_i16(codes[j], codes[j + 1]) + 2))) }
    } else {
        Ok((j + param, None))
    }
}

/// The destinations the walk records for jumps. A long jump (`JMPL`, `BRL`)
/// names its target absolutely: the big-endian 16-bit immediate, wherever the
/// jump stands. A short jump (`JMPS`, `BRS`) is relative to its own start plus
/// two, a signed-16 jump (`JMPSL`, `BRSL`, `BRSLN`) to its own start plus three.
pub proof fn lemma_jump_destinations(codes: Seq<u8>, i: int)
    requires
        0 <= i,
        i + 3 <= codes.len(),
    ensures
        (codes[i] == 0xe0 || codes[i] == 0xe3) ==> walk_step(codes, i) == Ok::<(int, Option<int>), ItrErrCode>((i + 3, Some(codes[i + 1] * 256 + codes[i + 2]))),
        (codes[i] == 0xe1 || codes[i] == 0xe4) ==> walk_step(codes, i) == Ok::<(int, Option<int>), ItrErrCode>((i + 2, Some(i + 2 + (if codes[i + 1] < 128 { codes[i + 1] as int } else { codes[i + 1] - 256 })))),
        (codes[i] == 0xe2 || codes[i] == 0xe5 || codes[i] == 0xe6) ==> walk_step(codes, i) == Ok::<(int, Option<int>), ItrErrCode>((i + 3, Some(i + 3 + (if codes[i + 1] * 256 + codes[i + 2] < 32768 { codes[i + 1] * 256 + codes[i + 2] } else { codes[i + 1] * 256 + codes[i + 2] - 65536 })))),
{
}

pub proof fn lemma_walk_step_advances(codes: Seq<u8>, i: int)
    requires
        0 <= i < codes.len(),
    ensures
        walk_step(codes, i) matches Ok((n, _)) ==> n > i,
{
}

/// The instruction walk from `i` to the end: the set of instruction starts
/// and the recorded jump destinations in order, or the first error.
pub open spec fn walk_from(codes: Seq<u8>, i: int) -> Result<(Set<int>, Seq<int>), ItrErrCode>
    decreases codes.len() - i,
{
    if i < 0 || i >= codes.len() {
        Ok((Set::empty(), Seq::empty()))
    } else {
        match walk_step(codes, i) {
            Err(e) => Err(e),
            Ok((next, dest)) => {
                let rest = if i < next < codes.len() {
                    walk_from(codes, next)
                } else {
                    Ok((Set::empty(), Seq::empty()))
                };
                match rest {
                    Err(e) => Err(e),
                    Ok((starts, dests)) => Ok((
                        starts.insert(i),
                        match dest {
                            Some(d) => seq![d] + dests,
                            None => dests,
                        },
                    )),
                }
            }
        }
    }
}

/// Outcome of checking jump destinations in order.
pub enum DestCheck {
    Pass,
    Fail(ItrErrCode),
    /// The destination equals the code length exactly.
    AtEnd,
}

/// Check destinations in order: the first one outside `0..=len` fails with
/// `JumpOverflow`, the first one that is not an instruction start fails with
/// `JumpInDataSeg`.
pub open spec fn check_dests(starts: Set<int>, dests: Seq<int>, len: int) -> DestCheck
    decreases dests.len(),
{
    if dests.len() == 0 {
        DestCheck::Pass
    } else {
        let d = dests[0];
        if d < 0 || d > len {
            DestCheck::Fail(ItrErrCode::JumpOverflow)
        } else if d == len {
            DestCheck::AtEnd
        } else if !starts.contains(d) {
            DestCheck::Fail(ItrErrCode::JumpInDataSeg)
        } else {
            check_dests(starts, dests.drop_first(), len)
        }
    }
}

/// The inputs on which the check would index one past its table: the first
/// destination that does not pass lands exactly at the end of the code.
pub open spec fn jump_lands_at_end(codes: Seq<u8>) -> bool {
    &&& 0 < codes.len() <= 65535
    &&& spec_is_terminal(codes.last())
    &&& walk_from(codes, 0) matches Ok((starts, dests))
    &&& check_dests(starts, dests, codes.len() as int) is AtEnd
}

/// The verdict on a code body.
pub open spec fn spec_verify(codes: Seq<u8>) -> Result<(), ItrErrCode> {
    if codes.len() == 0 {
        Err(ItrErrCode::CodeEmpty)
    } else if codes.len() > 65535 {
        Err(ItrErrCode::CodeTooLong)
    } else if !spec_is_terminal(codes.last()) {
        Err(ItrErrCode::CodeNotWithEnd)
    } else {
        match walk_from(codes, 0) {
            Err(e) => Err(e),
            Ok((starts, dests)) => match check_dests(starts, dests, codes.len() as int) {
                DestCheck::Fail(e) => Err(e),
                _ => Ok(()),
            },
        }
    }
}

/// Check a runtime code body; the result is exactly [`spec_verify`].
pub fn verify_bytecodes(codes: &[u8]) -> (r: VmrtErr)
    requires
        !jump_lands_at_end(codes@),
    ensures
        r is Ok <==> spec_verify(codes@) is Ok,
        r matches Err(e) ==> spec_verify(codes@) == Err::<(), ItrErrCode>(e.0),
{
    let cl = codes.len();
    if cl == 0 {
        return Err(ItrErr::code(ItrErrCode::CodeEmpty));
    }
    if cl > 65535 {
        return Err(ItrErr::code(ItrErrCode::CodeTooLong));
    }
    let tail = codes[cl - 1];
    if !(tail == 0xee || tail == 0xef || tail == 0xec || tail == 0xed) {
        return Err(ItrErr::code(ItrErrCode::CodeNotWithEnd));
    }
    let (instable, jumpdests) = verify_valid_instruction(codes)?;
    proof {
        let (starts, dests) = walk_from(codes@, 0).unwrap();
        lemma_walk_from_starts_after(codes@, 0);
        assert(Set::new(|k: int| 0 <= k < instable@.len() && instable@[k]) =~= starts);
        assert(jumpdests@.map_values(|d: i64| d as int) =~= dests);
    }
    verify_jump_dests(&instable, &jumpdests)?;
    Ok(())
}

/// One instruction of the walk at `i`: the next position and the recorded
/// jump destination, exactly as [`walk_step`].
pub(crate) fn walk_one(codes: &[u8], i: usize) -> (r: VmrtRes<(usize, Option<i64>)>)
    requires
        i < codes.len() <= 65535,
    ensures
        match r {
            Ok((n, d)) => walk_step(codes@, i as int) == Ok::<(int, Option<int>), ItrErrCode>((
                n as int,
                match d {
                    Some(x) => Some(x as int),
                    None => None,
                },
            )) && n <= i + 65540,
            Err(e) => walk_step(codes@, i as int) == Err::<(int, Option<int>), ItrErrCode>(e.0),
        },
{
    let cdlen = codes.len();
    let byte = codes[i];
    let inst = Bytecode::from_byte(byte);
    proof {
        lemma_byte_roundtrip(byte, inst);
    }
    let meta = inst.metadata();
    assert(meta.valid == spec_valid(byte) && meta.param == spec_meta(byte).1);
    if !meta.valid {
        return Err(ItrErr::code(ItrErrCode::InstInvalid));
    }
    let j = i + 1;
    let param = meta.param as usize;
    if byte == 0x22 {
        if j >= cdlen {
            return Err(ItrErr::code(ItrErrCode::CodeOverflow));
        }
        Ok((j + codes[j] as usize + param, None))
    } else if byte == 0x23 {
        if j + 2 > cdlen {
            return Err(ItrErr::code(ItrErrCode::CodeOverflow));
        }
        Ok((j + (codes[j] as usize) * 256 + codes[j + 1] as usize + param, None))
    } else if byte == 0xe0 || byte == 0xe3 {
        if j + 2 > cdlen {
            return Err(ItrErr::code(ItrErrCode::CodeOverflow));
        }
        Ok((j + param, Some((codes[j] as i64) * 256 + codes[j + 1] as i64)))
    } else if byte == 0xe1 || byte == 0xe4 {
        if j >= cdlen {
            return Err(ItrErr::code(ItrErrCode::CodeOverflow));
        }
        let off: i64 = if codes[j] < 128 { codes[j] as i64 } else { codes[j] as i64 - 256 };
        Ok((j + param, Some(j as i64 + off + 1)))
    } else if byte == 0xe2 || byte == 0xe5 || byte == 0xe6 {
        if j + 2 > cdlen {
            return Err(ItrErr::code(ItrErrCode::CodeOverflow));
        }
        let u: i64 = (codes[j] as i64) * 256 + codes[j + 1] as i64;
        let off: i64 = if u < 32768 { u } else { u - 65536 };
        Ok((j + param, Some(j as i64 + off + 2)))
    } else {
        Ok((j + param, None))
    }
}

/// Walk the instructions: a table marking each instruction start, and the
/// jump destinations in order.
fn verify_valid_instruction(codes: &[u8]) -> (r: VmrtRes<(Vec<bool>, Vec<i64>)>)
    requires
        codes.len() <= 65535,
    ensures
        match r {
            Ok((tab, ds)) => walk_from(codes@, 0) matches Ok((starts, dests)) && tab@.len()
                == codes.len() && (forall|k: int| 0 <= k < codes.len() ==> (tab@[k] <==> starts.contains(k)))
                && ds@.len() == dests.len() && (forall|k: int| 0 <= k < dests.len() ==> ds@[k] == dests[k]),
            Err(e) => walk_from(codes@, 0) == Err::<(Set<int>, Seq<int>), ItrErrCode>(e.0),
        },
{
    let cdlen = codes.len();
    let mut instable: Vec<bool> = Vec::new();
    let mut t: usize = 0;
    while t < cdlen
        invariant
            t <= cdlen,
            instable@.len() == t,
            forall|k: int| 0 <= k < t ==> !instable@[k],
        decreases cdlen - t,
    {
        instable.push(false);
        t = t + 1;
    }
    let mut jumpdest: Vec<i64> = Vec::new();
    let mut i: usize = 0;
    let ghost mut starts: Set<int> = Set::empty();
    let ghost mut dests: Seq<int> = Seq::empty();
    proof {
        lemma_walk_from_starts_after(codes@, 0);
        if walk_from(codes@, 0) is Ok {
            let (s0, d0) = walk_from(codes@, 0).unwrap();
            assert(s0 =~= starts.union(s0));
            assert(d0 =~= dests + d0);
        }
    }
    while i < cdlen
        invariant
            cdlen == codes.len(),
            cdlen <= 65535,
            instable@.len() == cdlen,
            forall|k: int| 0 <= k < cdlen ==> (instable@[k] <==> starts.contains(k)),
            forall|k: int| starts.contains(k) ==> 0 <= k < i,
            jumpdest@.len() == dests.len(),
            forall|k: int| 0 <= k < dests.len() ==> jumpdest@[k] == dests[k],
            i <= cdlen + 65540,
            match walk_from(codes@, i as int) {
                Err(e) => walk_from(codes@, 0) == Err::<(Set<int>, Seq<int>), ItrErrCode>(e),
                Ok((s2, d2)) => walk_from(codes@, 0) matches Ok((s0, d0)) && s0 == starts.union(s2)
                    && d0 == dests + d2 && (forall|k: int| s2.contains(k) ==> k >= i),
            },
        decreases cdlen + 65540 - i,
    {
        let ghost gi = i as int;
        let (next, dest) = walk_one(codes, i)?;
        instable.set(i, true);
        match dest {
            Some(d) => {
                jumpdest.push(d);
            },
            None => {},
        }
        proof {
            lemma_walk_step_advances(codes@, gi);
            let old_dests = dests;
            starts = starts.insert(gi);
            dests = match dest {
                Some(d) => dests.push(d as int),
                None => dests,
            };
            if (next as int) < cdlen {
                lemma_walk_from_starts_after(codes@, next as int);
            }
            match walk_from(codes@, gi) {
                Err(e) => {},
                Ok((s1, d1)) => {
                    let rest = if (next as int) < cdlen { walk_from(codes@, next as int) } else {
                        Ok((Set::empty(), Seq::empty()))
                    };
                    match rest {
                        Err(e) => {},
                        Ok((s3, d3)) => {
                            assert(walk_from(codes@, next as int) == rest);
                            let (s0, d0) = walk_from(codes@, 0).unwrap();
                            match dest {
                                Some(d) => {
                                    assert(d1 =~= seq![d as int] + d3);
                                    assert(d0 =~= dests + d3);
                                },
                                None => {
                                    assert(d0 =~= dests + d3);
                                },
                            }
                            assert(s0 =~= starts.union(s3));
                        },
                    }
                },
            }
        }
        i = next;
    }
    proof {
        let (s0, d0) = walk_from(codes@, 0).unwrap();
        assert(d0 =~= dests);
        assert(s0 =~= starts);
    }
    Ok((instable, jumpdest))
}

proof fn lemma_walk_from_starts_after(codes: Seq<u8>, i: int)
    ensures
        walk_from(codes, i) matches Ok((s, _)) ==> (forall|k: int| s.contains(k) ==> k >= i && k < codes.len()),
    decreases codes.len() - i,
{
    if 0 <= i < codes.len() {
        match walk_step(codes, i) {
            Err(_) => {},
            Ok((next, _)) => {
                if i < next < codes.len() {
                    lemma_walk_from_starts_after(codes, next);
                }
            },
        }
    }
}

/// Check the destinations in order against the instruction-start table.
fn verify_jump_dests(instable: &Vec<bool>, jumpdests: &Vec<i64>) -> (r: VmrtErr)
    requires
        instable@.len() <= 65535,
        !(check_dests(Set::new(|k: int| 0 <= k < instable@.len() && instable@[k]), jumpdests@.map_values(|d: i64| d as int), instable@.len() as int) is AtEnd),
    ensures
        match check_dests(Set::new(|k: int| 0 <= k < instable@.len() && instable@[k]), jumpdests@.map_values(|d: i64| d as int), instable@.len() as int) {
            DestCheck::Fail(e) => r matches Err(x) && x.0 == e,
            _ => r is Ok,
        },
{
    let ghost starts = Set::new(|k: int| 0 <= k < instable@.len() && instable@[k]);
    let ghost all = jumpdests@.map_values(|d: i64| d as int);
    let itlen = instable.len();
    let mut k: usize = 0;
    assert(all.subrange(0, all.len() as int) =~= all);
    while k < jumpdests.len()
        invariant
            k <= jumpdests.len(),
            itlen == instable@.len(),
            itlen <= 65535,
            all == jumpdests@.map_values(|d: i64| d as int),
            starts == Set::new(|k: int| 0 <= k < instable@.len() && instable@[k]),
            check_dests(starts, all, itlen as int) == check_dests(starts, all.subrange(k as int, all.len() as int), itlen as int),
            !(check_dests(starts, all, itlen as int) is AtEnd),
        decreases jumpdests.len() - k,
    {
        let j = jumpdests[k];
        let ghost rest = all.subrange(k as int, all.len() as int);
        assert(all[k as int] == j as int);
        assert(rest[0] == j as int);
        assert(rest.drop_first() =~= all.subrange(k + 1, all.len() as int));
        if j < 0 || j > itlen as i64 {
            assert(check_dests(starts, rest, itlen as int) == DestCheck::Fail(ItrErrCode::JumpOverflow));
            return Err(ItrErr::code(ItrErrCode::JumpOverflow));
        }
        if j == itlen as i64 {
            assert(false);
            return Err(ItrErr::code(ItrErrCode::JumpOverflow));
        }
        if !instable[j as usize] {
            assert(!starts.contains(j as int));
            return Err(ItrErr::code(ItrErrCode::JumpInDataSeg));
        }
        k = k + 1;
    }
    assert(all.subrange(k as int, all.len() as int).len() == 0);
    Ok(())
}

proof fn lemma_check_dests_pass(starts: Set<int>, dests: Seq<int>, len: int)
    requires
        check_dests(starts, dests, len) is Pass,
    ensures
        forall|k: int| 0 <= k < dests.len() ==> 0 <= #[trigger] dests[k] < len && starts.contains(dests[k]),
    decreases dests.len(),
{
    if dests.len() > 0 {
        lemma_check_dests_pass(starts, dests.drop_first(), len);
        assert forall|k: int| 0 <= k < dests.len() implies 0 <= #[trigger] dests[k] < len && starts.contains(dests[k]) by {
            if k > 0 {
                assert(dests[k] == dests.drop_first()[k - 1]);
            }
        }
    }
}

/// A body the check accepts ends on a terminal instruction, and every jump it
/// records lands on the first byte of an instruction inside the body.
pub proof fn lemma_accepted_code_jumps_land_on_instructions(codes: Seq<u8>)
    requires
        spec_verify(codes) is Ok,
        !jump_lands_at_end(codes),
    ensures
        0 < codes.len() <= 65535,
        spec_is_terminal(codes.last()),
        walk_from(codes, 0) matches Ok((starts, dests)) && (forall|k: int|
            0 <= k < dests.len() ==> 0 <= #[trigger] dests[k] < codes.len() && starts.contains(dests[k])),
{
    let (starts, dests) = walk_from(codes, 0).unwrap();
    lemma_check_dests_pass(starts, dests, codes.len() as int);
}

} // verus!

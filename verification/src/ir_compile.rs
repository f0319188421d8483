//! Lowering of IR trees to runtime bytecode: blocks, lists, `if` and `while`
//! with their branch layout, and `break`/`continue` patching inside loops.

use vstd::prelude::*;
use crate::bytecode::{Bytecode, spec_byte};
use crate::error::{ItrErr, ItrErrCode, VmrtErr, VmrtRes};
use crate::ir::{IrNode, IrTree, tree_of, trees_of, tree_has_ret};
use crate::ir_parse::{parse_ir_block, spec_parse_top, spec_stack_tail, validate_irlist_stack_tail};
use crate::verify::{as_i16, walk_step};

verus! {

/// Length of a jump instruction with a 16-bit immediate.
pub const JMP_INST_LEN: usize = 3;

/// Longest branch or loop body that a signed 16-bit jump can span.
pub const BLOCK_CODES_MAX_LEN: usize = 32700;

/// Two bytes of a signed 16-bit value, big endian.
pub open spec fn be_i16(v: int) -> Seq<u8> {
    let u = if v < 0 { v + 65536 } else { v };
    seq![(u / 256) as u8, (u % 256) as u8]
}

/// A statement block (`IRBLOCK`) discards its items' values itself.
pub open spec fn spec_is_stmt_block(t: IrTree) -> bool {
    t matches IrTree::Array(inst, _) && inst == Bytecode::IRBLOCK
}

/// Bytecode of a node.
pub open spec fn spec_codegen(t: IrTree) -> Result<Seq<u8>, ItrErrCode>
    decreases t, 0int,
{
    match t {
        IrTree::Bytecodes(b) => Ok(b),
        IrTree::Array(inst, subs) => {
            if inst == Bytecode::IRLIST {
                spec_compile_list(subs)
            } else if inst == Bytecode::IRBLOCK || inst == Bytecode::IRBLOCKR {
                spec_compile_block(inst == Bytecode::IRBLOCKR, subs)
            } else {
                Err(ItrErrCode::CompileError)
            }
        },
        IrTree::Op(_, inst, para, subs) => {
            if inst == Bytecode::IRIF || inst == Bytecode::IRIFR {
                spec_compile_if(inst == Bytecode::IRIFR, subs)
            } else if inst == Bytecode::IRWHILE {
                spec_compile_while(subs)
            } else if inst == Bytecode::IRBREAK || inst == Bytecode::IRCONTINUE {
                Err(ItrErrCode::CompileError)
            } else {
                match spec_codegen_seq(subs) {
                    Err(e) => Err(e),
                    Ok(b) => Ok(b + seq![spec_byte(inst)] + para),
                }
            }
        },
    }
}

/// Bytecode of nodes one after another.
pub open spec fn spec_codegen_seq(ts: Seq<IrTree>) -> Result<Seq<u8>, ItrErrCode>
    decreases ts, 0int,
{
    if ts.len() == 0 {
        Ok(Seq::empty())
    } else {
        match spec_codegen(ts[0]) {
            Err(e) => Err(e),
            Ok(a) => match spec_codegen_seq(ts.drop_first()) {
                Err(e) => Err(e),
                Ok(b) => Ok(a + b),
            },
        }
    }
}

/// An `IRLIST`: its tail invariants, then its items one after another.
pub open spec fn spec_compile_list(ts: Seq<IrTree>) -> Result<Seq<u8>, ItrErrCode>
    decreases ts, 1int,
{
    if spec_stack_tail(ts) is Err {
        Err(ItrErrCode::InstInvalid)
    } else {
        spec_codegen_seq(ts)
    }
}

/// Items of a block: each item's value is popped, except the last item of a
/// block expression.
pub open spec fn spec_block_items(expr: bool, ts: Seq<IrTree>) -> Result<Seq<u8>, ItrErrCode>
    decreases ts, 0int,
{
    if ts.len() == 0 {
        Ok(Seq::empty())
    } else {
        match spec_codegen(ts[0]) {
            Err(e) => Err(e),
            Ok(a) => {
                let pop: Seq<u8> = if tree_has_ret(ts[0]) && !(expr && ts.len() == 1) { seq![0x42u8] } else { Seq::empty() };
                match spec_block_items(expr, ts.drop_first()) {
                    Err(e) => Err(e),
                    Ok(b) => Ok(a + pop + b),
                }
            },
        }
    }
}

/// An `IRBLOCK` (statement) or `IRBLOCKR` (expression; must end in an item
/// that produces a value).
pub open spec fn spec_compile_block(expr: bool, ts: Seq<IrTree>) -> Result<Seq<u8>, ItrErrCode>
    decreases ts, 1int,
{
    if expr && ts.len() == 0 {
        Err(ItrErrCode::CompileError)
    } else if expr && !tree_has_ret(ts.last()) {
        Err(ItrErrCode::CompileError)
    } else {
        spec_block_items(expr, ts)
    }
}

/// A branch of a statement `if`: its value is popped unless it is a statement
/// block.
pub open spec fn spec_branch_pop(t: IrTree, expr: bool) -> Seq<u8> {
    if !expr && tree_has_ret(t) && !spec_is_stmt_block(t) { seq![0x42u8] } else { Seq::empty() }
}

/// The `if` layout: `cond | BRSL +else_l | else | JMPSL +then_l | then`.
pub open spec fn spec_if_layout(cond: Seq<u8>, then_br: Seq<u8>, else_br: Seq<u8>) -> Seq<u8> {
    cond + seq![0xe5u8] + be_i16(else_br.len() + 3int) + else_br + seq![0xe2u8] + be_i16(then_br.len() as int) + then_br
}

/// Length limits of an `if` once its parts are compiled: each branch must be
/// reachable by a signed 16-bit jump, and the whole must fit a code window.
pub open spec fn spec_if_frame(cond: Seq<u8>, then_br: Seq<u8>, else_br: Seq<u8>) -> Result<Seq<u8>, ItrErrCode> {
    if then_br.len() > 32700 || else_br.len() + 3 > 32700 {
        Err(ItrErrCode::CompileError)
    } else if cond.len() + 3 + else_br.len() + 3 + then_br.len() > 65535 {
        Err(ItrErrCode::CompileError)
    } else {
        Ok(spec_if_layout(cond, then_br, else_br))
    }
}

/// `IRIF` / `IRIFR` with operands `[cond, then, else]`.
pub open spec fn spec_compile_if(expr: bool, subs: Seq<IrTree>) -> Result<Seq<u8>, ItrErrCode>
    decreases subs, 0int,
{
    if subs.len() != 3 {
        Err(ItrErrCode::CompileError)
    } else {
        match spec_codegen(subs[0]) {
            Err(e) => Err(e),
            Ok(cond) => match spec_codegen(subs[1]) {
                Err(e) => Err(e),
                Ok(y) => {
                    if expr && !tree_has_ret(subs[1]) {
                        Err(ItrErrCode::CompileError)
                    } else {
                        match spec_codegen(subs[2]) {
                            Err(e) => Err(e),
                            Ok(z) => {
                                if expr && !tree_has_ret(subs[2]) {
                                    Err(ItrErrCode::CompileError)
                                } else {
                                    spec_if_frame(cond, y + spec_branch_pop(subs[1], expr), z + spec_branch_pop(subs[2], expr))
                                }
                            },
                        }
                    }
                },
            },
        }
    }
}

/// Bytes of a loop body with the slots of its `break` and `continue` jumps
/// (positions of their 16-bit immediates).
pub type Lowered = (Seq<u8>, Seq<int>, Seq<int>);

pub open spec fn shift_slots(s: Seq<int>, d: int) -> Seq<int> {
    Seq::new(s.len(), |i: int| s[i] + d)
}

/// `a` followed by `b`.
pub open spec fn lowered_cat(a: Lowered, b: Lowered) -> Lowered {
    (a.0 + b.0, a.1 + shift_slots(b.1, a.0.len() as int), a.2 + shift_slots(b.2, a.0.len() as int))
}

/// A node inside a loop body: `break`/`continue` become `JMPSL` placeholders.
pub open spec fn spec_lower(t: IrTree) -> Result<Lowered, ItrErrCode>
    decreases t, 1int,
{
    match t {
        IrTree::Op(_, inst, _, subs) => {
            if inst == Bytecode::IRBREAK {
                Ok((seq![0xe2u8, 0u8, 0u8], seq![1int], Seq::empty()))
            } else if inst == Bytecode::IRCONTINUE {
                Ok((seq![0xe2u8, 0u8, 0u8], Seq::empty(), seq![1int]))
            } else if inst == Bytecode::IRIF && subs.len() == 3 {
                spec_lower_if(subs)
            } else {
                match spec_codegen(t) {
                    Err(e) => Err(e),
                    Ok(b) => Ok((b, Seq::empty(), Seq::empty())),
                }
            }
        },
        IrTree::Array(inst, subs) => {
            if inst == Bytecode::IRLIST {
                if spec_stack_tail(subs) is Err {
                    Err(ItrErrCode::InstInvalid)
                } else {
                    spec_lower_items(false, false, subs)
                }
            } else if inst == Bytecode::IRBLOCK || inst == Bytecode::IRBLOCKR {
                let expr = inst == Bytecode::IRBLOCKR;
                if expr && subs.len() == 0 {
                    Err(ItrErrCode::CompileError)
                } else if expr && !tree_has_ret(subs.last()) {
                    Err(ItrErrCode::CompileError)
                } else {
                    spec_lower_items(true, expr, subs)
                }
            } else {
                Err(ItrErrCode::CompileError)
            }
        },
        IrTree::Bytecodes(b) => Ok((b, Seq::empty(), Seq::empty())),
    }
}

/// Items of a list (`block == false`) or block inside a loop body.
pub open spec fn spec_lower_items(block: bool, expr: bool, ts: Seq<IrTree>) -> Result<Lowered, ItrErrCode>
    decreases ts, 0int,
{
    if ts.len() == 0 {
        Ok((Seq::empty(), Seq::empty(), Seq::empty()))
    } else {
        match spec_lower(ts[0]) {
            Err(e) => Err(e),
            Ok(a) => {
                let pop: Seq<u8> = if block && tree_has_ret(ts[0]) && !(expr && ts.len() == 1) { seq![0x42u8] } else { Seq::empty() };
                match spec_lower_items(block, expr, ts.drop_first()) {
                    Err(e) => Err(e),
                    Ok(b) => Ok(lowered_cat((a.0 + pop, a.1, a.2), b)),
                }
            },
        }
    }
}

/// The branches of a statement `if` spliced into its layout, their jump slots
/// moved to where the branches start.
pub open spec fn spec_if_spliced(cond: Seq<u8>, y: Lowered, z: Lowered) -> Lowered {
    let else_start: int = cond.len() + 3int;
    let then_start: int = else_start + z.0.len() + 3;
    (
        spec_if_layout(cond, y.0, z.0),
        shift_slots(z.1, else_start) + shift_slots(y.1, then_start),
        shift_slots(z.2, else_start) + shift_slots(y.2, then_start),
    )
}

/// A statement `if` inside a loop body: same layout as [`spec_if_layout`],
/// with the branches' jump slots moved to their place in it.
pub open spec fn spec_lower_if(subs: Seq<IrTree>) -> Result<Lowered, ItrErrCode>
    decreases subs, 0int,
{
    if subs.len() != 3 {
        Err(ItrErrCode::CompileError)
    } else {
        match spec_codegen(subs[0]) {
            Err(e) => Err(e),
            Ok(cond) => match spec_lower(subs[1]) {
                Err(e) => Err(e),
                Ok(y) => match spec_lower(subs[2]) {
                    Err(e) => Err(e),
                    Ok(z) => {
                        let then_br = y.0 + spec_branch_pop(subs[1], false);
                        let else_br = z.0 + spec_branch_pop(subs[2], false);
                        if then_br.len() > 32700 || else_br.len() + 3 > 32700 {
                            Err(ItrErrCode::CompileError)
                        } else {
                            Ok(spec_if_spliced(cond, (then_br, y.1, y.2), (else_br, z.1, z.2)))
                        }
                    },
                },
            },
        }
    }
}

/// Write a signed 16-bit value big endian at `slot`.
pub open spec fn write_i16(b: Seq<u8>, slot: int, v: int) -> Seq<u8> {
    b.update(slot, be_i16(v)[0]).update(slot + 1, be_i16(v)[1])
}

/// The jump to just past the loop's closing `JMPSL`, from a `break` slot.
pub open spec fn break_offset(body_len: int, slot: int) -> int {
    body_len + 3 - (slot + 2)
}

/// The jump back to the loop condition, from a `continue` slot.
pub open spec fn continue_offset(cond_len: int, slot: int) -> int {
    -(cond_len + 3 + slot + 2)
}

pub open spec fn fits_i16(v: int) -> bool {
    -32768 <= v <= 32767
}

/// Patch every break slot, in order; the first offset out of range fails.
pub open spec fn patch_breaks(b: Seq<u8>, body_len: int, slots: Seq<int>) -> Result<Seq<u8>, ItrErrCode>
    decreases slots.len(),
{
    if slots.len() == 0 {
        Ok(b)
    } else if !fits_i16(break_offset(body_len, slots[0])) {
        Err(ItrErrCode::CompileError)
    } else {
        patch_breaks(write_i16(b, slots[0], break_offset(body_len, slots[0])), body_len, slots.drop_first())
    }
}

/// Patch every continue slot, in order; the first offset out of range fails.
pub open spec fn patch_continues(b: Seq<u8>, cond_len: int, slots: Seq<int>) -> Result<Seq<u8>, ItrErrCode>
    decreases slots.len(),
{
    if slots.len() == 0 {
        Ok(b)
    } else if !fits_i16(continue_offset(cond_len, slots[0])) {
        Err(ItrErrCode::CompileError)
    } else {
        patch_continues(write_i16(b, slots[0], continue_offset(cond_len, slots[0])), cond_len, slots.drop_first())
    }
}

/// The `while` layout: `cond | BRSLN +body_l | body | JMPSL -all_l`.
pub open spec fn spec_while_layout(cond: Seq<u8>, body: Seq<u8>) -> Seq<u8> {
    cond + seq![0xe6u8] + be_i16(body.len() + 3int) + body + seq![0xe2u8] + be_i16(-(body.len() + 3 + cond.len() + 3))
}

/// Length limits of a `while` once its body is patched: the body and the
/// whole loop must be spanned by signed 16-bit jumps.
pub open spec fn spec_while_frame(cond: Seq<u8>, body: Seq<u8>) -> Result<Seq<u8>, ItrErrCode> {
    if body.len() + 3 > 32700 || body.len() + 3 + cond.len() + 3 > 32700 {
        Err(ItrErrCode::CompileError)
    } else {
        Ok(spec_while_layout(cond, body))
    }
}

/// A loop body with its `break` and `continue` slots patched.
pub open spec fn spec_patch_loop(body: Seq<u8>, breaks: Seq<int>, continues: Seq<int>, cond_len: int) -> Result<Seq<u8>, ItrErrCode> {
    match patch_breaks(body, body.len() as int, breaks) {
        Err(e) => Err(e),
        Ok(b1) => patch_continues(b1, cond_len, continues),
    }
}

/// `IRWHILE` with operands `[cond, body]`.
pub open spec fn spec_compile_while(subs: Seq<IrTree>) -> Result<Seq<u8>, ItrErrCode>
    decreases subs, 0int,
{
    if subs.len() != 2 {
        Err(ItrErrCode::CompileError)
    } else {
        match spec_codegen(subs[0]) {
            Err(e) => Err(e),
            Ok(cond) => match spec_lower(subs[1]) {
                Err(e) => Err(e),
                Ok(low) => match spec_patch_loop(low.0 + spec_branch_pop(subs[1], false), low.1, low.2, cond.len() as int) {
                    Err(e) => Err(e),
                    Ok(body) => spec_while_frame(cond, body),
                },
            },
        }
    }
}

pub open spec fn prepend_bytes(pre: Seq<u8>, r: Result<Seq<u8>, ItrErrCode>) -> Result<Seq<u8>, ItrErrCode> {
    match r {
        Ok(b) => Ok(pre + b),
        Err(c) => Err(c),
    }
}

/// The slots of a patch list as integers.
pub open spec fn slots_of(v: Seq<usize>) -> Seq<int> {
    Seq::new(v.len(), |i: int| v[i] as int)
}

/// Every jump slot a lowering records holds a 16-bit immediate inside the
/// lowered bytes.
pub open spec fn slots_in(l: Lowered) -> bool {
    &&& forall|k: int| 0 <= k < l.1.len() ==> 1 <= #[trigger] l.1[k] && l.1[k] + 2 <= l.0.len()
    &&& forall|k: int| 0 <= k < l.2.len() ==> 1 <= #[trigger] l.2[k] && l.2[k] + 2 <= l.0.len()
}

proof fn lemma_lowered_cat_slots(a: Lowered, b: Lowered)
    requires
        slots_in(a),
        slots_in(b),
    ensures
        slots_in(lowered_cat(a, b)),
{
    let c = lowered_cat(a, b);
    assert forall|k: int| 0 <= k < c.1.len() implies 1 <= #[trigger] c.1[k] && c.1[k] + 2 <= c.0.len() by {
        if k >= a.1.len() {
            assert(c.1[k] == b.1[k - a.1.len()] + a.0.len());
        }
    }
    assert forall|k: int| 0 <= k < c.2.len() implies 1 <= #[trigger] c.2[k] && c.2[k] + 2 <= c.0.len() by {
        if k >= a.2.len() {
            assert(c.2[k] == b.2[k - a.2.len()] + a.0.len());
        }
    }
}

/// Jump slots of a lowering always lie inside its bytes.
pub proof fn lemma_lower_slots(t: IrTree)
    ensures
        spec_lower(t) matches Ok(l) ==> slots_in(l),
    decreases t, 1int,
{
    match t {
        IrTree::Op(_, inst, _, subs) => {
            if inst == Bytecode::IRIF && subs.len() == 3 && inst != Bytecode::IRBREAK && inst != Bytecode::IRCONTINUE {
                lemma_lower_if_slots(subs);
            }
        },
        IrTree::Array(inst, subs) => {
            lemma_lower_items_slots(true, inst == Bytecode::IRBLOCKR, subs);
            lemma_lower_items_slots(false, false, subs);
        },
        IrTree::Bytecodes(_) => {},
    }
}

proof fn lemma_lower_items_slots(block: bool, expr: bool, ts: Seq<IrTree>)
    ensures
        spec_lower_items(block, expr, ts) matches Ok(l) ==> slots_in(l),
    decreases ts, 0int,
{
    if ts.len() > 0 {
        lemma_lower_slots(ts[0]);
        lemma_lower_items_slots(block, expr, ts.drop_first());
        match spec_lower(ts[0]) {
            Ok(a) => {
                let pop: Seq<u8> = if block && tree_has_ret(ts[0]) && !(expr && ts.len() == 1) { seq![0x42u8] } else { Seq::empty() };
                match spec_lower_items(block, expr, ts.drop_first()) {
                    Ok(b) => {
                        lemma_lowered_cat_slots((a.0 + pop, a.1, a.2), b);
                    },
                    Err(_) => {},
                }
            },
            Err(_) => {},
        }
    }
}

proof fn lemma_lower_if_slots(subs: Seq<IrTree>)
    ensures
        spec_lower_if(subs) matches Ok(l) ==> slots_in(l),
    decreases subs, 0int,
{
    if subs.len() == 3 {
        lemma_lower_slots(subs[1]);
        lemma_lower_slots(subs[2]);
        match spec_lower_if(subs) {
            Ok(l) => {
                let cond = spec_codegen(subs[0]).unwrap();
                let y = spec_lower(subs[1]).unwrap();
                let z = spec_lower(subs[2]).unwrap();
                let then_br = y.0 + spec_branch_pop(subs[1], false);
                let else_br = z.0 + spec_branch_pop(subs[2], false);
                let else_start: int = cond.len() + 3int;
                let then_start: int = else_start + else_br.len() + 3;
                assert(l.0.len() == then_start + then_br.len());
                assert forall|k: int| 0 <= k < l.1.len() implies 1 <= #[trigger] l.1[k] && l.1[k] + 2 <= l.0.len() by {
                    if k < z.1.len() {
                        assert(l.1[k] == z.1[k] + else_start);
                    } else {
                        assert(l.1[k] == y.1[k - z.1.len()] + then_start);
                    }
                }
                assert forall|k: int| 0 <= k < l.2.len() implies 1 <= #[trigger] l.2[k] && l.2[k] + 2 <= l.0.len() by {
                    if k < z.2.len() {
                        assert(l.2[k] == z.2[k] + else_start);
                    } else {
                        assert(l.2[k] == y.2[k - z.2.len()] + then_start);
                    }
                }
            },
            Err(_) => {},
        }
    }
}

/// Is the node a statement block (`IRBLOCK`).
fn is_stmt_block(n: &IrNode) -> (r: bool)
    ensures
        r == spec_is_stmt_block(n@),
{
    match n {
        IrNode::Array { inst, .. } => *inst == Bytecode::IRBLOCK,
        _ => false,
    }
}

/// Two bytes of a signed 16-bit value, big endian.
fn i16_be_bytes(v: i64) -> (r: (u8, u8))
    requires
        -32768 <= v <= 32767,
    ensures
        seq![r.0, r.1] == be_i16(v as int),
{
    let u: i64 = if v < 0 { v + 65536 } else { v };
    ((u / 256) as u8, (u % 256) as u8)
}

fn push_i16(codes: &mut Vec<u8>, v: i64)
    requires
        -32768 <= v <= 32767,
    ensures
        final(codes)@ == old(codes)@ + be_i16(v as int),
{
    let (hi, lo) = i16_be_bytes(v);
    codes.push(hi);
    codes.push(lo);
    assert(codes@ =~= old(codes)@ + be_i16(v as int));
}

fn append_bytes(codes: &mut Vec<u8>, more: &Vec<u8>)
    ensures
        final(codes)@ == old(codes)@ + more@,
{
    let mut k: usize = 0;
    while k < more.len()
        invariant
            k <= more@.len(),
            codes@ == old(codes)@ + more@.subrange(0, k as int),
        decreases more@.len() - k,
    {
        codes.push(more[k]);
        k = k + 1;
        assert(codes@ =~= old(codes)@ + more@.subrange(0, k as int));
    }
    assert(more@.subrange(0, k as int) =~= more@);
}

/// Append the bytecode of a node.
fn codegen_into(node: &IrNode, codes: &mut Vec<u8>) -> (r: VmrtErr)
    ensures
        match spec_codegen(node@) {
            Ok(b) => r is Ok && final(codes)@ == old(codes)@ + b,
            Err(c) => r matches Err(x) && x.0 == c,
        },
    decreases node, 0int,
{
    match node {
        IrNode::Bytecodes(b) => {
            append_bytes(codes, b);
            Ok(())
        },
        IrNode::Array { inst, subs } => {
            assert(trees_of(subs@) =~= match node@ { IrTree::Array(_, ts) => ts, _ => Seq::empty() });
            if *inst == Bytecode::IRLIST {
                compile_list_into(subs, codes)
            } else if *inst == Bytecode::IRBLOCK || *inst == Bytecode::IRBLOCKR {
                compile_block_into(*inst, subs, codes)
            } else {
                Err(ItrErr::new(ItrErrCode::CompileError, "IRNodeArray: invalid opcode"))
            }
        },
        IrNode::Op { hrtv, inst, para, subs } => {
            assert(trees_of(subs@) =~= match node@ { IrTree::Op(_, _, _, ts) => ts, _ => Seq::empty() });
            if *inst == Bytecode::IRIF || *inst == Bytecode::IRIFR {
                let c = compile_triple(*inst, subs)?;
                append_bytes(codes, &c);
                Ok(())
            } else if *inst == Bytecode::IRWHILE {
                let c = compile_double(*inst, subs)?;
                append_bytes(codes, &c);
                Ok(())
            } else if *inst == Bytecode::IRBREAK || *inst == Bytecode::IRCONTINUE {
                Err(ItrErr::new(ItrErrCode::CompileError, "break or continue outside a while loop body"))
            } else {
                codegen_seq_into(subs, codes)?;
                let ghost mid = codes@;
                codes.push(inst.to_u8());
                append_bytes(codes, para);
                assert(codes@ =~= mid + seq![spec_byte(*inst)] + para@);
                Ok(())
            }
        },
    }
}

/// Append the bytecode of nodes one after another.
fn codegen_seq_into(list: &Vec<IrNode>, codes: &mut Vec<u8>) -> (r: VmrtErr)
    ensures
        match spec_codegen_seq(trees_of(list@)) {
            Ok(b) => r is Ok && final(codes)@ == old(codes)@ + b,
            Err(c) => r matches Err(x) && x.0 == c,
        },
    decreases list, 0int,
{
    let ghost ts = trees_of(list@);
    let mut i: usize = 0;
    assert(ts.subrange(0, ts.len() as int) =~= ts);
    while i < list.len()
        invariant
            i <= list@.len(),
            ts == trees_of(list@),
            prepend_bytes(old(codes)@, spec_codegen_seq(ts)) == prepend_bytes(codes@, spec_codegen_seq(ts.subrange(i as int, ts.len() as int))),
        decreases list@.len() - i,
    {
        let ghost rest = ts.subrange(i as int, ts.len() as int);
        assert(rest[0] == tree_of(list@[i as int]));
        assert(rest.drop_first() =~= ts.subrange(i + 1, ts.len() as int));
        let ghost before = codes@;
        proof {
            assert(decreases_to!(list => list@[i as int]));
        }
        codegen_into(&list[i], codes)?;
        proof {
            let a = spec_codegen(rest[0]).unwrap();
            match spec_codegen_seq(rest.drop_first()) {
                Ok(b) => {
                    assert(before + (a + b) =~= codes@ + b);
                },
                Err(_) => {},
            }
        }
        i = i + 1;
    }
    assert(ts.subrange(i as int, ts.len() as int) =~= Seq::<IrTree>::empty());
    assert(codes@ + Seq::<u8>::empty() =~= codes@);
    Ok(())
}

/// Append an `IRLIST`: its tail invariants, then its items.
fn compile_list_into(list: &Vec<IrNode>, codes: &mut Vec<u8>) -> (r: VmrtErr)
    ensures
        match spec_compile_list(trees_of(list@)) {
            Ok(b) => r is Ok && final(codes)@ == old(codes)@ + b,
            Err(c) => r matches Err(x) && x.0 == c,
        },
    decreases list, 1int,
{
    validate_irlist_stack_tail(list)?;
    codegen_seq_into(list, codes)
}

/// Bytecode of an `IRLIST`.
fn compile_list(list: &Vec<IrNode>) -> (r: VmrtRes<Vec<u8>>)
    ensures
        match spec_compile_list(trees_of(list@)) {
            Ok(b) => r matches Ok(v) && v@ == b,
            Err(c) => r matches Err(x) && x.0 == c,
        },
{
    let mut codes: Vec<u8> = Vec::new();
    compile_list_into(list, &mut codes)?;
    assert(Seq::<u8>::empty() + codes@ =~= codes@);
    Ok(codes)
}

/// Append a block; each item's value is popped except the last item of a
/// block expression.
fn compile_block_into(inst: Bytecode, list: &Vec<IrNode>, codes: &mut Vec<u8>) -> (r: VmrtErr)
    ensures
        match spec_compile_block(inst == Bytecode::IRBLOCKR, trees_of(list@)) {
            Ok(b) => r is Ok && final(codes)@ == old(codes)@ + b,
            Err(c) => r matches Err(x) && x.0 == c,
        },
    decreases list, 1int,
{
    let is_expr = inst == Bytecode::IRBLOCKR;
    let ghost ts = trees_of(list@);
    let n = list.len();
    if is_expr {
        if n == 0 {
            return Err(ItrErr::new(ItrErrCode::CompileError, "block expression cannot be empty"));
        }
        assert(ts.last() == tree_of(list@[n - 1]));
        if !list[n - 1].hasretval() {
            return Err(ItrErr::new(ItrErrCode::CompileError, "block expression must return a value"));
        }
    }
    let mut i: usize = 0;
    assert(ts.subrange(0, ts.len() as int) =~= ts);
    while i < n
        invariant
            n == list@.len(),
            i <= n,
            ts == trees_of(list@),
            is_expr == (inst == Bytecode::IRBLOCKR),
            spec_compile_block(is_expr, ts) == spec_block_items(is_expr, ts),
            prepend_bytes(old(codes)@, spec_block_items(is_expr, ts)) == prepend_bytes(codes@, spec_block_items(is_expr, ts.subrange(i as int, ts.len() as int))),
        decreases n - i,
    {
        let ghost rest = ts.subrange(i as int, ts.len() as int);
        assert(rest[0] == tree_of(list@[i as int]));
        assert(rest.drop_first() =~= ts.subrange(i + 1, ts.len() as int));
        let ghost before = codes@;
        proof {
            assert(decreases_to!(list => list@[i as int]));
        }
        let one = &list[i];
        assert(rest.len() > 0);
        codegen_into(one, codes)?;
        let ghost mid = codes@;
        if one.hasretval() && !(is_expr && i + 1 == n) {
            codes.push(0x42u8);
        }
        proof {
            let a = spec_codegen(rest[0]).unwrap();
            let pop: Seq<u8> = if tree_has_ret(rest[0]) && !(is_expr && rest.len() == 1) { seq![0x42u8] } else { Seq::empty() };
            assert(codes@ =~= mid + pop);
            match spec_block_items(is_expr, rest.drop_first()) {
                Ok(b) => {
                    assert(before + (a + pop + b) =~= codes@ + b);
                },
                Err(_) => {},
            }
        }
        i = i + 1;
    }
    assert(ts.subrange(i as int, ts.len() as int) =~= Seq::<IrTree>::empty());
    assert(codes@ + Seq::<u8>::empty() =~= codes@);
    Ok(())
}

/// Bytecode of a block.
fn compile_block(inst: Bytecode, list: &Vec<IrNode>) -> (r: VmrtRes<Vec<u8>>)
    ensures
        match spec_compile_block(inst == Bytecode::IRBLOCKR, trees_of(list@)) {
            Ok(b) => r matches Ok(v) && v@ == b,
            Err(c) => r matches Err(x) && x.0 == c,
        },
{
    let mut codes: Vec<u8> = Vec::new();
    compile_block_into(inst, list, &mut codes)?;
    assert(Seq::<u8>::empty() + codes@ =~= codes@);
    Ok(codes)
}


/// `IRIF` / `IRIFR` nodes.
fn compile_triple(inst: Bytecode, subs: &Vec<IrNode>) -> (r: VmrtRes<Vec<u8>>)
    requires
        inst == Bytecode::IRIF || inst == Bytecode::IRIFR,
    ensures
        bytes_result(r, spec_compile_if(inst == Bytecode::IRIFR, trees_of(subs@))),
    decreases subs, 3int,
{
    compile_if(inst, subs)
}

/// `IRWHILE` nodes.
fn compile_double(inst: Bytecode, subs: &Vec<IrNode>) -> (r: VmrtRes<Vec<u8>>)
    requires
        inst == Bytecode::IRWHILE,
    ensures
        bytes_result(r, spec_compile_while(trees_of(subs@))),
    decreases subs, 5int,
{
    compile_while(subs)
}

/// The executable result agrees with the modelled one: the same bytes, or an
/// error with the same code.
pub open spec fn bytes_result(r: VmrtRes<Vec<u8>>, s: Result<Seq<u8>, ItrErrCode>) -> bool {
    match s {
        Ok(b) => r matches Ok(v) && v@ == b,
        Err(c) => r matches Err(x) && x.0 == c,
    }
}

fn compile_err(tip: &str) -> (r: ItrErr)
    ensures
        r.0 == ItrErrCode::CompileError,
{
    ItrErr::new(ItrErrCode::CompileError, tip)
}

/// Lay out an `if` from its compiled parts, after the length checks.
fn if_frame(cond: &Vec<u8>, then_br: &Vec<u8>, else_br: &Vec<u8>) -> (r: VmrtRes<Vec<u8>>)
    ensures
        bytes_result(r, spec_if_frame(cond@, then_br@, else_br@)),
{
    let if_l = then_br.len();
    if if_l > BLOCK_CODES_MAX_LEN || else_br.len() > BLOCK_CODES_MAX_LEN - JMP_INST_LEN {
        return Err(compile_err("compiled IR code is too long"));
    }
    let budget: usize = 65535 - 2 * JMP_INST_LEN - else_br.len() - then_br.len();
    if cond.len() > budget {
        return Err(compile_err("compiled IR code is too long"));
    }
    let el_l = else_br.len() + JMP_INST_LEN;
    let mut codes: Vec<u8> = Vec::new();
    append_bytes(&mut codes, cond);
    codes.push(Bytecode::BRSL.to_u8());
    push_i16(&mut codes, el_l as i64);
    append_bytes(&mut codes, else_br);
    codes.push(Bytecode::JMPSL.to_u8());
    push_i16(&mut codes, if_l as i64);
    append_bytes(&mut codes, then_br);
    assert(codes@ =~= spec_if_layout(cond@, then_br@, else_br@));
    Ok(codes)
}

/// Compile one branch of an `if`, with the `POP` that a statement `if`
/// needs after a branch that leaves a value.
fn if_branch(node: &IrNode, expr: bool) -> (r: VmrtRes<Vec<u8>>)
    ensures
        bytes_result(r, match spec_codegen(node@) {
            Err(e) => Err(e),
            Ok(b) => if expr && !tree_has_ret(node@) { Err(ItrErrCode::CompileError) } else { Ok(b + spec_branch_pop(node@, expr)) },
        }),
    decreases node, 1int,
{
    let mut br: Vec<u8> = Vec::new();
    codegen_into(node, &mut br)?;
    if expr && !node.hasretval() {
        return Err(compile_err("if expression branch must return a value"));
    }
    if !expr && node.hasretval() && !is_stmt_block(node) {
        br.push(Bytecode::POP.to_u8());
    }
    assert(br@ =~= spec_codegen(node@).unwrap() + spec_branch_pop(node@, expr));
    Ok(br)
}

/// An `if` statement or expression: `cond | BRSL +else_l | else | JMPSL +then_l | then`.
fn compile_if(inst: Bytecode, subs: &Vec<IrNode>) -> (r: VmrtRes<Vec<u8>>)
    ensures
        bytes_result(r, spec_compile_if(inst == Bytecode::IRIFR, trees_of(subs@))),
    decreases subs, 2int,
{
    let ghost ts = trees_of(subs@);
    if subs.len() != 3 {
        return Err(compile_err("if node needs three operands"));
    }
    assert(ts[0] == tree_of(subs@[0]) && ts[1] == tree_of(subs@[1]) && ts[2] == tree_of(subs@[2]));
    proof {
        assert(decreases_to!(subs => subs@[0]));
        assert(decreases_to!(subs => subs@[1]));
        assert(decreases_to!(subs => subs@[2]));
    }
    let is_expr = inst == Bytecode::IRIFR;
    let mut cond: Vec<u8> = Vec::new();
    codegen_into(&subs[0], &mut cond)?;
    assert(cond@ =~= spec_codegen(ts[0]).unwrap());
    let if_br = if_branch(&subs[1], is_expr)?;
    let el_br = if_branch(&subs[2], is_expr)?;
    if_frame(&cond, &if_br, &el_br)
}

/// Jump slots of the `break` and `continue` jumps of one loop body that wait
/// for the body's final length.
struct LoopPatch {
    breaks: Vec<usize>,
    continues: Vec<usize>,
}

/// The state of a body under construction: its bytes and its two slot lists.
pub type LowerState = (Seq<u8>, Seq<int>, Seq<int>);

/// A lowering appended to a state.
pub open spec fn lowered_after(s: LowerState, l: Lowered) -> LowerState {
    (s.0 + l.0, s.1 + shift_slots(l.1, s.0.len() as int), s.2 + shift_slots(l.2, s.0.len() as int))
}

pub open spec fn state_after(s: LowerState, r: Result<Lowered, ItrErrCode>) -> Result<LowerState, ItrErrCode> {
    match r {
        Ok(l) => Ok(lowered_after(s, l)),
        Err(c) => Err(c),
    }
}

proof fn lemma_shift_cat(a: Seq<int>, b: Seq<int>, d: int)
    ensures
        shift_slots(a + b, d) =~= shift_slots(a, d) + shift_slots(b, d),
{
}

proof fn lemma_shift_shift(a: Seq<int>, d: int, e: int)
    ensures
        shift_slots(shift_slots(a, d), e) =~= shift_slots(a, d + e),
{
}

/// Appending `a` then `b` is appending their concatenation.
proof fn lemma_after_cat(s: LowerState, a: Lowered, b: Lowered)
    ensures
        lowered_after(s, lowered_cat(a, b)) == lowered_after(lowered_after(s, a), b),
{
    let n = s.0.len() as int;
    let m = a.0.len() as int;
    lemma_shift_cat(a.1, shift_slots(b.1, m), n);
    lemma_shift_cat(a.2, shift_slots(b.2, m), n);
    lemma_shift_shift(b.1, m, n);
    lemma_shift_shift(b.2, m, n);
    assert(shift_slots(b.1, m + n) =~= shift_slots(b.1, (s.0 + a.0).len() as int));
    assert(shift_slots(b.2, m + n) =~= shift_slots(b.2, (s.0 + a.0).len() as int));
    assert((s.0 + (a.0 + b.0)) =~= (s.0 + a.0) + b.0);
    assert(s.1 + (shift_slots(a.1, n) + shift_slots(b.1, m + n)) =~= (s.1 + shift_slots(a.1, n)) + shift_slots(b.1, m + n));
    assert(s.2 + (shift_slots(a.2, n) + shift_slots(b.2, m + n)) =~= (s.2 + shift_slots(a.2, n)) + shift_slots(b.2, m + n));
}

proof fn lemma_slots_push_shifted(done: Seq<usize>, src: Seq<usize>, x: usize, delta: usize)
    requires
        slots_of(done) =~= shift_slots(slots_of(src), delta as int),
        x + delta <= usize::MAX,
    ensures
        slots_of(done.push((x + delta) as usize)) =~= shift_slots(slots_of(src.push(x)), delta as int),
{
    let a = slots_of(done.push((x + delta) as usize));
    let b = shift_slots(slots_of(src.push(x)), delta as int);
    assert(slots_of(done).len() == shift_slots(slots_of(src), delta as int).len());
    assert(a.len() == b.len());
    assert forall|j: int| 0 <= j < a.len() implies a[j] == b[j] by {
        if j < done.len() {
            assert(slots_of(done)[j] == shift_slots(slots_of(src), delta as int)[j]);
            assert(a[j] == slots_of(done)[j]);
            assert(b[j] == shift_slots(slots_of(src), delta as int)[j]);
        }
    }
}

impl LoopPatch {
    spec fn state(&self, body: Seq<u8>) -> LowerState {
        (body, slots_of(self.breaks@), slots_of(self.continues@))
    }

    fn empty() -> (r: LoopPatch)
        ensures
            r.breaks@.len() == 0,
            r.continues@.len() == 0,
    {
        LoopPatch { breaks: Vec::new(), continues: Vec::new() }
    }

    /// Emit a `JMPSL 0 0` and record the slot of its immediate.
    fn emit_jump(&mut self, ctrl: Bytecode, body: &mut Vec<u8>)
        requires
            ctrl == Bytecode::IRBREAK || ctrl == Bytecode::IRCONTINUE,
        ensures
            final(self).state(final(body)@) == lowered_after(
                old(self).state(old(body)@),
                if ctrl == Bytecode::IRBREAK {
                    (seq![0xe2u8, 0u8, 0u8], seq![1int], Seq::<int>::empty())
                } else {
                    (seq![0xe2u8, 0u8, 0u8], Seq::<int>::empty(), seq![1int])
                },
            ),
    {
        body.push(Bytecode::JMPSL.to_u8());
        let slot = body.len();
        body.push(0);
        body.push(0);
        if ctrl == Bytecode::IRBREAK {
            self.breaks.push(slot);
        } else {
            self.continues.push(slot);
        }
        assert(body@ =~= old(body)@ + seq![0xe2u8, 0u8, 0u8]);
        assert(slots_of(self.breaks@) =~= slots_of(old(self).breaks@) + shift_slots(
            if ctrl == Bytecode::IRBREAK { seq![1int] } else { Seq::<int>::empty() },
            old(body)@.len() as int,
        ));
        assert(slots_of(self.continues@) =~= slots_of(old(self).continues@) + shift_slots(
            if ctrl == Bytecode::IRBREAK { Seq::<int>::empty() } else { seq![1int] },
            old(body)@.len() as int,
        ));
    }

    /// Move every slot by `delta`, for a buffer appended at that offset.
    fn shift(&mut self, delta: usize)
        requires
            forall|k: int| 0 <= k < old(self).breaks@.len() ==> old(self).breaks@[k] + delta <= usize::MAX,
            forall|k: int| 0 <= k < old(self).continues@.len() ==> old(self).continues@[k] + delta <= usize::MAX,
        ensures
            slots_of(final(self).breaks@) == shift_slots(slots_of(old(self).breaks@), delta as int),
            slots_of(final(self).continues@) == shift_slots(slots_of(old(self).continues@), delta as int),
    {
        let mut nb: Vec<usize> = Vec::new();
        let mut k: usize = 0;
        while k < self.breaks.len()
            invariant
                k <= self.breaks@.len(),
                self.breaks@ == old(self).breaks@,
                forall|j: int| 0 <= j < self.breaks@.len() ==> self.breaks@[j] + delta <= usize::MAX,
                slots_of(nb@) =~= shift_slots(slots_of(self.breaks@.subrange(0, k as int)), delta as int),
            decreases self.breaks@.len() - k,
        {
            let ghost pre = self.breaks@.subrange(0, k as int);
            let ghost nb0 = nb@;
            let v = self.breaks[k] + delta;
            nb.push(v);
            proof {
                lemma_slots_push_shifted(nb0, pre, self.breaks@[k as int], delta);
                assert(self.breaks@.subrange(0, k + 1) =~= pre.push(self.breaks@[k as int]));
            }
            k = k + 1;
        }
        let mut nc: Vec<usize> = Vec::new();
        let mut k: usize = 0;
        while k < self.continues.len()
            invariant
                k <= self.continues@.len(),
                self.continues@ == old(self).continues@,
                forall|j: int| 0 <= j < self.continues@.len() ==> self.continues@[j] + delta <= usize::MAX,
                slots_of(nc@) =~= shift_slots(slots_of(self.continues@.subrange(0, k as int)), delta as int),
            decreases self.continues@.len() - k,
        {
            let ghost pre = self.continues@.subrange(0, k as int);
            let ghost nc0 = nc@;
            let v = self.continues[k] + delta;
            nc.push(v);
            proof {
                lemma_slots_push_shifted(nc0, pre, self.continues@[k as int], delta);
                assert(self.continues@.subrange(0, k + 1) =~= pre.push(self.continues@[k as int]));
            }
            k = k + 1;
        }
        assert(self.breaks@.subrange(0, self.breaks@.len() as int) =~= self.breaks@);
        assert(self.continues@.subrange(0, self.continues@.len() as int) =~= self.continues@);
        self.breaks = nb;
        self.continues = nc;
    }

    /// Write the final displacement into every slot: a `break` jumps just past
    /// the closing `JMPSL`, a `continue` back to the start of the condition.
    fn resolve(&self, body: &mut Vec<u8>, cond_len: usize) -> (r: VmrtErr)
        requires
            forall|k: int| 0 <= k < self.breaks@.len() ==> self.breaks@[k] + 2 <= old(body)@.len(),
            forall|k: int| 0 <= k < self.continues@.len() ==> self.continues@[k] + 2 <= old(body)@.len(),
        ensures
            match patch_breaks(old(body)@, old(body)@.len() as int, slots_of(self.breaks@)) {
                Err(c) => r matches Err(x) && x.0 == c,
                Ok(b1) => match patch_continues(b1, cond_len as int, slots_of(self.continues@)) {
                    Ok(b) => r is Ok && final(body)@ == b,
                    Err(c) => r matches Err(x) && x.0 == c,
                },
            },
    {
        let body_len = body.len();
        let ghost all_b = slots_of(self.breaks@);
        let mut k: usize = 0;
        assert(all_b.subrange(0, all_b.len() as int) =~= all_b);
        while k < self.breaks.len()
            invariant
                k <= self.breaks@.len(),
                all_b == slots_of(self.breaks@),
                body@.len() == body_len,
                body_len == old(body)@.len(),
                forall|j: int| 0 <= j < self.breaks@.len() ==> self.breaks@[j] + 2 <= body_len,
                patch_breaks(old(body)@, body_len as int, all_b) == patch_breaks(body@, body_len as int, all_b.subrange(k as int, all_b.len() as int)),
            decreases self.breaks@.len() - k,
        {
            let slot = self.breaks[k];
            let ghost rest = all_b.subrange(k as int, all_b.len() as int);
            assert(rest[0] == slot as int);
            assert(rest.drop_first() =~= all_b.subrange(k + 1, all_b.len() as int));
            let offset: i128 = (body_len as i128 + JMP_INST_LEN as i128) - (slot as i128 + 2);
            assert(offset as int == break_offset(body_len as int, rest[0]));
            assert(rest.len() > 0);
            write_i16_offset(body, slot, offset)?;
            k = k + 1;
        }
        assert(all_b.subrange(k as int, all_b.len() as int) =~= Seq::<int>::empty());
        let ghost b1 = body@;
        let ghost all_c = slots_of(self.continues@);
        let mut k: usize = 0;
        assert(all_c.subrange(0, all_c.len() as int) =~= all_c);
        while k < self.continues.len()
            invariant
                k <= self.continues@.len(),
                all_c == slots_of(self.continues@),
                body@.len() == body_len,
                patch_breaks(old(body)@, old(body)@.len() as int, slots_of(self.breaks@)) == Ok::<Seq<u8>, ItrErrCode>(b1),
                forall|j: int| 0 <= j < self.continues@.len() ==> self.continues@[j] + 2 <= body_len,
                patch_continues(b1, cond_len as int, all_c) == patch_continues(body@, cond_len as int, all_c.subrange(k as int, all_c.len() as int)),
            decreases self.continues@.len() - k,
        {
            let slot = self.continues[k];
            let ghost rest = all_c.subrange(k as int, all_c.len() as int);
            assert(rest[0] == slot as int);
            assert(rest.drop_first() =~= all_c.subrange(k + 1, all_c.len() as int));
            let offset: i128 = -(cond_len as i128 + JMP_INST_LEN as i128 + slot as i128 + 2);
            assert(offset as int == continue_offset(cond_len as int, rest[0]));
            assert(rest.len() > 0);
            write_i16_offset(body, slot, offset)?;
            k = k + 1;
        }
        assert(all_c.subrange(k as int, all_c.len() as int) =~= Seq::<int>::empty());
        Ok(())
    }
}

/// Write a jump displacement into the two bytes at `slot`, if it fits a
/// signed 16-bit immediate.
fn write_i16_offset(buf: &mut Vec<u8>, slot: usize, offset: i128) -> (r: VmrtErr)
    requires
        slot + 2 <= old(buf)@.len(),
    ensures
        fits_i16(offset as int) ==> r is Ok && final(buf)@ == write_i16(old(buf)@, slot as int, offset as int),
        !fits_i16(offset as int) ==> (r matches Err(x) && x.0 == ItrErrCode::CompileError),
{
    let _n = buf.len();
    if offset < -32768 || offset > 32767 {
        return Err(compile_err("while loop jump out of i16 range"));
    }
    let (hi, lo) = i16_be_bytes(offset as i64);
    buf.set(slot, hi);
    buf.set(slot + 1, lo);
    Ok(())
}

/// Lower a node inside a loop body: `break` and `continue` become `JMPSL`
/// placeholders recorded in `patch`; a nested `while` opens its own scope.
fn lower_in_loop(node: &IrNode, body: &mut Vec<u8>, patch: &mut LoopPatch) -> (r: VmrtErr)
    ensures
        match state_after(old(patch).state(old(body)@), spec_lower(node@)) {
            Ok(s) => r is Ok && final(patch).state(final(body)@) == s,
            Err(c) => r matches Err(x) && x.0 == c,
        },
    decreases node, 2int,
{
    match node {
        IrNode::Op { inst, subs, .. } => {
            assert(trees_of(subs@) =~= match node@ { IrTree::Op(_, _, _, ts) => ts, _ => Seq::empty() });
            if *inst == Bytecode::IRBREAK || *inst == Bytecode::IRCONTINUE {
                patch.emit_jump(*inst, body);
                Ok(())
            } else if *inst == Bytecode::IRIF && subs.len() == 3 {
                lower_stmt_if_in_loop(subs, body, patch)
            } else {
                lower_plain(node, body, patch)
            }
        },
        IrNode::Array { inst, subs } => {
            assert(trees_of(subs@) =~= match node@ { IrTree::Array(_, ts) => ts, _ => Seq::empty() });
            lower_array_in_loop(*inst, subs, body, patch)
        },
        IrNode::Bytecodes(_) => lower_plain(node, body, patch),
    }
}

/// A node with no jump of the loop in it: its ordinary bytecode.
fn lower_plain(node: &IrNode, body: &mut Vec<u8>, patch: &mut LoopPatch) -> (r: VmrtErr)
    ensures
        match spec_codegen(node@) {
            Ok(b) => r is Ok && final(patch).state(final(body)@) == lowered_after(old(patch).state(old(body)@), (b, Seq::empty(), Seq::empty())),
            Err(c) => r matches Err(x) && x.0 == c,
        },
    decreases node, 1int,
{
    codegen_into(node, body)?;
    assert(shift_slots(Seq::<int>::empty(), old(body)@.len() as int) =~= Seq::<int>::empty());
    assert(slots_of(patch.breaks@) + Seq::<int>::empty() =~= slots_of(patch.breaks@));
    assert(slots_of(patch.continues@) + Seq::<int>::empty() =~= slots_of(patch.continues@));
    Ok(())
}

/// A list or block inside a loop body.
fn lower_array_in_loop(inst: Bytecode, subs: &Vec<IrNode>, body: &mut Vec<u8>, patch: &mut LoopPatch) -> (r: VmrtErr)
    ensures
        match state_after(old(patch).state(old(body)@), spec_lower(IrTree::Array(inst, trees_of(subs@)))) {
            Ok(s) => r is Ok && final(patch).state(final(body)@) == s,
            Err(c) => r matches Err(x) && x.0 == c,
        },
    decreases subs, 2int,
{
    let ghost ts = trees_of(subs@);
    if inst == Bytecode::IRLIST {
        validate_irlist_stack_tail(subs)?;
        lower_items_in_loop(false, false, subs, body, patch)
    } else if inst == Bytecode::IRBLOCK || inst == Bytecode::IRBLOCKR {
        let is_expr = inst == Bytecode::IRBLOCKR;
        let n = subs.len();
        if is_expr {
            if n == 0 {
                return Err(compile_err("block expression cannot be empty"));
            }
            assert(ts.last() == tree_of(subs@[n - 1]));
            if !subs[n - 1].hasretval() {
                return Err(compile_err("block expression must return a value"));
            }
        }
        lower_items_in_loop(true, is_expr, subs, body, patch)
    } else {
        Err(compile_err("IRNodeArray: invalid opcode"))
    }
}

/// Items of a list or block inside a loop body, each followed by a `POP` of its
/// value where the block discards it.
fn lower_items_in_loop(block: bool, expr: bool, list: &Vec<IrNode>, body: &mut Vec<u8>, patch: &mut LoopPatch) -> (r: VmrtErr)
    ensures
        match state_after(old(patch).state(old(body)@), spec_lower_items(block, expr, trees_of(list@))) {
            Ok(s) => r is Ok && final(patch).state(final(body)@) == s,
            Err(c) => r matches Err(x) && x.0 == c,
        },
    decreases list, 1int,
{
    let ghost ts = trees_of(list@);
    let ghost init = patch.state(body@);
    let n = list.len();
    let mut i: usize = 0;
    assert(ts.subrange(0, ts.len() as int) =~= ts);
    while i < n
        invariant
            n == list@.len(),
            i <= n,
            ts == trees_of(list@),
            state_after(init, spec_lower_items(block, expr, ts)) == state_after(patch.state(body@), spec_lower_items(block, expr, ts.subrange(i as int, ts.len() as int))),
        decreases n - i,
    {
        let ghost rest = ts.subrange(i as int, ts.len() as int);
        assert(rest[0] == tree_of(list@[i as int]));
        assert(rest.drop_first() =~= ts.subrange(i + 1, ts.len() as int));
        let ghost before = patch.state(body@);
        proof {
            assert(decreases_to!(list => list@[i as int]));
        }
        let one = &list[i];
        lower_in_loop(one, body, patch)?;
        let ghost mid = patch.state(body@);
        if block && one.hasretval() && !(expr && i + 1 == n) {
            body.push(Bytecode::POP.to_u8());
        }
        proof {
            let a = spec_lower(rest[0]).unwrap();
            let pop: Seq<u8> = if block && tree_has_ret(rest[0]) && !(expr && rest.len() == 1) { seq![0x42u8] } else { Seq::empty() };
            let ap: Lowered = (a.0 + pop, a.1, a.2);
            assert(body@ =~= mid.0 + pop);
            assert(patch.state(body@) == lowered_after(before, ap)) by {
                assert(before.0 + (a.0 + pop) =~= mid.0 + pop);
            }
            match spec_lower_items(block, expr, rest.drop_first()) {
                Ok(b) => {
                    lemma_after_cat(before, ap, b);
                },
                Err(_) => {},
            }
        }
        i = i + 1;
    }
    assert(ts.subrange(i as int, ts.len() as int) =~= Seq::<IrTree>::empty());
    proof {
        let s = patch.state(body@);
        assert(shift_slots(Seq::<int>::empty(), s.0.len() as int) =~= Seq::<int>::empty());
        assert(lowered_after(s, (Seq::empty(), Seq::empty(), Seq::empty())) =~= s);
    }
    Ok(())
}

/// Lower one branch of a statement `if` inside a loop body into a buffer of
/// its own, with its own slots, and pop its value if it leaves one.
fn lower_branch(node: &IrNode, br: &mut Vec<u8>, patch: &mut LoopPatch) -> (r: VmrtErr)
    requires
        old(br)@.len() == 0,
        old(patch).breaks@.len() == 0,
        old(patch).continues@.len() == 0,
    ensures
        match spec_lower(node@) {
            Ok(l) => r is Ok
                && final(br)@ == l.0 + spec_branch_pop(node@, false)
                && slots_of(final(patch).breaks@) == l.1
                && slots_of(final(patch).continues@) == l.2
                && slots_in(l),
            Err(c) => r matches Err(x) && x.0 == c,
        },
    decreases node, 3int,
{
    proof {
        lemma_lower_slots(node@);
    }
    lower_in_loop(node, br, patch)?;
    let ghost l = spec_lower(node@).unwrap();
    assert(br@ =~= l.0);
    assert(slots_of(patch.breaks@) =~= l.1);
    assert(slots_of(patch.continues@) =~= l.2);
    if node.hasretval() && !is_stmt_block(node) {
        br.push(Bytecode::POP.to_u8());
    }
    assert(br@ =~= l.0 + spec_branch_pop(node@, false));
    Ok(())
}

/// Every slot of a patch list holds a 16-bit immediate inside `len` bytes.
pub open spec fn slots_below(v: Seq<usize>, len: int) -> bool {
    forall|k: int| 0 <= k < v.len() ==> #[trigger] v[k] + 2 <= len
}

/// Splice the parts of a statement `if` into the body and move the branches'
/// slots into the loop's patch lists.
fn splice_stmt_if(
    body: &mut Vec<u8>,
    outer: &mut LoopPatch,
    cond: &Vec<u8>,
    then_br: &Vec<u8>,
    then_patch: &mut LoopPatch,
    else_br: &Vec<u8>,
    else_patch: &mut LoopPatch,
)
    requires
        then_br@.len() <= 32700,
        else_br@.len() + 3 <= 32700,
        slots_below(old(then_patch).breaks@, then_br@.len() as int),
        slots_below(old(then_patch).continues@, then_br@.len() as int),
        slots_below(old(else_patch).breaks@, else_br@.len() as int),
        slots_below(old(else_patch).continues@, else_br@.len() as int),
    ensures
        final(outer).state(final(body)@) == lowered_after(
            old(outer).state(old(body)@),
            spec_if_spliced(cond@, old(then_patch).state(then_br@), old(else_patch).state(else_br@)),
        ),
{
    let ghost start = body@;
    let ghost ob = slots_of(outer.breaks@);
    let ghost oc = slots_of(outer.continues@);
    let ghost y = then_patch.state(then_br@);
    let ghost z = else_patch.state(else_br@);
    let then_l = then_br.len();
    let else_l = else_br.len() + JMP_INST_LEN;
    append_bytes(body, cond);
    body.push(Bytecode::BRSL.to_u8());
    push_i16(body, else_l as i64);
    let else_start = body.len();
    append_bytes(body, else_br);
    body.push(Bytecode::JMPSL.to_u8());
    push_i16(body, then_l as i64);
    let then_start = body.len();
    append_bytes(body, then_br);
    let body_len = body.len();
    assert(body@ =~= start + spec_if_layout(cond@, then_br@, else_br@));
    assert(else_start == start.len() + cond@.len() + 3);
    assert(then_start == else_start + else_br@.len() + 3);
    assert(then_start + then_br@.len() == body_len);
    else_patch.shift(else_start);
    then_patch.shift(then_start);
    outer.breaks.append(&mut else_patch.breaks);
    outer.breaks.append(&mut then_patch.breaks);
    outer.continues.append(&mut else_patch.continues);
    outer.continues.append(&mut then_patch.continues);
    proof {
        let es: int = cond@.len() + 3int;
        let th: int = es + else_br@.len() + 3;
        let n = start.len() as int;
        lemma_shift_cat(shift_slots(z.1, es), shift_slots(y.1, th), n);
        lemma_shift_cat(shift_slots(z.2, es), shift_slots(y.2, th), n);
        lemma_shift_shift(z.1, es, n);
        lemma_shift_shift(y.1, th, n);
        lemma_shift_shift(z.2, es, n);
        lemma_shift_shift(y.2, th, n);
        assert(slots_of(outer.breaks@) =~= ob + shift_slots(shift_slots(z.1, es) + shift_slots(y.1, th), n));
        assert(slots_of(outer.continues@) =~= oc + shift_slots(shift_slots(z.2, es) + shift_slots(y.2, th), n));
    }
}

/// A statement `if` inside a loop body: each branch is lowered with its own
/// slots, which then move to their place in the body.
fn lower_stmt_if_in_loop(subs: &Vec<IrNode>, body: &mut Vec<u8>, outer: &mut LoopPatch) -> (r: VmrtErr)
    requires
        subs@.len() == 3,
    ensures
        match state_after(old(outer).state(old(body)@), spec_lower_if(trees_of(subs@))) {
            Ok(s) => r is Ok && final(outer).state(final(body)@) == s,
            Err(c) => r matches Err(x) && x.0 == c,
        },
    decreases subs, 4int,
{
    let ghost ts = trees_of(subs@);
    assert(ts[0] == tree_of(subs@[0]) && ts[1] == tree_of(subs@[1]) && ts[2] == tree_of(subs@[2]));
    proof {
        assert(decreases_to!(subs => subs@[0]));
        assert(decreases_to!(subs => subs@[1]));
        assert(decreases_to!(subs => subs@[2]));
    }
    let mut cond: Vec<u8> = Vec::new();
    codegen_into(&subs[0], &mut cond)?;
    assert(cond@ =~= spec_codegen(ts[0]).unwrap());
    let mut then_patch = LoopPatch::empty();
    let mut then_br: Vec<u8> = Vec::new();
    lower_branch(&subs[1], &mut then_br, &mut then_patch)?;
    let mut else_patch = LoopPatch::empty();
    let mut else_br: Vec<u8> = Vec::new();
    lower_branch(&subs[2], &mut else_br, &mut else_patch)?;
    if then_br.len() > BLOCK_CODES_MAX_LEN || else_br.len() > BLOCK_CODES_MAX_LEN - JMP_INST_LEN {
        return Err(compile_err("compiled IR code is too long"));
    }
    proof {
        let y = spec_lower(ts[1]).unwrap();
        let z = spec_lower(ts[2]).unwrap();
        assert forall|k: int| 0 <= k < then_patch.breaks@.len() implies #[trigger] then_patch.breaks@[k] + 2 <= then_br@.len() by {
            assert(slots_of(then_patch.breaks@)[k] == y.1[k]);
        }
        assert forall|k: int| 0 <= k < then_patch.continues@.len() implies #[trigger] then_patch.continues@[k] + 2 <= then_br@.len() by {
            assert(slots_of(then_patch.continues@)[k] == y.2[k]);
        }
        assert forall|k: int| 0 <= k < else_patch.breaks@.len() implies #[trigger] else_patch.breaks@[k] + 2 <= else_br@.len() by {
            assert(slots_of(else_patch.breaks@)[k] == z.1[k]);
        }
        assert forall|k: int| 0 <= k < else_patch.continues@.len() implies #[trigger] else_patch.continues@[k] + 2 <= else_br@.len() by {
            assert(slots_of(else_patch.continues@)[k] == z.2[k]);
        }
    }
    splice_stmt_if(body, outer, &cond, &then_br, &mut then_patch, &else_br, &mut else_patch);
    Ok(())
}

/// Lay out a `while` from its condition and patched body, after the length
/// checks.
fn while_frame(cond: &Vec<u8>, body: &Vec<u8>) -> (r: VmrtRes<Vec<u8>>)
    ensures
        bytes_result(r, spec_while_frame(cond@, body@)),
{
    if body.len() > BLOCK_CODES_MAX_LEN - 2 * JMP_INST_LEN || cond.len() > BLOCK_CODES_MAX_LEN - 2 * JMP_INST_LEN - body.len() {
        return Err(compile_err("compiled IR code is too long"));
    }
    let body_l = body.len() + JMP_INST_LEN;
    let alls_l = body_l + cond.len() + JMP_INST_LEN;
    let mut codes: Vec<u8> = Vec::new();
    append_bytes(&mut codes, cond);
    codes.push(Bytecode::BRSLN.to_u8());
    push_i16(&mut codes, body_l as i64);
    append_bytes(&mut codes, body);
    codes.push(Bytecode::JMPSL.to_u8());
    push_i16(&mut codes, -(alls_l as i64));
    assert(codes@ =~= spec_while_layout(cond@, body@));
    Ok(codes)
}

/// A `while` loop: `cond | BRSLN +body_l | body | JMPSL -all_l`, with every
/// `break` and `continue` of its body patched once the body's length is known.
fn compile_while(subs: &Vec<IrNode>) -> (r: VmrtRes<Vec<u8>>)
    ensures
        bytes_result(r, spec_compile_while(trees_of(subs@))),
    decreases subs, 4int,
{
    let ghost ts = trees_of(subs@);
    if subs.len() != 2 {
        return Err(compile_err("while node needs two operands"));
    }
    assert(ts[0] == tree_of(subs@[0]) && ts[1] == tree_of(subs@[1]));
    proof {
        assert(decreases_to!(subs => subs@[0]));
        assert(decreases_to!(subs => subs@[1]));
    }
    let mut cond: Vec<u8> = Vec::new();
    codegen_into(&subs[0], &mut cond)?;
    assert(cond@ =~= spec_codegen(ts[0]).unwrap());
    let mut patch = LoopPatch::empty();
    let mut body: Vec<u8> = Vec::new();
    lower_branch(&subs[1], &mut body, &mut patch)?;
    proof {
        let low = spec_lower(ts[1]).unwrap();
        assert forall|k: int| 0 <= k < patch.breaks@.len() implies patch.breaks@[k] + 2 <= body@.len() by {
            assert(slots_of(patch.breaks@)[k] == low.1[k]);
        }
        assert forall|k: int| 0 <= k < patch.continues@.len() implies patch.continues@[k] + 2 <= body@.len() by {
            assert(slots_of(patch.continues@)[k] == low.2[k]);
        }
    }
    patch.resolve(&mut body, cond.len())?;
    while_frame(&cond, &body)
}

/// Serialized IR (a block body: nodes one after another) to runtime
/// bytecode: what parsing it as an `IRBLOCK` and compiling that gives.
pub open spec fn spec_convert_ir(bytes: Seq<u8>) -> Result<Seq<u8>, ItrErrCode> {
    if bytes.len() > 65535 {
        Err(ItrErrCode::CodeTooLong)
    } else {
        match spec_parse_top(bytes, 0) {
            Err(c) => Err(c),
            Ok((ts, _)) => spec_codegen(IrTree::Array(Bytecode::IRBLOCK, ts)),
        }
    }
}

impl IrNode {
    /// The runtime bytecode of this node.
    pub fn codegen(&self) -> (r: VmrtRes<Vec<u8>>)
        ensures
            bytes_result(r, spec_codegen(self@)),
    {
        let mut codes: Vec<u8> = Vec::new();
        codegen_into(self, &mut codes)?;
        assert(Seq::<u8>::empty() + codes@ =~= codes@);
        Ok(codes)
    }
}

/// Compile serialized IR (a block body) to runtime bytecode.
pub fn convert_ir_to_bytecode(bytes: &[u8]) -> (r: VmrtRes<Vec<u8>>)
    ensures
        bytes_result(r, spec_convert_ir(bytes@)),
{
    let mut seek: usize = 0;
    let block = parse_ir_block(bytes, &mut seek)?;
    block.codegen()
}


/// A signed 16-bit offset written big endian reads back as itself.
pub proof fn lemma_i16_roundtrip(v: int)
    requires
        -32768 <= v <= 32767,
    ensures
        be_i16(v).len() == 2,
        as_i16(be_i16(v)[0], be_i16(v)[1]) == v,
{
    let u = if v < 0 { v + 65536 } else { v };
    assert((u / 256) * 256 + u % 256 == u && 0 <= u / 256 < 256 && 0 <= u % 256 < 256) by (nonlinear_arith)
        requires
            0 <= u < 65536,
    ;
}

/// The jumps of a compiled `if` land where they are meant to: the branch
/// after the condition on the start of the `then` part, the jump after the
/// `else` part just past the end of the whole.
pub proof fn lemma_if_layout_jump_targets(cond: Seq<u8>, then_br: Seq<u8>, else_br: Seq<u8>)
    requires
        then_br.len() <= 32700,
        else_br.len() + 3 <= 32700,
    ensures
        ({
            let code = spec_if_layout(cond, then_br, else_br);
            let p = cond.len() as int;
            let q = p + 3 + else_br.len();
            &&& code.len() == q + 3 + then_br.len()
            &&& walk_step(code, p) == Ok::<(int, Option<int>), ItrErrCode>((p + 3, Some(q + 3)))
            &&& walk_step(code, q) == Ok::<(int, Option<int>), ItrErrCode>((q + 3, Some(code.len() as int)))
        }),
{
    let code = spec_if_layout(cond, then_br, else_br);
    let p = cond.len() as int;
    let q = p + 3 + else_br.len();
    let a = be_i16(else_br.len() + 3int);
    let b = be_i16(then_br.len() as int);
    lemma_i16_roundtrip(else_br.len() + 3int);
    lemma_i16_roundtrip(then_br.len() as int);
    assert(code == cond + seq![0xe5u8] + a + else_br + seq![0xe2u8] + b + then_br);
    assert(code[p] == 0xe5 && code[p + 1] == a[0] && code[p + 2] == a[1]);
    assert(code[q] == 0xe2 && code[q + 1] == b[0] && code[q + 2] == b[1]);
}

/// The jumps of a compiled `while` land where they are meant to: the exit
/// branch after the condition just past the end of the loop, the jump after
/// the body back on the condition.
pub proof fn lemma_while_layout_jump_targets(cond: Seq<u8>, body: Seq<u8>)
    requires
        body.len() + 3 + cond.len() + 3 <= 32700,
    ensures
        ({
            let code = spec_while_layout(cond, body);
            let p = cond.len() as int;
            let q = p + 3 + body.len();
            &&& code.len() == q + 3
            &&& walk_step(code, p) == Ok::<(int, Option<int>), ItrErrCode>((p + 3, Some(code.len() as int)))
            &&& walk_step(code, q) == Ok::<(int, Option<int>), ItrErrCode>((q + 3, Some(0)))
        }),
{
    let code = spec_while_layout(cond, body);
    let p = cond.len() as int;
    let q = p + 3 + body.len();
    let a = be_i16(body.len() + 3int);
    let b = be_i16(-(body.len() + 3 + cond.len() + 3));
    lemma_i16_roundtrip(body.len() + 3int);
    lemma_i16_roundtrip(-(body.len() + 3 + cond.len() + 3));
    assert(code == cond + seq![0xe6u8] + a + body + seq![0xe2u8] + b);
    assert(code[p] == 0xe6 && code[p + 1] == a[0] && code[p + 2] == a[1]);
    assert(code[q] == 0xe2 && code[q + 1] == b[0] && code[q + 2] == b[1]);
}

/// A patched `break` jumps just past the end of its loop, a patched
/// `continue` back on the loop's condition: for a `JMPSL` in the body whose
/// offset slot is `slot`, the jump the verifier reads lands there.
pub proof fn lemma_loop_patch_targets(cond: Seq<u8>, body: Seq<u8>, slot: int)
    requires
        1 <= slot,
        slot + 2 <= body.len(),
        body[slot - 1] == 0xe2,
        body.len() + 3 + cond.len() + 3 <= 32700,
    ensures
        ({
            let at = cond.len() + 3 + slot - 1;
            let brk = spec_while_layout(cond, write_i16(body, slot, break_offset(body.len() as int, slot)));
            let cnt = spec_while_layout(cond, write_i16(body, slot, continue_offset(cond.len() as int, slot)));
            &&& walk_step(brk, at) == Ok::<(int, Option<int>), ItrErrCode>((at + 3, Some(brk.len() as int)))
            &&& walk_step(cnt, at) == Ok::<(int, Option<int>), ItrErrCode>((at + 3, Some(0)))
        }),
{
    let at = cond.len() + 3 + slot - 1;
    let bo = break_offset(body.len() as int, slot);
    let co = continue_offset(cond.len() as int, slot);
    lemma_i16_roundtrip(bo);
    lemma_i16_roundtrip(co);
    lemma_i16_roundtrip(body.len() + 3int);
    lemma_i16_roundtrip(-(body.len() + 3 + cond.len() + 3));
    let bb = write_i16(body, slot, bo);
    let cb = write_i16(body, slot, co);
    let brk = spec_while_layout(cond, bb);
    let cnt = spec_while_layout(cond, cb);
    let a = be_i16(body.len() + 3int);
    let z = be_i16(-(body.len() + 3 + cond.len() + 3));
    assert(brk == cond + seq![0xe6u8] + a + bb + seq![0xe2u8] + z);
    assert(cnt == cond + seq![0xe6u8] + a + cb + seq![0xe2u8] + z);
    assert(brk[at] == bb[slot - 1] && brk[at + 1] == bb[slot] && brk[at + 2] == bb[slot + 1]);
    assert(cnt[at] == cb[slot - 1] && cnt[at + 1] == cb[slot] && cnt[at + 2] == cb[slot + 1]);
}

/// The code of items `ts` followed by `x` in a block: the items' code as a
/// statement block, then `x`'s code, then a `POP` only when the block is a
/// statement block and `x` leaves a value.
proof fn lemma_block_items_last(expr: bool, ts: Seq<IrTree>, x: IrTree)
    ensures
        spec_block_items(expr, ts.push(x)) == match spec_block_items(false, ts) {
            Err(e) => Err(e),
            Ok(a) => match spec_codegen(x) {
                Err(e) => Err(e),
                Ok(c) => Ok(a + c + if !expr && tree_has_ret(x) { seq![0x42u8] } else { Seq::<u8>::empty() }),
            },
        },
    decreases ts.len(),
{
    let all = ts.push(x);
    if ts.len() == 0 {
        assert(all.drop_first() =~= Seq::<IrTree>::empty());
        assert(all[0] == x);
        assert(spec_block_items(expr, Seq::<IrTree>::empty()) == Ok::<Seq<u8>, ItrErrCode>(Seq::empty()));
        assert(spec_block_items(false, ts) == Ok::<Seq<u8>, ItrErrCode>(Seq::empty()));
        match spec_codegen(x) {
            Ok(c) => {
                assert(c + (if !expr && tree_has_ret(x) { seq![0x42u8] } else { Seq::<u8>::empty() }) + Seq::<u8>::empty()
                    =~= Seq::<u8>::empty() + c + (if !expr && tree_has_ret(x) { seq![0x42u8] } else { Seq::<u8>::empty() }));
            },
            Err(_) => {},
        }
    } else {
        assert(all.drop_first() =~= ts.drop_first().push(x));
        assert(all[0] == ts[0]);
        lemma_block_items_last(expr, ts.drop_first(), x);
        let pop0: Seq<u8> = if tree_has_ret(ts[0]) { seq![0x42u8] } else { Seq::empty() };
        match spec_codegen(ts[0]) {
            Ok(a0) => match spec_block_items(false, ts.drop_first()) {
                Ok(b) => match spec_codegen(x) {
                    Ok(c) => {
                        let tail: Seq<u8> = if !expr && tree_has_ret(x) { seq![0x42u8] } else { Seq::empty() };
                        assert(a0 + pop0 + (b + c + tail) =~= a0 + pop0 + b + c + tail);
                    },
                    Err(_) => {},
                },
                Err(_) => {},
            },
            Err(_) => {},
        }
    }
}

/// A block expression (`IRBLOCKR`) leaves exactly its last item's value on
/// the stack: its code is the code of the items before the last, each value
/// popped as in a statement block, followed by the last item's code with no
/// `POP` after it. In particular the code of a block expression of one item
/// is the code of that item.
pub proof fn lemma_block_expr_keeps_last_value(ts: Seq<IrTree>, x: IrTree)
    requires
        tree_has_ret(x),
    ensures
        spec_codegen(IrTree::Array(Bytecode::IRBLOCKR, ts.push(x))) == match spec_codegen(IrTree::Array(Bytecode::IRBLOCK, ts)) {
            Err(e) => Err(e),
            Ok(a) => match spec_codegen(x) {
                Err(e) => Err(e),
                Ok(c) => Ok(a + c),
            },
        },
        spec_codegen(IrTree::Array(Bytecode::IRBLOCKR, seq![x])) == spec_codegen(x),
{
    lemma_block_items_last(true, ts, x);
    assert(ts.push(x).last() == x);
    match spec_codegen(x) {
        Ok(c) => {
            assert(spec_block_items(false, ts) matches Ok(a) ==> a + c + Seq::<u8>::empty() =~= a + c);
        },
        Err(_) => {},
    }
    lemma_block_items_last(true, Seq::<IrTree>::empty(), x);
    assert(Seq::<IrTree>::empty().push(x) =~= seq![x]);
    assert(spec_block_items(false, Seq::<IrTree>::empty()) == Ok::<Seq<u8>, ItrErrCode>(Seq::empty()));
    match spec_codegen(x) {
        Ok(c) => {
            assert(Seq::<u8>::empty() + c + Seq::<u8>::empty() =~= c);
        },
        Err(_) => {},
    }
}

/// A statement block (`IRBLOCK`) discards what its items leave: its code is
/// the code of the items before the last, then the last item's code followed
/// by a `POP` exactly when that item leaves a value.
pub proof fn lemma_stmt_block_pops_values(ts: Seq<IrTree>, x: IrTree)
    ensures
        spec_codegen(IrTree::Array(Bytecode::IRBLOCK, ts.push(x))) == match spec_codegen(IrTree::Array(Bytecode::IRBLOCK, ts)) {
            Err(e) => Err(e),
            Ok(a) => match spec_codegen(x) {
                Err(e) => Err(e),
                Ok(c) => Ok(a + c + if tree_has_ret(x) { seq![0x42u8] } else { Seq::<u8>::empty() }),
            },
        },
{
    lemma_block_items_last(false, ts, x);
}

/// Inside a loop body too, a block expression of one item lowers to exactly
/// what the item lowers to: no `POP` follows its value.
pub proof fn lemma_lowered_block_expr_keeps_value(x: IrTree)
    requires
        tree_has_ret(x),
    ensures
        spec_lower(IrTree::Array(Bytecode::IRBLOCKR, seq![x])) == spec_lower(x),
{
    let ts = seq![x];
    assert(ts.last() == x);
    assert(ts[0] == x);
    assert(ts.drop_first() =~= Seq::<IrTree>::empty());
    assert(spec_lower_items(true, true, Seq::<IrTree>::empty()) == Ok::<Lowered, ItrErrCode>((Seq::empty(), Seq::empty(), Seq::empty())));
    assert(spec_lower(IrTree::Array(Bytecode::IRBLOCKR, ts)) == spec_lower_items(true, true, ts));
    match spec_lower(x) {
        Ok(a) => {
            let e: Lowered = (Seq::empty(), Seq::empty(), Seq::empty());
            assert(lowered_cat((a.0 + Seq::<u8>::empty(), a.1, a.2), e) =~= a) by {
                assert(a.0 + Seq::<u8>::empty() + Seq::<u8>::empty() =~= a.0);
                assert(a.1 + shift_slots(Seq::<int>::empty(), a.0.len() as int) =~= a.1);
                assert(a.2 + shift_slots(Seq::<int>::empty(), a.0.len() as int) =~= a.2);
            }
        },
        Err(_) => {},
    }
}

} // verus!

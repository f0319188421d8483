//! Parser of serialized IR: a byte stream of opcodes, their immediates and,
//! in prefix order, their operand subtrees.

use vstd::prelude::*;
use crate::bytecode::{Bytecode, spec_byte, spec_from_byte, spec_meta, spec_valid};
use crate::error::{ItrErr, ItrErrCode, VmrtErr, VmrtRes};
use crate::ir::{IrNode, IrTree, tree_of, trees_of, tree_inst, tree_has_ret};
use crate::verify::{walk_step, be_u16};

verus! {

/// What a node slot may read from the operand stack.
#[derive(PartialEq, Eq, Structural, Debug, Clone, Copy)]
pub enum IrParseContext {
    /// An ordinary subtree.
    Tree,
    /// The last item of an `IRLIST`: a `PACK*` tail may stand here.
    StackList,
    /// A slot that re-reads the value already on the stack (`ROLL0`).
    StackValue,
}

/// How the children of a node are parsed.
#[derive(PartialEq, Eq, Structural, Debug, Clone, Copy)]
pub enum ChildMode {
    /// `IRLIST` items: no value required; the last item is a stack-list slot.
    List,
    /// `IRBLOCK` / `IRBLOCKR` items: only a block expression's last item must
    /// produce a value.
    Block(bool),
    /// `IRIF` / `IRIFR`: a condition, then two branches that must produce a
    /// value for the expression form.
    Branches(bool),
    /// `IRWHILE`: a condition, then a body one loop level deeper.
    Loop,
    /// Operands of an instruction: all must produce a value; the first one is
    /// parsed in the given context.
    Args(IrParseContext),
}

/// `(needs value, context, loop depth)` of child `idx` out of `total`.
pub open spec fn child_cfg(mode: ChildMode, idx: int, total: int, lp: int) -> (bool, IrParseContext, int) {
    match mode {
        ChildMode::List => (false, if idx + 1 == total { IrParseContext::StackList } else { IrParseContext::Tree }, lp),
        ChildMode::Block(expr) => (expr && idx + 1 == total, IrParseContext::Tree, lp),
        ChildMode::Branches(expr) => (if idx == 0 { true } else { expr }, IrParseContext::Tree, lp),
        ChildMode::Loop => (idx == 0, IrParseContext::Tree, if idx == 0 { lp } else { lp + 1 }),
        ChildMode::Args(first) => (true, if idx == 0 { first } else { IrParseContext::Tree }, lp),
    }
}

pub open spec fn is_container_byte(b: u8) -> bool {
    b == 0xf0 || b == 0xf1 || b == 0xf2 || b == 0xf3
}

pub open spec fn is_pack_tail_byte(b: u8) -> bool {
    b == 0x5a || b == 0x5b || b == 0x6a
}

/// Dynamic-input opcodes may stand alone only as `POP`, a container, or a
/// `PACK*` at a list tail.
pub open spec fn spec_dynamic_ok(b: u8, ctx: IrParseContext) -> bool {
    b == 0x42 || is_container_byte(b) || (ctx == IrParseContext::StackList && is_pack_tail_byte(b))
}

/// Opcodes that read an existing stack value: `DUP` and `ROLL0`; only `ROLL0`
/// is accepted, and only in a stack-value slot.
pub open spec fn spec_hidden_input(b: u8) -> bool {
    b == 0x40 || b == 0x44
}

pub open spec fn read_u8(s: Seq<u8>, at: int) -> Option<u8> {
    if 0 <= at < s.len() { Some(s[at]) } else { None }
}

pub open spec fn read_buf(s: Seq<u8>, at: int, n: int) -> Option<Seq<u8>> {
    if 0 <= at && 0 <= n && at + n <= s.len() { Some(s.subrange(at, at + n)) } else { None }
}

/// Raw bytecode accepted inside `IRBYTECODE`: a run of complete, valid
/// runtime instructions with no IR-only opcode and no absolute jump.
pub open spec fn raw_walk(codes: Seq<u8>, i: int) -> bool
    decreases codes.len() - i,
{
    if i == codes.len() {
        true
    } else if i < 0 || i > codes.len() {
        false
    } else {
        let b = codes[i];
        if (0xf0 <= b && b <= 0xf8) || b == 0xe0 || b == 0xe3 {
            false
        } else {
            match walk_step(codes, i) {
                Err(_) => false,
                Ok((n, _)) => if i < n <= codes.len() { raw_walk(codes, n) } else { false },
            }
        }
    }
}

/// The literal item count a node encodes: `P0`..`P3`, `PU8 n`, `PU16 n`.
pub open spec fn tree_const_usize(t: IrTree) -> Option<int> {
    match t {
        IrTree::Op(_, inst, para, subs) => {
            let b = spec_byte(inst);
            if subs.len() != 0 {
                None
            } else if 0x24 <= b <= 0x27 && para.len() == 0 {
                Some(b - 0x24)
            } else if b == 0x20 && para.len() == 1 {
                Some(para[0] as int)
            } else if b == 0x21 && para.len() == 2 {
                Some(be_u16(para[0], para[1]))
            } else {
                None
            }
        },
        _ => None,
    }
}

/// A list ending in `PACKLIST` / `PACKMAP` / `PACKTUPLE` must be preceded by a
/// literal count equal to the number of items before it, non-zero, and even
/// for `PACKMAP`.
pub open spec fn spec_stack_tail(ts: Seq<IrTree>) -> Result<(), ItrErrCode> {
    if ts.len() == 0 {
        Ok(())
    } else {
        let lb = spec_byte(tree_inst(ts.last()));
        if !spec_valid(lb) {
            Err(ItrErrCode::InstInvalid)
        } else if !is_pack_tail_byte(lb) {
            Ok(())
        } else if ts.len() < 2 {
            Err(ItrErrCode::InstInvalid)
        } else {
            match tree_const_usize(ts[ts.len() - 2]) {
                None => Err(ItrErrCode::InstInvalid),
                Some(c) => {
                    if c != ts.len() - 2 || c == 0 || (lb == 0x5b && c % 2 != 0) {
                        Err(ItrErrCode::InstInvalid)
                    } else {
                        Ok(())
                    }
                },
            }
        }
    }
}

/// Children `idx..total` parsed in order from `pos` at depth `depth`.
pub open spec fn spec_parse_children(
    stuff: Seq<u8>,
    pos: int,
    depth: int,
    mode: ChildMode,
    idx: int,
    total: int,
    lp: int,
) -> Result<(Seq<IrTree>, int), ItrErrCode>
    decreases 35 - depth, 1int, total - idx,
{
    if idx >= total {
        Ok((Seq::empty(), pos))
    } else if depth > 32 {
        Err(ItrErrCode::IRNodeOverDepth)
    } else {
        let cfg = child_cfg(mode, idx, total, lp);
        match spec_parse_node(stuff, pos, depth, cfg.0, cfg.1, cfg.2) {
            Err(e) => Err(e),
            Ok((t, p2)) => match spec_parse_children(stuff, p2, depth, mode, idx + 1, total, lp) {
                Err(e) => Err(e),
                Ok((ts, p3)) => Ok((seq![t] + ts, p3)),
            },
        }
    }
}

/// The node that starts with opcode byte `b`, its immediates and operands read
/// from `s` on: the node and the position after it.
pub open spec fn spec_node_body(
    stuff: Seq<u8>,
    s: int,
    b: u8,
    depth: int,
    lp: int,
) -> Result<(IrTree, int), ItrErrCode>
    decreases 34 - depth, 1int, 70000int,
{
    let m = spec_meta(b);
    let hrtv = m.3 == 1;
    let inst = spec_from_byte(b);
    if depth > 32 {
        Err(ItrErrCode::IRNodeOverDepth)
    } else if b == 0xf0 {
        match read_buf(stuff, s, 2) {
            None => Err(ItrErrCode::CodeOverflow),
            Some(h) => {
                let n = be_u16(h[0], h[1]);
                match read_buf(stuff, s + 2, n) {
                    None => Err(ItrErrCode::CodeOverflow),
                    Some(bytes) => if raw_walk(bytes, 0) {
                        Ok((IrTree::Bytecodes(bytes), s + 2 + n))
                    } else {
                        Err(ItrErrCode::InstInvalid)
                    },
                }
            },
        }
    } else if b == 0xf1 || b == 0xf2 || b == 0xf3 {
        match read_buf(stuff, s, 2) {
            None => Err(ItrErrCode::CodeOverflow),
            Some(h) => {
                let n = be_u16(h[0], h[1]);
                if b == 0xf3 && n == 0 {
                    Err(ItrErrCode::InstInvalid)
                } else {
                    let mode = if b == 0xf1 { ChildMode::List } else { ChildMode::Block(b == 0xf3) };
                    match spec_parse_children(stuff, s + 2, depth + 1, mode, 0, n, lp) {
                        Err(e) => Err(e),
                        Ok((ts, e)) => {
                            if b == 0xf1 && spec_stack_tail(ts) is Err {
                                Err(ItrErrCode::InstInvalid)
                            } else {
                                Ok((IrTree::Array(inst, ts), e))
                            }
                        },
                    }
                }
            },
        }
    } else if b == 0xf4 || b == 0xf5 || b == 0xf6 {
        let mode = if b == 0xf6 { ChildMode::Loop } else { ChildMode::Branches(b == 0xf5) };
        let n: int = if b == 0xf6 { 2 } else { 3 };
        match spec_parse_children(stuff, s, depth + 1, mode, 0, n, lp) {
            Err(e) => Err(e),
            Ok((ts, e)) => Ok((IrTree::Op(hrtv, inst, Seq::empty(), ts), e)),
        }
    } else if b == 0x22 || b == 0x23 {
        let w: int = if b == 0x22 { 1 } else { 2 };
        match read_buf(stuff, s, w) {
            None => Err(ItrErrCode::CodeOverflow),
            Some(h) => {
                let n = if b == 0x22 { h[0] as int } else { be_u16(h[0], h[1]) };
                match read_buf(stuff, s + w, n) {
                    None => Err(ItrErrCode::CodeOverflow),
                    Some(data) => Ok((IrTree::Op(hrtv, inst, h + data, Seq::empty()), s + w + n)),
                }
            },
        }
    } else {
        let param = m.1 as int;
        let input = m.2 as int;
        match read_buf(stuff, s, param) {
            None => Err(ItrErrCode::CodeOverflow),
            Some(para) => {
                if input == 0 || input == 255 {
                    Ok((IrTree::Op(hrtv, inst, para, Seq::empty()), s + param))
                } else {
                    let first = if b == 0x69 || b == 0x7c { IrParseContext::StackValue } else { IrParseContext::Tree };
                    match spec_parse_children(stuff, s + param, depth + 1, ChildMode::Args(first), 0, input, lp) {
                        Err(e) => Err(e),
                        Ok((ts, e)) => Ok((IrTree::Op(hrtv, inst, para, ts), e)),
                    }
                }
            },
        }
    }
}

/// Parse one node at `seek`: the node and the position after it.
pub open spec fn spec_parse_node(
    stuff: Seq<u8>,
    seek: int,
    depth: int,
    isrtv: bool,
    ctx: IrParseContext,
    lp: int,
) -> Result<(IrTree, int), ItrErrCode>
    decreases 34 - depth, 2int, 0int,
{
    if depth > 32 {
        Err(ItrErrCode::IRNodeOverDepth)
    } else if stuff.len() == 0 || seek < 0 || seek >= stuff.len() {
        Err(ItrErrCode::CodeOverflow)
    } else {
        let b = stuff[seek];
        let m = spec_meta(b);
        if !spec_valid(b) {
            Err(ItrErrCode::InstInvalid)
        } else if (b == 0xf7 || b == 0xf8) && lp == 0 {
            Err(ItrErrCode::InstInvalid)
        } else if m.3 > 1 {
            Err(ItrErrCode::InstInvalid)
        } else if m.2 == 255 && !spec_dynamic_ok(b, ctx) {
            Err(ItrErrCode::InstInvalid)
        } else if spec_hidden_input(b) && !(ctx == IrParseContext::StackValue && b == 0x44) {
            Err(ItrErrCode::InstInvalid)
        } else {
            match spec_node_body(stuff, seek + 1, b, depth, lp) {
                Err(e) => Err(e),
                Ok((t, e)) => if isrtv && !tree_has_ret(t) { Err(ItrErrCode::InstInvalid) } else { Ok((t, e)) },
            }
        }
    }
}

pub open spec fn prepend_ok(pre: Seq<IrTree>, r: Result<(Seq<IrTree>, int), ItrErrCode>) -> Result<(Seq<IrTree>, int), ItrErrCode> {
    match r {
        Ok((ts, e)) => Ok((pre + ts, e)),
        Err(c) => Err(c),
    }
}

/// A successful parse consumes at least one byte and stays inside the input.
pub proof fn lemma_parse_node_advances(stuff: Seq<u8>, seek: int, depth: int, isrtv: bool, ctx: IrParseContext, lp: int)
    ensures
        spec_parse_node(stuff, seek, depth, isrtv, ctx, lp) matches Ok((_, e)) ==> seek < e <= stuff.len(),
    decreases 34 - depth, 2int, 0int,
{
    if depth <= 32 && 0 <= seek < stuff.len() {
        lemma_node_body_advances(stuff, seek + 1, stuff[seek], depth, lp);
    }
}

pub proof fn lemma_node_body_advances(stuff: Seq<u8>, s: int, b: u8, depth: int, lp: int)
    requires
        0 <= s <= stuff.len(),
    ensures
        spec_node_body(stuff, s, b, depth, lp) matches Ok((_, e)) ==> s <= e <= stuff.len(),
    decreases 34 - depth, 1int, 70000int,
{
    let m = spec_meta(b);
    if depth <= 32 {
        if b == 0xf1 || b == 0xf2 || b == 0xf3 {
            if s + 2 <= stuff.len() {
                let n = be_u16(stuff[s], stuff[s + 1]);
                let mode = if b == 0xf1 { ChildMode::List } else { ChildMode::Block(b == 0xf3) };
                lemma_parse_children_advances(stuff, s + 2, depth + 1, mode, 0, n, lp);
            }
        } else if b == 0xf4 || b == 0xf5 || b == 0xf6 {
            let mode = if b == 0xf6 { ChildMode::Loop } else { ChildMode::Branches(b == 0xf5) };
            let n: int = if b == 0xf6 { 2 } else { 3 };
            lemma_parse_children_advances(stuff, s, depth + 1, mode, 0, n, lp);
        } else if !(b == 0xf0 || b == 0x22 || b == 0x23) {
            let param = m.1 as int;
            let input = m.2 as int;
            let first = if b == 0x69 || b == 0x7c { IrParseContext::StackValue } else { IrParseContext::Tree };
            if s + param <= stuff.len() {
                lemma_parse_children_advances(stuff, s + param, depth + 1, ChildMode::Args(first), 0, input, lp);
            }
        }
    }
}

/// Parsing children never moves backwards, stays inside the input, and yields
/// one tree per child.
pub proof fn lemma_parse_children_advances(
    stuff: Seq<u8>,
    pos: int,
    depth: int,
    mode: ChildMode,
    idx: int,
    total: int,
    lp: int,
)
    requires
        0 <= pos <= stuff.len(),
    ensures
        spec_parse_children(stuff, pos, depth, mode, idx, total, lp) matches Ok((ts, p)) ==> pos <= p <= stuff.len()
            && ts.len() == if idx >= total { 0 } else { total - idx },
    decreases 35 - depth, 1int, total - idx,
{
    if idx < total && depth <= 32 {
        let cfg = child_cfg(mode, idx, total, lp);
        lemma_parse_node_advances(stuff, pos, depth, cfg.0, cfg.1, cfg.2);
        match spec_parse_node(stuff, pos, depth, cfg.0, cfg.1, cfg.2) {
            Err(_) => {},
            Ok((t, p2)) => {
                lemma_parse_children_advances(stuff, p2, depth, mode, idx + 1, total, lp);
            },
        }
    }
}

/// Top-level sequence of nodes from `seek` to the end of the input.
pub open spec fn spec_parse_top(stuff: Seq<u8>, seek: int) -> Result<(Seq<IrTree>, int), ItrErrCode>
    decreases stuff.len() - seek,
{
    if stuff.len() == 0 || seek < 0 || seek >= stuff.len() {
        Ok((Seq::empty(), seek))
    } else {
        match spec_parse_node(stuff, seek, 0, false, IrParseContext::Tree, 0) {
            Err(e) => Err(e),
            Ok((t, e)) => {
                if seek < e <= stuff.len() {
                    match spec_parse_top(stuff, e) {
                        Err(x) => Err(x),
                        Ok((ts, p)) => Ok((seq![t] + ts, p)),
                    }
                } else {
                    Ok((seq![t], e))
                }
            },
        }
    }
}

fn child_cfg_exec(mode: ChildMode, idx: usize, total: usize, lp: usize) -> (r: (bool, IrParseContext, usize))
    requires
        lp < usize::MAX,
        idx < total,
    ensures
        (r.0, r.1, r.2 as int) == child_cfg(mode, idx as int, total as int, lp as int),
{
    match mode {
        ChildMode::List => (false, if idx + 1 == total { IrParseContext::StackList } else { IrParseContext::Tree }, lp),
        ChildMode::Block(expr) => (expr && idx + 1 == total, IrParseContext::Tree, lp),
        ChildMode::Branches(expr) => (if idx == 0 { true } else { expr }, IrParseContext::Tree, lp),
        ChildMode::Loop => (idx == 0, IrParseContext::Tree, if idx == 0 { lp } else { lp + 1 }),
        ChildMode::Args(first) => (true, if idx == 0 { first } else { IrParseContext::Tree }, lp),
    }
}

/// Take `n` bytes at `*seek` and move past them; `CodeOverflow` when the input
/// is too short.
fn take_buf(stuff: &[u8], seek: &mut usize, n: usize) -> (r: VmrtRes<Vec<u8>>)
    ensures
        match read_buf(stuff@, *old(seek) as int, n as int) {
            Some(b) => (r matches Ok(v) && v@ == b) && *final(seek) == *old(seek) + n,
            None => r matches Err(e) && e.0 == ItrErrCode::CodeOverflow,
        },
{
    let len = stuff.len();
    let at = *seek;
    if at > len || n > len - at {
        return Err(ItrErr::code(ItrErrCode::CodeOverflow));
    }
    let mut out: Vec<u8> = Vec::new();
    let mut k: usize = 0;
    while k < n
        invariant
            at + n <= len,
            len == stuff@.len(),
            k <= n,
            out@ == stuff@.subrange(at as int, at + k),
        decreases n - k,
    {
        out.push(stuff[at + k]);
        k = k + 1;
        assert(out@ =~= stuff@.subrange(at as int, at + k));
    }
    *seek = at + n;
    Ok(out)
}

/// The literal item count a node encodes, if any.
fn irnode_const_usize(node: &IrNode) -> (r: Option<usize>)
    ensures
        match tree_const_usize(node@) {
            Some(c) => r == Some(c as usize) && 0 <= c <= 65535,
            None => r is None,
        },
{
    match node {
        IrNode::Op { inst, para, subs, .. } => {
            let b = inst.to_u8();
            if subs.len() != 0 {
                None
            } else if 0x24 <= b && b <= 0x27 && para.len() == 0 {
                Some((b - 0x24) as usize)
            } else if b == 0x20 && para.len() == 1 {
                Some(para[0] as usize)
            } else if b == 0x21 && para.len() == 2 {
                Some((para[0] as usize) * 256 + para[1] as usize)
            } else {
                None
            }
        },
        _ => None,
    }
}

/// Check the `PACK*` tail invariants of a list (see [`spec_stack_tail`]).
pub fn validate_irlist_stack_tail(list: &Vec<IrNode>) -> (r: VmrtErr)
    ensures
        r is Ok <==> spec_stack_tail(trees_of(list@)) is Ok,
        r matches Err(e) ==> e.0 == ItrErrCode::InstInvalid,
{
    let n = list.len();
    if n == 0 {
        return Ok(());
    }
    let ghost ts = trees_of(list@);
    assert(ts.last() == tree_of(list@[n - 1]));
    let lb = list[n - 1].bytecode().to_u8();
    let inst = Bytecode::try_from_u8(lb)?;
    if !(lb == 0x5a || lb == 0x5b || lb == 0x6a) {
        return Ok(());
    }
    if n < 2 {
        return Err(ItrErr::new(ItrErrCode::InstInvalid, "pack requires a preceding item count"));
    }
    let elem_count = n - 2;
    assert(ts[n - 2] == tree_of(list@[n - 2]));
    let count = match irnode_const_usize(&list[elem_count]) {
        Some(c) => c,
        None => {
            return Err(ItrErr::new(ItrErrCode::InstInvalid, "pack item count must be a literal"));
        },
    };
    if count != elem_count {
        return Err(ItrErr::new(ItrErrCode::InstInvalid, "pack item count mismatch"));
    }
    if count == 0 {
        return Err(ItrErr::new(ItrErrCode::InstInvalid, "pack item count cannot be zero"));
    }
    if lb == 0x5b && count % 2 != 0 {
        return Err(ItrErr::new(ItrErrCode::InstInvalid, "PACKMAP item count must be even"));
    }
    Ok(())
}

/// Whether raw bytes are a run of complete runtime instructions with no
/// IR-only opcode and no absolute jump.
fn raw_bytecodes_ok(codes: &Vec<u8>) -> (r: bool)
    requires
        codes@.len() <= 65535,
    ensures
        r == raw_walk(codes@, 0),
{
    let len = codes.len();
    let mut i: usize = 0;
    while i < len
        invariant
            len == codes@.len(),
            len <= 65535,
            i <= len,
            raw_walk(codes@, 0) == raw_walk(codes@, i as int),
        decreases len - i,
    {
        let b = codes[i];
        if (0xf0 <= b && b <= 0xf8) || b == 0xe0 || b == 0xe3 {
            return false;
        }
        match crate::verify::walk_one(codes.as_slice(), i) {
            Err(_) => {
                return false;
            },
            Ok((n, _)) => {
                if !(i < n && n <= len) {
                    return false;
                }
                i = n;
            },
        }
    }
    true
}

/// `IRBYTECODE`, `IRLIST`, `IRBLOCK`, `IRBLOCKR`.
fn is_ir_container_opcode(inst: Bytecode) -> (r: bool)
    ensures
        r == is_container_byte(spec_byte(inst)),
{
    let b = inst.to_u8();
    b == 0xf0 || b == 0xf1 || b == 0xf2 || b == 0xf3
}

/// `PACKLIST`, `PACKMAP`, `PACKTUPLE`.
fn is_stack_list_tail_opcode(inst: Bytecode) -> (r: bool)
    ensures
        r == is_pack_tail_byte(spec_byte(inst)),
{
    let b = inst.to_u8();
    b == 0x5a || b == 0x5b || b == 0x6a
}

/// `DUP` and `ROLL0` read a value already on the stack.
fn is_hidden_stack_input_opcode(inst: Bytecode) -> (r: bool)
    ensures
        r == spec_hidden_input(spec_byte(inst)),
{
    let b = inst.to_u8();
    b == 0x40 || b == 0x44
}

/// Only `ROLL0`, and only in a stack-value slot.
fn is_stack_value_opcode_allowed(inst: Bytecode, context: IrParseContext) -> (r: bool)
    ensures
        r == (context == IrParseContext::StackValue && spec_byte(inst) == 0x44),
{
    context == IrParseContext::StackValue && inst.to_u8() == 0x44
}

/// Whether a dynamic-input opcode may stand as a node in this context.
fn is_dynamic_stack_opcode_allowed(inst: Bytecode, context: IrParseContext) -> (r: bool)
    ensures
        r == spec_dynamic_ok(spec_byte(inst), context),
{
    inst.to_u8() == 0x42 || is_ir_container_opcode(inst) || (context == IrParseContext::StackList
        && is_stack_list_tail_opcode(inst))
}

/// Parse children `0..total` in order at depth `depth`.
fn parse_children(
    stuff: &[u8],
    seek: &mut usize,
    depth: usize,
    mode: ChildMode,
    total: usize,
    lp: usize,
) -> (r: VmrtRes<Vec<IrNode>>)
    requires
        lp + 1 <= depth <= 34,
    ensures
        match spec_parse_children(stuff@, *old(seek) as int, depth as int, mode, 0, total as int, lp as int) {
            Ok((ts, e)) => (r matches Ok(v) && trees_of(v@) == ts) && *final(seek) == e,
            Err(c) => r matches Err(x) && x.0 == c,
        },
    decreases 35 - depth, 1int, 0int,
{
    let ghost start = *seek as int;
    let mut subs: Vec<IrNode> = Vec::new();
    let mut idx: usize = 0;
    assert(trees_of(subs@) + Seq::<IrTree>::empty() =~= Seq::<IrTree>::empty());
    proof {
        match spec_parse_children(stuff@, start, depth as int, mode, 0, total as int, lp as int) {
            Ok((ts, e)) => {
                assert(trees_of(subs@) + ts =~= ts);
            },
            Err(_) => {},
        }
    }
    while idx < total
        invariant
            lp + 1 <= depth <= 34,
            idx <= total,
            start == *old(seek) as int,
            spec_parse_children(stuff@, start, depth as int, mode, 0, total as int, lp as int) == prepend_ok(
                trees_of(subs@),
                spec_parse_children(stuff@, *seek as int, depth as int, mode, idx as int, total as int, lp as int),
            ),
        decreases total - idx,
    {
        if depth > 32 {
            return Err(ItrErr::code(ItrErrCode::IRNodeOverDepth));
        }
        let ghost pos = *seek as int;
        let (rtv, ctx, clp) = child_cfg_exec(mode, idx, total, lp);
        let res = parse_ir_node_must(stuff, seek, depth, rtv, ctx, clp);
        let node = match res {
            Ok(n) => n,
            Err(e) => {
                assert(spec_parse_children(stuff@, pos, depth as int, mode, idx as int, total as int, lp as int)
                    == Err::<(Seq<IrTree>, int), ItrErrCode>(e.0));
                assert(spec_parse_children(stuff@, start, depth as int, mode, 0, total as int, lp as int)
                    == Err::<(Seq<IrTree>, int), ItrErrCode>(e.0));
                return Err(e);
            },
        };
        let ghost t = node@;
        let ghost old_subs = subs@;
        subs.push(node);
        proof {
            assert(trees_of(subs@) =~= trees_of(old_subs).push(t));
            match spec_parse_children(stuff@, *seek as int, depth as int, mode, idx + 1, total as int, lp as int) {
                Ok((ts, e)) => {
                    assert(trees_of(old_subs) + (seq![t] + ts) =~= trees_of(subs@) + ts);
                },
                Err(_) => {},
            }
        }
        idx = idx + 1;
    }
    proof {
        assert(trees_of(subs@) + Seq::<IrTree>::empty() =~= trees_of(subs@));
    }
    Ok(subs)
}

/// Parse one node at `*seek` and move past it; the result is exactly
/// [`spec_parse_node`].
fn parse_ir_node_must(
    stuff: &[u8],
    seek: &mut usize,
    depth: usize,
    isrtv: bool,
    context: IrParseContext,
    loop_depth: usize,
) -> (r: VmrtRes<IrNode>)
    requires
        loop_depth <= depth <= 33,
    ensures
        match spec_parse_node(stuff@, *old(seek) as int, depth as int, isrtv, context, loop_depth as int) {
            Ok((t, e)) => (r matches Ok(n) && n@ == t) && *final(seek) == e,
            Err(c) => r matches Err(x) && x.0 == c,
        },
    decreases 34 - depth, 2int, 0int,
{
    if depth > 32 {
        return Err(ItrErr::code(ItrErrCode::IRNodeOverDepth));
    }
    let codesz = stuff.len();
    if codesz == 0 || *seek >= codesz {
        return Err(ItrErr::code(ItrErrCode::CodeOverflow));
    }
    let insbyte = stuff[*seek];
    let inst = Bytecode::try_from_u8(insbyte)?;
    if (insbyte == 0xf7 || insbyte == 0xf8) && loop_depth == 0 {
        return Err(ItrErr::new(ItrErrCode::InstInvalid, "break and continue are only valid inside a while loop body"));
    }
    *seek = *seek + 1;
    proof {
        crate::bytecode::lemma_byte_roundtrip(insbyte, inst);
    }
    let meta = inst.metadata();
    assert((meta.valid, meta.param, meta.input, meta.output) == spec_meta(insbyte));
    if meta.output > 1 {
        return Err(ItrErr::new(ItrErrCode::InstInvalid, "multi-output opcode is not representable as a node"));
    }
    if meta.input == 255 && !is_dynamic_stack_opcode_allowed(inst, context) {
        return Err(ItrErr::new(ItrErrCode::InstInvalid, "dynamic-input opcode is not representable as a node"));
    }
    if is_hidden_stack_input_opcode(inst) && !is_stack_value_opcode_allowed(inst, context) {
        return Err(ItrErr::new(ItrErrCode::InstInvalid, "opcode reads an existing stack value"));
    }
    let irnode = parse_node_body(stuff, seek, inst, depth, loop_depth)?;
    if isrtv && !irnode.hasretval() {
        return Err(ItrErr::new(ItrErrCode::InstInvalid, "irnode return value check failed"));
    }
    Ok(irnode)
}

/// The immediates and operands of a node whose opcode was just read.
fn parse_node_body(
    stuff: &[u8],
    seek: &mut usize,
    inst: Bytecode,
    depth: usize,
    loop_depth: usize,
) -> (r: VmrtRes<IrNode>)
    requires
        loop_depth <= depth <= 32,
        spec_valid(spec_byte(inst)),
    ensures
        match spec_node_body(stuff@, *old(seek) as int, spec_byte(inst), depth as int, loop_depth as int) {
            Ok((t, e)) => (r matches Ok(n) && n@ == t) && *final(seek) == e,
            Err(c) => r matches Err(x) && x.0 == c,
        },
    decreases 34 - depth, 1int, 2int,
{
    let b = inst.to_u8();
    proof {
        crate::bytecode::lemma_byte_roundtrip(b, inst);
    }
    if b == 0xf0 {
        parse_raw_body(stuff, seek, inst, depth, loop_depth)
    } else if b == 0xf1 || b == 0xf2 || b == 0xf3 {
        parse_array_body(stuff, seek, inst, depth, loop_depth)
    } else if b == 0xf4 || b == 0xf5 || b == 0xf6 {
        parse_ctrl_body(stuff, seek, inst, depth, loop_depth)
    } else if b == 0x22 || b == 0x23 {
        parse_pbuf_body(stuff, seek, inst, depth, loop_depth)
    } else {
        parse_op_body(stuff, seek, inst, depth, loop_depth)
    }
}

fn parse_raw_body(stuff: &[u8], seek: &mut usize, inst: Bytecode, depth: usize, loop_depth: usize) -> (r: VmrtRes<IrNode>)
    requires
        loop_depth <= depth <= 32,
        spec_byte(inst) == 0xf0,
    ensures
        match spec_node_body(stuff@, *old(seek) as int, spec_byte(inst), depth as int, loop_depth as int) {
            Ok((t, e)) => (r matches Ok(n) && n@ == t) && *final(seek) == e,
            Err(c) => r matches Err(x) && x.0 == c,
        },
{
    let h = take_buf(stuff, seek, 2)?;
    let n = (h[0] as usize) * 256 + h[1] as usize;
    let bytes = take_buf(stuff, seek, n)?;
    if !raw_bytecodes_ok(&bytes) {
        return Err(ItrErr::new(ItrErrCode::InstInvalid, "raw bytecode rejected"));
    }
    let node = IrNode::Bytecodes(bytes);
    assert(node@ == IrTree::Bytecodes(bytes@));
    Ok(node)
}

fn parse_array_body(stuff: &[u8], seek: &mut usize, inst: Bytecode, depth: usize, loop_depth: usize) -> (r: VmrtRes<IrNode>)
    requires
        loop_depth <= depth <= 32,
        spec_byte(inst) == 0xf1 || spec_byte(inst) == 0xf2 || spec_byte(inst) == 0xf3,
    ensures
        match spec_node_body(stuff@, *old(seek) as int, spec_byte(inst), depth as int, loop_depth as int) {
            Ok((t, e)) => (r matches Ok(n) && n@ == t) && *final(seek) == e,
            Err(c) => r matches Err(x) && x.0 == c,
        },
    decreases 34 - depth, 1int, 1int,
{
    let b = inst.to_u8();
    proof {
        crate::bytecode::lemma_byte_roundtrip(b, inst);
    }
    let h = take_buf(stuff, seek, 2)?;
    let n = (h[0] as usize) * 256 + h[1] as usize;
    if b == 0xf3 && n == 0 {
        return Err(ItrErr::new(ItrErrCode::InstInvalid, "empty block expr"));
    }
    let mode = if b == 0xf1 { ChildMode::List } else { ChildMode::Block(b == 0xf3) };
    let subs = parse_children(stuff, seek, depth + 1, mode, n, loop_depth)?;
    if b == 0xf1 {
        validate_irlist_stack_tail(&subs)?;
    }
    let ghost ts = trees_of(subs@);
    let node = IrNode::Array { inst, subs };
    assert(node@ matches IrTree::Array(i, t2) && i == inst && t2 =~= ts);
    Ok(node)
}

fn parse_ctrl_body(stuff: &[u8], seek: &mut usize, inst: Bytecode, depth: usize, loop_depth: usize) -> (r: VmrtRes<IrNode>)
    requires
        loop_depth <= depth <= 32,
        spec_byte(inst) == 0xf4 || spec_byte(inst) == 0xf5 || spec_byte(inst) == 0xf6,
    ensures
        match spec_node_body(stuff@, *old(seek) as int, spec_byte(inst), depth as int, loop_depth as int) {
            Ok((t, e)) => (r matches Ok(n) && n@ == t) && *final(seek) == e,
            Err(c) => r matches Err(x) && x.0 == c,
        },
    decreases 34 - depth, 1int, 1int,
{
    let b = inst.to_u8();
    proof {
        crate::bytecode::lemma_byte_roundtrip(b, inst);
    }
    let meta = inst.metadata();
    let hrtv = meta.output == 1;
    let (mode, n) = if b == 0xf6 { (ChildMode::Loop, 2usize) } else { (ChildMode::Branches(b == 0xf5), 3usize) };
    let subs = parse_children(stuff, seek, depth + 1, mode, n, loop_depth)?;
    let ghost ts = trees_of(subs@);
    let node = IrNode::Op { hrtv, inst, para: Vec::new(), subs };
    assert(node@ matches IrTree::Op(h, i, p, t2) && h == hrtv && i == inst && p =~= Seq::<u8>::empty() && t2 =~= ts);
    Ok(node)
}

fn parse_pbuf_body(stuff: &[u8], seek: &mut usize, inst: Bytecode, depth: usize, loop_depth: usize) -> (r: VmrtRes<IrNode>)
    requires
        loop_depth <= depth <= 32,
        spec_byte(inst) == 0x22 || spec_byte(inst) == 0x23,
    ensures
        match spec_node_body(stuff@, *old(seek) as int, spec_byte(inst), depth as int, loop_depth as int) {
            Ok((t, e)) => (r matches Ok(n) && n@ == t) && *final(seek) == e,
            Err(c) => r matches Err(x) && x.0 == c,
        },
{
    let b = inst.to_u8();
    proof {
        crate::bytecode::lemma_byte_roundtrip(b, inst);
    }
    let meta = inst.metadata();
    let hrtv = meta.output == 1;
    let w: usize = if b == 0x22 { 1 } else { 2 };
    let mut h = take_buf(stuff, seek, w)?;
    let n: usize = if b == 0x22 { h[0] as usize } else { (h[0] as usize) * 256 + h[1] as usize };
    let mut data = take_buf(stuff, seek, n)?;
    let ghost hv = h@;
    let ghost dv = data@;
    h.append(&mut data);
    let node = IrNode::Op { hrtv, inst, para: h, subs: Vec::new() };
    assert(node@ matches IrTree::Op(hh, i, p, t2) && hh == hrtv && i == inst && p =~= hv + dv && t2 =~= Seq::<IrTree>::empty());
    Ok(node)
}

fn parse_op_body(stuff: &[u8], seek: &mut usize, inst: Bytecode, depth: usize, loop_depth: usize) -> (r: VmrtRes<IrNode>)
    requires
        loop_depth <= depth <= 32,
        spec_valid(spec_byte(inst)),
        !(spec_byte(inst) == 0xf0 || spec_byte(inst) == 0xf1 || spec_byte(inst) == 0xf2 || spec_byte(inst) == 0xf3
            || spec_byte(inst) == 0xf4 || spec_byte(inst) == 0xf5 || spec_byte(inst) == 0xf6
            || spec_byte(inst) == 0x22 || spec_byte(inst) == 0x23),
    ensures
        match spec_node_body(stuff@, *old(seek) as int, spec_byte(inst), depth as int, loop_depth as int) {
            Ok((t, e)) => (r matches Ok(n) && n@ == t) && *final(seek) == e,
            Err(c) => r matches Err(x) && x.0 == c,
        },
    decreases 34 - depth, 1int, 1int,
{
    let b = inst.to_u8();
    proof {
        crate::bytecode::lemma_byte_roundtrip(b, inst);
    }
    let meta = inst.metadata();
    let hrtv = meta.output == 1;
    let para = take_buf(stuff, seek, meta.param as usize)?;
    if meta.input == 0 || meta.input == 255 {
        let node = IrNode::Op { hrtv, inst, para, subs: Vec::new() };
        assert(node@ matches IrTree::Op(hh, i, p, t2) && hh == hrtv && i == inst && p == para@ && t2 =~= Seq::<IrTree>::empty());
        Ok(node)
    } else {
        let first = if b == 0x69 || b == 0x7c { IrParseContext::StackValue } else { IrParseContext::Tree };
        let subs = parse_children(stuff, seek, depth + 1, ChildMode::Args(first), meta.input as usize, loop_depth)?;
        let ghost ts = trees_of(subs@);
        let ghost pv = para@;
        let node = IrNode::Op { hrtv, inst, para, subs };
        assert(node@ matches IrTree::Op(hh, i, p, t2) && hh == hrtv && i == inst && p == pv && t2 =~= ts);
        Ok(node)
    }
}

/// Parse one node of a serialized IR stream at `*seek` (a public entry: depth
/// 0, no value required, outside any loop).
pub fn parse_ir_node_one(stuff: &[u8], seek: &mut usize) -> (r: VmrtRes<IrNode>)
    ensures
        match spec_parse_node(stuff@, *old(seek) as int, 0, false, IrParseContext::Tree, 0) {
            Ok((t, e)) => (r matches Ok(n) && n@ == t) && *final(seek) == e,
            Err(c) => r matches Err(x) && x.0 == c,
        },
{
    parse_ir_node_must(stuff, seek, 0, false, IrParseContext::Tree, 0)
}

/// The next top-level node, or `None` at the end of the input.
fn parse_ir_node(stuff: &[u8], seek: &mut usize) -> (r: VmrtRes<Option<IrNode>>)
    ensures
        (stuff@.len() == 0 || *old(seek) >= stuff@.len()) ==> (r matches Ok(None) && *final(seek) == *old(seek)),
        !(stuff@.len() == 0 || *old(seek) >= stuff@.len()) ==> match spec_parse_node(stuff@, *old(seek) as int, 0, false, IrParseContext::Tree, 0) {
            Ok((t, e)) => (r matches Ok(Some(n)) && n@ == t) && *final(seek) == e,
            Err(c) => r matches Err(x) && x.0 == c,
        },
{
    let codesz = stuff.len();
    if codesz == 0 || *seek >= codesz {
        return Ok(None);
    }
    let node = parse_ir_node_must(stuff, seek, 0, false, IrParseContext::Tree, 0)?;
    Ok(Some(node))
}

/// Parse top-level nodes from `*seek` to the end of the input into one
/// container of the given kind.
fn parse_ir_seq(stuff: &[u8], seek: &mut usize, inst: Bytecode) -> (r: VmrtRes<IrNode>)
    ensures
        match spec_parse_top(stuff@, *old(seek) as int) {
            Ok((ts, e)) => (r matches Ok(n) && n@ == IrTree::Array(inst, ts)) && *final(seek) == e,
            Err(c) => r matches Err(x) && x.0 == c,
        },
{
    let ghost start = *seek as int;
    let mut subs: Vec<IrNode> = Vec::new();
    proof {
        match spec_parse_top(stuff@, start) {
            Ok((ts, e)) => {
                assert(trees_of(subs@) + ts =~= ts);
            },
            Err(_) => {},
        }
    }
    loop
        invariant
            start == *old(seek) as int,
            spec_parse_top(stuff@, start) == prepend_ok(trees_of(subs@), spec_parse_top(stuff@, *seek as int)),
        ensures
            start == *old(seek) as int,
            spec_parse_top(stuff@, start) == Ok::<(Seq<IrTree>, int), ItrErrCode>((trees_of(subs@), *seek as int)),
        decreases stuff@.len() - *seek,
    {
        let ghost pos = *seek as int;
        let res = parse_ir_node(stuff, seek);
        match res {
            Err(e) => {
                return Err(e);
            },
            Ok(None) => {
                assert(trees_of(subs@) + Seq::<IrTree>::empty() =~= trees_of(subs@));
                break;
            },
            Ok(Some(node)) => {
                proof {
                    lemma_parse_node_advances(stuff@, pos, 0, false, IrParseContext::Tree, 0);
                }
                let ghost t = node@;
                let ghost old_subs = subs@;
                subs.push(node);
                proof {
                    assert(trees_of(subs@) =~= trees_of(old_subs).push(t));
                    match spec_parse_top(stuff@, *seek as int) {
                        Ok((ts, e)) => {
                            assert(trees_of(old_subs) + (seq![t] + ts) =~= trees_of(subs@) + ts);
                        },
                        Err(_) => {},
                    }
                }
            },
        }
    }
    let ghost ts = trees_of(subs@);
    let node = IrNode::Array { inst, subs };
    assert(node@ matches IrTree::Array(i, t2) && i == inst && t2 =~= ts);
    Ok(node)
}

/// Parse a serialized IR list body: every node from `*seek` to the end, as an
/// `IRLIST`. Input longer than 65535 bytes fails with `CodeTooLong`.
pub fn parse_ir_list(stuff: &[u8], seek: &mut usize) -> (r: VmrtRes<IrNode>)
    ensures
        stuff@.len() > 65535 ==> (r matches Err(x) && x.0 == ItrErrCode::CodeTooLong) && *final(seek) == *old(seek),
        stuff@.len() <= 65535 ==> match spec_parse_top(stuff@, *old(seek) as int) {
            Ok((ts, e)) => (r matches Ok(n) && n@ == IrTree::Array(Bytecode::IRLIST, ts)) && *final(seek) == e,
            Err(c) => r matches Err(x) && x.0 == c,
        },
{
    if stuff.len() > 65535 {
        return Err(ItrErr::code(ItrErrCode::CodeTooLong));
    }
    parse_ir_seq(stuff, seek, Bytecode::IRLIST)
}

/// Parse a serialized IR block body: every node from `*seek` to the end, as an
/// `IRBLOCK`. Input longer than 65535 bytes fails with `CodeTooLong`.
pub fn parse_ir_block(stuff: &[u8], seek: &mut usize) -> (r: VmrtRes<IrNode>)
    ensures
        stuff@.len() > 65535 ==> (r matches Err(x) && x.0 == ItrErrCode::CodeTooLong) && *final(seek) == *old(seek),
        stuff@.len() <= 65535 ==> match spec_parse_top(stuff@, *old(seek) as int) {
            Ok((ts, e)) => (r matches Ok(n) && n@ == IrTree::Array(Bytecode::IRBLOCK, ts)) && *final(seek) == e,
            Err(c) => r matches Err(x) && x.0 == c,
        },
{
    if stuff.len() > 65535 {
        return Err(ItrErr::code(ItrErrCode::CodeTooLong));
    }
    parse_ir_seq(stuff, seek, Bytecode::IRBLOCK)
}

} // verus!

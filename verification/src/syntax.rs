//! The front end of the contract language: a recursive-descent parser from
//! tokens to the IR tree, keeping the local-slot, `use` and `lib` bindings.
//!
//! Statements and expressions that would lower to instructions this
//! library's opcode catalog has no entry for are refused with a compile
//! error: method and library calls (`a.f(..)`, `L:f(..)`, `L::f(..)`),
//! `callcode`, `bytecode { .. }`, native and extension calls by name, and
//! `as bytes`.

use vstd::prelude::*;
use vstd::string::StrSliceExecFns;
use crate::addr::VERSION_CONTRACT;
use crate::bytecode::Bytecode;
use crate::error::{ItrErr, ItrErrCode, VmrtRes};
use crate::funcs::{build_ir_func, pick_ir_func, spec_build_ir_func};
use crate::ir::{IrNode, IrTree, tree_has_ret, trees_of};
use crate::lang::{KwTy, OpTy, spec_irfn_named, spec_op_bytecode, spec_op_level, spec_op_of};
use crate::text::str_eq;
use crate::tokenizer::{Token, TokenView, tokens_view};
use crate::xop::{LxOp, encode_local_operand_mark, spec_operand_mark};

verus! {

/// What the parser knows of an item beside its tree.
#[derive(Debug, Clone, Copy, PartialEq, Eq, Structural)]
pub enum ItemKind {
    /// An ordinary expression or statement.
    Plain,
    /// A parenthesised expression of two or more operands: its grouping is
    /// kept, so operator precedence does not reach into it.
    Group,
    /// A read of a named local slot, which an assignment may target.
    Local,
    /// A declaration (`let`, `use`, `lib`) that produces no code.
    Empty,
}

/// Parser state beside the tokens: the position, the named local slots, the
/// `use` bindings and the `lib` bindings (name, address, link index).
pub type SynModel = (int, Seq<(Seq<char>, u8)>, Seq<(Seq<char>, Seq<u8>)>, Seq<(Seq<char>, Seq<u8>, u8)>);

/// A parsed item: its tree and its kind.
pub type Item = (IrTree, ItemKind);

/// The state moved to position `i`.
pub open spec fn at(st: SynModel, i: int) -> SynModel {
    (i, st.1, st.2, st.3)
}

/// `s2` lies past `st` and within the tokens.
pub open spec fn advanced(tks: Seq<TokenView>, st: SynModel, s2: SynModel) -> bool {
    st.0 < s2.0 && s2.0 <= tks.len()
}

/// The slot bound to a local name.
pub open spec fn find_local(s: Seq<(Seq<char>, u8)>, k: Seq<char>) -> Option<u8>
    decreases s.len(),
{
    if s.len() == 0 {
        None
    } else if s.last().0 == k {
        Some(s.last().1)
    } else {
        find_local(s.drop_last(), k)
    }
}

/// A `use` binding of the name exists.
pub open spec fn has_use(s: Seq<(Seq<char>, Seq<u8>)>, k: Seq<char>) -> bool {
    exists|i: int| 0 <= i < s.len() && #[trigger] s[i].0 == k
}

/// A `lib` binding of the name exists.
pub open spec fn has_lib(s: Seq<(Seq<char>, Seq<u8>, u8)>, k: Seq<char>) -> bool {
    exists|i: int| 0 <= i < s.len() && #[trigger] s[i].0 == k
}

/// A contract address: 21 bytes of the contract version.
pub open spec fn is_contract_addr(a: Seq<u8>) -> bool {
    a.len() == 21 && a[0] == VERSION_CONTRACT
}

/// An instruction without immediates or operands.
pub open spec fn leaf_tree(h: bool, b: Bytecode) -> IrTree {
    IrTree::Op(h, b, Seq::empty(), Seq::empty())
}

/// The do-nothing statement.
pub open spec fn nop_tree() -> IrTree {
    leaf_tree(false, Bytecode::NOP)
}

/// What a declaration leaves in the tree: no code at all.
pub open spec fn empty_tree() -> IrTree {
    IrTree::Bytecodes(Seq::empty())
}

/// Big-endian bytes of `n` without leading zero bytes.
pub open spec fn be_trim(n: nat) -> Seq<u8>
    decreases n,
{
    if n < 256 {
        seq![n as u8]
    } else {
        be_trim(n / 256).push((n % 256) as u8)
    }
}

/// A wide literal: its trimmed bytes pushed as a buffer (length less one in
/// front), then cast to the integer type.
pub open spec fn uint_tree(n: nat, cast: Bytecode) -> IrTree {
    let buf = be_trim(n);
    IrTree::Op(true, cast, Seq::empty(), seq![IrTree::Op(true, Bytecode::PBUF, seq![(buf.len() - 1) as u8] + buf, Seq::empty())])
}

/// An integer literal: `0` and `1` by their own instructions, then the
/// narrowest push that holds it.
pub open spec fn int_tree(n: u128) -> IrTree {
    if n == 0 {
        leaf_tree(true, Bytecode::P0)
    } else if n == 1 {
        leaf_tree(true, Bytecode::P1)
    } else if n < 256 {
        IrTree::Op(true, Bytecode::PU8, seq![n as u8], Seq::empty())
    } else if n < 65536 {
        IrTree::Op(true, Bytecode::PU16, seq![(n / 256) as u8, (n % 256) as u8], Seq::empty())
    } else if n < 0x1_0000_0000 {
        uint_tree(n as nat, Bytecode::CU32)
    } else if n < 0x1_0000_0000_0000_0000 {
        uint_tree(n as nat, Bytecode::CU64)
    } else {
        uint_tree(n as nat, Bytecode::CU128)
    }
}

/// A byte-string literal: empty, short (one length byte) or long (two),
/// at most 65535 bytes.
pub open spec fn bytes_tree(b: Seq<u8>) -> Result<IrTree, ItrErrCode> {
    if b.len() == 0 {
        Ok(leaf_tree(true, Bytecode::PNBUF))
    } else if b.len() > 65535 {
        Err(ItrErrCode::CompileError)
    } else if b.len() > 255 {
        Ok(IrTree::Op(true, Bytecode::PBUFL, seq![((b.len() - 1) / 256) as u8, ((b.len() - 1) % 256) as u8] + b, Seq::empty()))
    } else {
        Ok(IrTree::Op(true, Bytecode::PBUF, seq![(b.len() - 1) as u8] + b, Seq::empty()))
    }
}

/// The text with its leading `$`s removed.
pub open spec fn strip_dollars(s: Seq<char>) -> Seq<char>
    decreases s.len(),
{
    if s.len() > 0 && s[0] == '$' {
        strip_dollars(s.drop_first())
    } else {
        s
    }
}

/// A decimal digit.
pub open spec fn is_dec(c: char) -> bool {
    '0' <= c && c <= '9'
}

/// The value of decimal digits.
pub open spec fn dec_value(d: Seq<char>) -> int
    decreases d.len(),
{
    if d.len() == 0 {
        0
    } else {
        dec_value(d.drop_last()) * 10 + (d.last() as int - '0' as int)
    }
}

/// One or more decimal digits of value at most 255.
pub open spec fn dec_u8(d: Seq<char>) -> Option<u8> {
    if d.len() > 0 && (forall|i: int| 0 <= i < d.len() ==> is_dec(#[trigger] d[i])) && dec_value(d) <= 255 {
        Some(dec_value(d) as u8)
    } else {
        None
    }
}

/// Decimal text of a `u8`: an optional `+`, then its digits.
pub open spec fn parse_u8_text(s: Seq<char>) -> Option<u8> {
    dec_u8(if s.len() > 0 && s[0] == '+' { s.drop_first() } else { s })
}

/// The slot named by `$n` text.
pub open spec fn slot_of_text(num: Seq<char>) -> Option<u8> {
    if num.len() == 0 || num[0] != '$' {
        None
    } else {
        parse_u8_text(strip_dollars(num))
    }
}

/// The slot a local read holds.
pub open spec fn local_index(t: IrTree) -> Option<u8> {
    match t {
        IrTree::Op(_, inst, p, s) => if inst == Bytecode::GETX && p.len() == 1 && s.len() == 0 { Some(p[0]) } else { None },
        _ => None,
    }
}

/// The parts of a two-operand instruction without immediates.
pub open spec fn double_parts(t: IrTree) -> Option<(Bytecode, IrTree, IrTree)> {
    match t {
        IrTree::Op(_, inst, p, s) => if p.len() == 0 && s.len() == 2 { Some((inst, s[0], s[1])) } else { None },
        _ => None,
    }
}

/// How many operand subtrees a node has.
pub open spec fn sub_count(t: IrTree) -> nat {
    match t {
        IrTree::Bytecodes(_) => 0,
        IrTree::Array(_, s) => s.len(),
        IrTree::Op(_, _, _, s) => s.len(),
    }
}

/// The compound-assignment operator of an assignment keyword.
pub open spec fn asg_op(k: KwTy) -> LxOp {
    match k {
        KwTy::AsgAdd => LxOp::Add,
        KwTy::AsgSub => LxOp::Sub,
        KwTy::AsgMul => LxOp::Mul,
        _ => LxOp::Div,
    }
}

/// The arithmetic instruction of a compound-assignment keyword.
pub open spec fn asg_inst(k: KwTy) -> Bytecode {
    match k {
        KwTy::AsgAdd => Bytecode::ADD,
        KwTy::AsgSub => Bytecode::SUB,
        KwTy::AsgMul => Bytecode::MUL,
        _ => Bytecode::DIV,
    }
}

/// An assignment keyword.
pub open spec fn is_asg(k: KwTy) -> bool {
    k == KwTy::Assign || k == KwTy::AsgAdd || k == KwTy::AsgSub || k == KwTy::AsgMul || k == KwTy::AsgDiv
}

/// The statement an assignment to slot `i` compiles to: a plain store, a
/// local-operand mark for slots below 64, else load, compute and store.
pub open spec fn assign_tree(k: KwTy, i: u8, v: IrTree) -> IrTree {
    if k == KwTy::Assign {
        IrTree::Op(false, Bytecode::PUTX, seq![i], seq![v])
    } else if i < 64 {
        IrTree::Op(false, Bytecode::XOP, seq![spec_operand_mark(asg_op(k), i) as u8], seq![v])
    } else {
        IrTree::Op(false, Bytecode::PUTX, seq![i], seq![
            IrTree::Op(true, asg_inst(k), Seq::empty(), seq![IrTree::Op(true, Bytecode::GETX, seq![i], Seq::empty()), v]),
        ])
    }
}

/// The cast a type keyword after `as` names.
pub open spec fn cast_inst(k: KwTy) -> Option<Bytecode> {
    match k {
        KwTy::U8 => Some(Bytecode::CU8),
        KwTy::U16 => Some(Bytecode::CU16),
        KwTy::U32 => Some(Bytecode::CU32),
        KwTy::U64 => Some(Bytecode::CU64),
        KwTy::U128 => Some(Bytecode::CU128),
        _ => None,
    }
}

/// A binary operation of `op` on `l` and the right item: when the right
/// item is an ungrouped operation that binds looser than `op`, `op` takes
/// its left operand first (`a * b + c` is `(a * b) + c`).
pub open spec fn spec_swap(op: OpTy, l: IrTree, r: Item) -> Result<IrTree, ItrErrCode> {
    let inst = spec_op_bytecode(op);
    match double_parts(r.0) {
        Some((yi, ya, yb)) => if r.1 == ItemKind::Group {
            Ok(IrTree::Op(true, inst, Seq::empty(), seq![l, r.0]))
        } else {
            match spec_op_of(yi) {
                None => Err(ItrErrCode::CompileError),
                Some(yop) => if spec_op_level(op) > spec_op_level(yop) {
                    Ok(IrTree::Op(true, yi, Seq::empty(), seq![IrTree::Op(true, inst, Seq::empty(), seq![l, ya]), yb]))
                } else {
                    Ok(IrTree::Op(true, inst, Seq::empty(), seq![l, r.0]))
                },
            }
        },
        None => Ok(IrTree::Op(true, inst, Seq::empty(), seq![l, r.0])),
    }
}

/// The next item from the position: `None` at the end of the tokens, else
/// the item the head token starts, extended by what follows it.
pub open spec fn spec_item_may(tks: Seq<TokenView>, st: SynModel) -> Result<(Option<Item>, SynModel), ItrErrCode>
    decreases tks.len() - st.0, 3nat,
{
    if st.0 >= tks.len() - 1 {
        Ok((None, st))
    } else {
        match spec_item_head(tks, st) {
            Err(c) => Err(c),
            Ok((it, s2, fin)) => if fin {
                Ok((Some(it), s2))
            } else if !advanced(tks, st, s2) {
                Err(ItrErrCode::CompileError)
            } else {
                match spec_item_with_left(tks, s2, it) {
                    Ok((x, s3)) => Ok((Some(x), s3)),
                    Err(c) => Err(c),
                }
            },
        }
    }
}

/// The item the token at the position starts, the state after it, and
/// whether it is complete (an `if` statement takes no operator after it).
pub open spec fn spec_item_head(tks: Seq<TokenView>, st: SynModel) -> Result<(Item, SynModel, bool), ItrErrCode>
    decreases tks.len() - st.0, 2nat,
{
    let max = tks.len() - 1;
    if st.0 < 0 || st.0 >= max {
        Err(ItrErrCode::CompileError)
    } else {
        let s1 = at(st, st.0 + 1);
        match tks[st.0] {
            TokenView::Identifier(id) => match spec_identifier(tks, s1, id) {
                Ok((it, s2)) => Ok((it, s2, false)),
                Err(c) => Err(c),
            },
            TokenView::Integer(n) => Ok(((int_tree(n), ItemKind::Plain), s1, false)),
            TokenView::Bytes(b) => match bytes_tree(b) {
                Ok(t) => Ok(((t, ItemKind::Plain), s1, false)),
                Err(c) => Err(c),
            },
            TokenView::Partition(c) => if c != '(' {
                Err(ItrErrCode::CompileError)
            } else {
                match spec_item_must(tks, s1) {
                    Err(e) => Err(e),
                    Ok((it, s2)) => if !tree_has_ret(it.0) || s2.0 < 0 || s2.0 >= max {
                        Err(ItrErrCode::CompileError)
                    } else if tks[s2.0] != TokenView::Partition(')') {
                        Err(ItrErrCode::CompileError)
                    } else {
                        Ok(((it.0, if sub_count(it.0) >= 2 { ItemKind::Group } else { it.1 }), at(s2, s2.0 + 1), false))
                    },
                }
            },
            TokenView::Keyword(k) => spec_keyword_head(tks, st, k),
            TokenView::Operator(_) => Err(ItrErrCode::CompileError),
        }
    }
}

/// The item a keyword at the position starts.
pub open spec fn spec_keyword_head(tks: Seq<TokenView>, st: SynModel, k: KwTy) -> Result<(Item, SynModel, bool), ItrErrCode>
    decreases tks.len() - st.0, 1nat,
{
    let max = tks.len() - 1;
    let s1 = at(st, st.0 + 1);
    if st.0 < 0 || st.0 >= max {
        Err(ItrErrCode::CompileError)
    } else if k == KwTy::While {
        spec_while_head(tks, st)
    } else if k == KwTy::If {
        spec_if_head(tks, st)
    } else if k == KwTy::Let {
        spec_let_head(tks, st)
    } else if k == KwTy::Use {
        spec_use_head(tks, st)
    } else if k == KwTy::Lib {
        spec_lib_head(tks, st)
    } else if k == KwTy::Abort {
        Ok(((leaf_tree(false, Bytecode::ABT), ItemKind::Plain), s1, false))
    } else if k == KwTy::Finish {
        Ok(((leaf_tree(false, Bytecode::END), ItemKind::Plain), s1, false))
    } else if k == KwTy::Assert || k == KwTy::Throw || k == KwTy::Return {
        let inst = if k == KwTy::Assert { Bytecode::AST } else if k == KwTy::Throw { Bytecode::ERR } else { Bytecode::RET };
        match spec_item_must(tks, s1) {
            Err(e) => Err(e),
            Ok((v, s2)) => Ok(((IrTree::Op(false, inst, Seq::empty(), seq![v.0]), ItemKind::Plain), s2, false)),
        }
    } else {
        Err(ItrErrCode::CompileError)
    }
}

/// `while` condition, then its body list.
pub open spec fn spec_while_head(tks: Seq<TokenView>, st: SynModel) -> Result<(Item, SynModel, bool), ItrErrCode>
    decreases tks.len() - st.0, 0nat,
{
    let max = tks.len() - 1;
    let s1 = at(st, st.0 + 1);
    if st.0 < 0 || st.0 >= max {
        Err(ItrErrCode::CompileError)
    } else {
        match spec_item_must(tks, s1) {
            Err(e) => Err(e),
            Ok((c, s2)) => if !tree_has_ret(c.0) || !advanced(tks, st, s2) {
                Err(ItrErrCode::CompileError)
            } else {
                match spec_list(tks, s2) {
                    Err(e) => Err(e),
                    Ok((body, s3)) => Ok(((IrTree::Op(false, Bytecode::IRWHILE, Seq::empty(), seq![c.0, body]), ItemKind::Plain), s3, false)),
                }
            },
        }
    }
}

/// `if` condition and list, then an optional `else` list or `else if` statement.
pub open spec fn spec_if_head(tks: Seq<TokenView>, st: SynModel) -> Result<(Item, SynModel, bool), ItrErrCode>
    decreases tks.len() - st.0, 0nat,
{
    let max = tks.len() - 1;
    let s1 = at(st, st.0 + 1);
    if st.0 < 0 || st.0 >= max {
        Err(ItrErrCode::CompileError)
    } else {
        match spec_item_must(tks, s1) {
            Err(e) => Err(e),
            Ok((c, s2)) => if !tree_has_ret(c.0) || !advanced(tks, st, s2) {
                Err(ItrErrCode::CompileError)
            } else {
                match spec_list(tks, s2) {
                    Err(e) => Err(e),
                    Ok((y, s3)) => if !advanced(tks, st, s3) || s3.0 >= tks.len() {
                        Err(ItrErrCode::CompileError)
                    } else if tks[s3.0] != TokenView::Keyword(KwTy::Else) {
                        Ok(((IrTree::Op(false, Bytecode::IRIF, Seq::empty(), seq![c.0, y, nop_tree()]), ItemKind::Plain), s3, true))
                    } else if s3.0 + 1 >= tks.len() {
                        Err(ItrErrCode::CompileError)
                    } else if tks[s3.0 + 1] != TokenView::Keyword(KwTy::If) {
                        match spec_list(tks, at(s3, s3.0 + 1)) {
                            Err(e) => Err(e),
                            Ok((z, s4)) => Ok(((IrTree::Op(false, Bytecode::IRIF, Seq::empty(), seq![c.0, y, z]), ItemKind::Plain), s4, true)),
                        }
                    } else {
                        match spec_item_must(tks, at(s3, s3.0 + 1)) {
                            Err(e) => Err(e),
                            Ok((z, s4)) => Ok(((IrTree::Op(false, Bytecode::IRIF, Seq::empty(), seq![c.0, y, z.0]), ItemKind::Plain), s4, false)),
                        }
                    },
                }
            },
        }
    }
}

/// `let name = $n`: binds a name to slot `n`.
pub open spec fn spec_let_head(tks: Seq<TokenView>, st: SynModel) -> Result<(Item, SynModel, bool), ItrErrCode>
    decreases tks.len() - st.0, 0nat,
{
    let max = tks.len() - 1;
    let s1 = at(st, st.0 + 1);
    if st.0 < 0 || st.0 >= max {
        Err(ItrErrCode::CompileError)
    } else {
        if st.0 + 3 >= max {
            Err(ItrErrCode::CompileError)
        } else {
            match (tks[st.0 + 1], tks[st.0 + 2], tks[st.0 + 3]) {
                (TokenView::Identifier(id), TokenView::Keyword(KwTy::Assign), TokenView::Identifier(num)) => match slot_of_text(num) {
                    None => Err(ItrErrCode::CompileError),
                    Some(i) => if find_local(st.1, id) is Some {
                        Err(ItrErrCode::CompileError)
                    } else {
                        Ok(((empty_tree(), ItemKind::Empty), (st.0 + 4, st.1.push((id, i)), st.2, st.3), false))
                    },
                },
                _ => Err(ItrErrCode::CompileError),
            }
        }
    }
}

/// `use name = address`: binds a name to a contract address.
pub open spec fn spec_use_head(tks: Seq<TokenView>, st: SynModel) -> Result<(Item, SynModel, bool), ItrErrCode>
    decreases tks.len() - st.0, 0nat,
{
    let max = tks.len() - 1;
    let s1 = at(st, st.0 + 1);
    if st.0 < 0 || st.0 >= max {
        Err(ItrErrCode::CompileError)
    } else {
        if st.0 + 3 >= max {
            Err(ItrErrCode::CompileError)
        } else {
            match (tks[st.0 + 1], tks[st.0 + 2], tks[st.0 + 3]) {
                (TokenView::Identifier(id), TokenView::Keyword(KwTy::Assign), TokenView::Bytes(a)) => if has_use(st.2, id) || !is_contract_addr(a) {
                    Err(ItrErrCode::CompileError)
                } else {
                    Ok(((empty_tree(), ItemKind::Empty), (st.0 + 4, st.1, st.2.push((id, a)), st.3), false))
                },
                _ => Err(ItrErrCode::CompileError),
            }
        }
    }
}

/// `lib name = address(n)`: binds a name to a contract library at link index `n`.
pub open spec fn spec_lib_head(tks: Seq<TokenView>, st: SynModel) -> Result<(Item, SynModel, bool), ItrErrCode>
    decreases tks.len() - st.0, 0nat,
{
    let max = tks.len() - 1;
    let s1 = at(st, st.0 + 1);
    if st.0 < 0 || st.0 >= max {
        Err(ItrErrCode::CompileError)
    } else {
        if st.0 + 6 >= max {
            Err(ItrErrCode::CompileError)
        } else {
            match (tks[st.0 + 1], tks[st.0 + 2], tks[st.0 + 3], tks[st.0 + 4], tks[st.0 + 5], tks[st.0 + 6]) {
                (TokenView::Identifier(id), TokenView::Keyword(KwTy::Assign), TokenView::Bytes(a),
                 TokenView::Partition('('), TokenView::Integer(n), TokenView::Partition(')')) => if n > 255 || has_lib(st.3, id) || !is_contract_addr(a) {
                    Err(ItrErrCode::CompileError)
                } else {
                    Ok(((empty_tree(), ItemKind::Empty), (st.0 + 7, st.1, st.2, st.3.push((id, a, n as u8))), false))
                },
                _ => Err(ItrErrCode::CompileError),
            }
        }
    }
}

/// What follows an item: an assignment to it, an `as` cast of it, or a binary
/// operation with it on the left; anything else leaves it as it is.
pub open spec fn spec_item_with_left(tks: Seq<TokenView>, st: SynModel, left: Item) -> Result<(Item, SynModel), ItrErrCode>
    decreases tks.len() - st.0, 0nat,
{
    if st.0 < 0 || st.0 >= tks.len() {
        Ok((left, st))
    } else {
        let s1 = at(st, st.0 + 1);
        match tks[st.0] {
            TokenView::Keyword(k) => if is_asg(k) {
                match (left.1, local_index(left.0)) {
                    (ItemKind::Local, Some(i)) => match spec_item_must(tks, s1) {
                        Err(e) => Err(e),
                        Ok((v, s2)) => if !tree_has_ret(v.0) {
                            Err(ItrErrCode::CompileError)
                        } else {
                            Ok(((assign_tree(k, i, v.0), ItemKind::Plain), s2))
                        },
                    },
                    _ => Err(ItrErrCode::CompileError),
                }
            } else if k == KwTy::As {
                if st.0 + 1 >= tks.len() {
                    Err(ItrErrCode::CompileError)
                } else {
                    match tks[st.0 + 1] {
                        TokenView::Keyword(t) => match cast_inst(t) {
                            Some(ci) => Ok(((IrTree::Op(true, ci, Seq::empty(), seq![left.0]), ItemKind::Plain), at(st, st.0 + 2))),
                            None => Err(ItrErrCode::CompileError),
                        },
                        _ => Err(ItrErrCode::CompileError),
                    }
                }
            } else {
                Ok((left, st))
            },
            TokenView::Operator(op) => match spec_item_must(tks, s1) {
                Err(e) => Err(e),
                Ok((r, s2)) => if !tree_has_ret(left.0) || !tree_has_ret(r.0) {
                    Err(ItrErrCode::CompileError)
                } else {
                    match spec_swap(op, left.0, r) {
                        Ok(t) => Ok(((t, ItemKind::Plain), s2)),
                        Err(c) => Err(c),
                    }
                },
            },
            _ => Ok((left, st)),
        }
    }
}

/// The next item, which must exist.
pub open spec fn spec_item_must(tks: Seq<TokenView>, st: SynModel) -> Result<(Item, SynModel), ItrErrCode>
    decreases tks.len() - st.0, 4nat,
{
    match spec_item_may(tks, st) {
        Err(c) => Err(c),
        Ok((None, _)) => Err(ItrErrCode::CompileError),
        Ok((Some(x), s)) => Ok((x, s)),
    }
}

/// A bracketed list of items: `{` or `(`, items, then `}` or `)` (or the end
/// of the tokens).
pub open spec fn spec_block(tks: Seq<TokenView>, st: SynModel) -> Result<(Seq<IrTree>, SynModel), ItrErrCode>
    decreases tks.len() - st.0, 0nat,
{
    if st.0 < 0 || st.0 >= tks.len() - 1 {
        Err(ItrErrCode::CompileError)
    } else if tks[st.0] != TokenView::Partition('{') && tks[st.0] != TokenView::Partition('(') {
        Err(ItrErrCode::CompileError)
    } else {
        spec_block_from(tks, at(st, st.0 + 1), Seq::empty())
    }
}

/// The items of a list from the position on, after those in `acc`.
pub open spec fn spec_block_from(tks: Seq<TokenView>, st: SynModel, acc: Seq<IrTree>) -> Result<(Seq<IrTree>, SynModel), ItrErrCode>
    decreases tks.len() - st.0, 4nat,
{
    if st.0 < 0 || st.0 >= tks.len() - 1 {
        Ok((acc, st))
    } else if tks[st.0] == TokenView::Partition('}') || tks[st.0] == TokenView::Partition(')') {
        Ok((acc, at(st, st.0 + 1)))
    } else {
        match spec_item_may(tks, st) {
            Err(c) => Err(c),
            Ok((None, s)) => Ok((acc, s)),
            Ok((Some(x), s2)) => if !advanced(tks, st, s2) {
                Err(ItrErrCode::CompileError)
            } else {
                spec_block_from(tks, s2, acc.push(x.0))
            },
        }
    }
}

/// A list as one statement: nothing is a `NOP`, one item is itself, more are
/// a statement block.
pub open spec fn spec_list(tks: Seq<TokenView>, st: SynModel) -> Result<(IrTree, SynModel), ItrErrCode>
    decreases tks.len() - st.0, 1nat,
{
    match spec_block(tks, st) {
        Err(c) => Err(c),
        Ok((items, s)) => Ok((
            if items.len() == 0 { nop_tree() } else if items.len() == 1 { items[0] } else { IrTree::Array(Bytecode::IRBLOCK, items) },
            s,
        )),
    }
}

/// An immediate and operand count that an IR function node can take: none,
/// one to three operands, or one or two immediates with one operand.
pub open spec fn irfn_shape_ok(pms: usize, args: usize) -> bool {
    pms + args == 0 || (pms == 0 && 1 <= args <= 3) || (pms == 1 && args == 1) || (pms == 2 && args == 1)
}

/// A call of the built-in IR function `id` with its bracketed arguments;
/// functions of another shape (immediates and no operand) are refused.
pub open spec fn spec_func_call(tks: Seq<TokenView>, st: SynModel, id: Seq<char>) -> Result<(IrTree, SynModel), ItrErrCode>
    decreases tks.len() - st.0, 1nat,
{
    match spec_irfn_named(id) {
        None => Err(ItrErrCode::CompileError),
        Some((_, inst, pms, args, rs)) => match spec_block(tks, st) {
            Err(c) => Err(c),
            Ok((items, s)) => if pms + args != items.len() || !irfn_shape_ok(pms, args) {
                Err(ItrErrCode::CompileError)
            } else {
                match spec_build_ir_func(inst, pms, args, rs, items) {
                    Ok(t) => Ok((t, s)),
                    Err(c) => Err(c),
                }
            },
        },
    }
}

/// An identifier: a call when a `(` follows, else a read of a local slot.
pub open spec fn spec_identifier(tks: Seq<TokenView>, st: SynModel, id: Seq<char>) -> Result<(Item, SynModel), ItrErrCode>
    decreases tks.len() - st.0, 2nat,
{
    if 0 <= st.0 < tks.len() - 1 && tks[st.0] == TokenView::Partition('(') {
        match spec_func_call(tks, st, id) {
            Ok((t, s)) => Ok(((t, ItemKind::Plain), s)),
            Err(c) => Err(c),
        }
    } else if 0 <= st.0 < tks.len() - 1 && (tks[st.0] == TokenView::Keyword(KwTy::Dot)
        || tks[st.0] == TokenView::Keyword(KwTy::Colon) || tks[st.0] == TokenView::Keyword(KwTy::DColon)) {
        Err(ItrErrCode::CompileError)
    } else {
        match find_local(st.1, id) {
            None => Err(ItrErrCode::CompileError),
            Some(i) => Ok(((IrTree::Op(true, Bytecode::GETX, seq![i], Seq::empty()), ItemKind::Local), st)),
        }
    }
}

/// The items from the position to the end of the tokens, after those in
/// `acc`; declarations add nothing.
pub open spec fn spec_parse_items(tks: Seq<TokenView>, st: SynModel, acc: Seq<IrTree>) -> Result<(Seq<IrTree>, SynModel), ItrErrCode>
    decreases tks.len() - st.0,
{
    match spec_item_may(tks, st) {
        Err(c) => Err(c),
        Ok((None, s)) => Ok((acc, s)),
        Ok((Some(x), s2)) => if !advanced(tks, st, s2) {
            Err(ItrErrCode::CompileError)
        } else {
            spec_parse_items(tks, s2, if x.1 == ItemKind::Empty { acc } else { acc.push(x.0) })
        },
    }
}

/// The highest slot a local is bound to, or -1 when there is none.
pub open spec fn max_slot(s: Seq<(Seq<char>, u8)>) -> int
    decreases s.len(),
{
    if s.len() == 0 {
        -1
    } else if max_slot(s.drop_last()) >= s.last().1 {
        max_slot(s.drop_last())
    } else {
        s.last().1 as int
    }
}

/// The whole program as a statement block: a leading slot that allocates one
/// more local than the highest bound slot (or no code when no local is
/// bound), then the items in order. A local bound to slot 255 leaves no room
/// for the count and is refused.
pub open spec fn spec_parse(tks: Seq<TokenView>, st: SynModel) -> Result<IrTree, ItrErrCode> {
    match spec_parse_items(tks, st, seq![empty_tree()]) {
        Err(c) => Err(c),
        Ok((items, s)) => if s.1.len() == 0 {
            Ok(IrTree::Array(Bytecode::IRBLOCK, items))
        } else if max_slot(s.1) >= 255 {
            Err(ItrErrCode::CompileError)
        } else {
            Ok(IrTree::Array(Bytecode::IRBLOCK, items.update(0, IrTree::Op(false, Bytecode::ALLOC, seq![(max_slot(s.1) + 1) as u8], Seq::empty()))))
        },
    }
}

/// A parsed item matches its model.
pub open spec fn item_is(y: (IrNode, ItemKind), x: Item) -> bool {
    y.0@ == x.0 && y.1 == x.1
}

/// An optional parsed item matches its model.
pub open spec fn opt_item_is(y: Option<(IrNode, ItemKind)>, x: Option<Item>) -> bool {
    match (y, x) {
        (None, None) => true,
        (Some(a), Some(b)) => item_is(a, b),
        _ => false,
    }
}

/// The models of the local bindings.
pub open spec fn locals_view(v: Seq<(String, u8)>) -> Seq<(Seq<char>, u8)> {
    Seq::new(v.len(), |i: int| (v[i].0@, v[i].1))
}

/// The models of the `use` bindings.
pub open spec fn uses_view(v: Seq<(String, Vec<u8>)>) -> Seq<(Seq<char>, Seq<u8>)> {
    Seq::new(v.len(), |i: int| (v[i].0@, v[i].1@))
}

/// The models of the `lib` bindings.
pub open spec fn libs_view(v: Seq<(String, Vec<u8>, u8)>) -> Seq<(Seq<char>, Seq<u8>, u8)> {
    Seq::new(v.len(), |i: int| (v[i].0@, v[i].1@, v[i].2))
}

/// A copy of a token.
fn tok_dup(t: &Token) -> (r: Token)
    ensures
        r@ == t@,
{
    match t {
        Token::Keyword(k) => Token::Keyword(*k),
        Token::Operator(o) => Token::Operator(*o),
        Token::Partition(c) => Token::Partition(*c),
        Token::Identifier(s) => Token::Identifier(s.clone()),
        Token::Integer(n) => Token::Integer(*n),
        Token::Bytes(b) => Token::Bytes(b.clone()),
    }
}

fn compile_err(tip: &str) -> (r: ItrErr)
    ensures
        r.0 == ItrErrCode::CompileError,
{
    ItrErr::new(ItrErrCode::CompileError, tip)
}

fn op_node(hrtv: bool, inst: Bytecode, para: Vec<u8>, subs: Vec<IrNode>) -> (r: IrNode)
    ensures
        r@ == IrTree::Op(hrtv, inst, para@, trees_of(subs@)),
{
    let r = IrNode::Op { hrtv, inst, para, subs };
    assert(r@ matches IrTree::Op(h, i, p, s) && h == hrtv && i == inst && p == para@ && s =~= trees_of(subs@));
    r
}

fn op1(hrtv: bool, inst: Bytecode, para: Vec<u8>, a: IrNode) -> (r: IrNode)
    ensures
        r@ == IrTree::Op(hrtv, inst, para@, seq![a@]),
{
    let ghost t = a@;
    let mut subs: Vec<IrNode> = Vec::new();
    subs.push(a);
    assert(trees_of(subs@) =~= seq![t]);
    op_node(hrtv, inst, para, subs)
}

fn op2(hrtv: bool, inst: Bytecode, a: IrNode, b: IrNode) -> (r: IrNode)
    ensures
        r@ == IrTree::Op(hrtv, inst, Seq::empty(), seq![a@, b@]),
{
    let ghost ta = a@;
    let ghost tb = b@;
    let mut subs: Vec<IrNode> = Vec::new();
    subs.push(a);
    subs.push(b);
    assert(trees_of(subs@) =~= seq![ta, tb]);
    let none: Vec<u8> = Vec::new();
    assert(none@ =~= Seq::<u8>::empty());
    op_node(hrtv, inst, none, subs)
}

fn op3(hrtv: bool, inst: Bytecode, a: IrNode, b: IrNode, c: IrNode) -> (r: IrNode)
    ensures
        r@ == IrTree::Op(hrtv, inst, Seq::empty(), seq![a@, b@, c@]),
{
    let ghost ta = a@;
    let ghost tb = b@;
    let ghost tc = c@;
    let mut subs: Vec<IrNode> = Vec::new();
    subs.push(a);
    subs.push(b);
    subs.push(c);
    assert(trees_of(subs@) =~= seq![ta, tb, tc]);
    let none: Vec<u8> = Vec::new();
    assert(none@ =~= Seq::<u8>::empty());
    op_node(hrtv, inst, none, subs)
}

fn empty_node() -> (r: IrNode)
    ensures
        r@ == empty_tree(),
{
    let r = IrNode::Bytecodes(Vec::new());
    assert(r@ =~= empty_tree());
    r
}

fn be_trim_bytes(n: u128) -> (r: Vec<u8>)
    ensures
        r@ == be_trim(n as nat),
    decreases n,
{
    if n < 256 {
        let mut v: Vec<u8> = Vec::new();
        v.push(n as u8);
        assert(v@ =~= seq![n as u8]);
        v
    } else {
        let mut v = be_trim_bytes(n / 256);
        v.push((n % 256) as u8);
        v
    }
}

fn uint_node(n: u128, cast: Bytecode) -> (r: IrNode)
    ensures
        r@ == uint_tree(n as nat, cast),
{
    let buf = be_trim_bytes(n);
    proof {
        lemma_be_trim_len(n as nat);
    }
    let mut para: Vec<u8> = Vec::new();
    para.push((buf.len() - 1) as u8);
    let ghost b = buf@;
    let mut rest = buf;
    para.append(&mut rest);
    assert(para@ =~= seq![(b.len() - 1) as u8] + b);
    let nosub: Vec<IrNode> = Vec::new();
    assert(trees_of(nosub@) =~= Seq::<IrTree>::empty());
    let inner = op_node(true, Bytecode::PBUF, para, nosub);
    let none: Vec<u8> = Vec::new();
    assert(none@ =~= Seq::<u8>::empty());
    op1(true, cast, none, inner)
}

/// The trimmed bytes of a number are never empty.
proof fn lemma_be_trim_len(n: nat)
    ensures
        1 <= be_trim(n).len(),
    decreases n,
{
    if n >= 256 {
        lemma_be_trim_len(n / 256);
    }
}

fn leaf_node(hrtv: bool, inst: Bytecode) -> (r: IrNode)
    ensures
        r@ == leaf_tree(hrtv, inst),
{
    IrNode::leaf(hrtv, inst)
}

fn int_node(n: u128) -> (r: IrNode)
    ensures
        r@ == int_tree(n),
{
    if n == 0 {
        leaf_node(true, Bytecode::P0)
    } else if n == 1 {
        leaf_node(true, Bytecode::P1)
    } else if n < 256 {
        let mut p: Vec<u8> = Vec::new();
        p.push(n as u8);
        assert(p@ =~= seq![n as u8]);
        let nosub: Vec<IrNode> = Vec::new();
        assert(trees_of(nosub@) =~= Seq::<IrTree>::empty());
        op_node(true, Bytecode::PU8, p, nosub)
    } else if n < 65536 {
        let mut p: Vec<u8> = Vec::new();
        p.push((n / 256) as u8);
        p.push((n % 256) as u8);
        assert(p@ =~= seq![(n / 256) as u8, (n % 256) as u8]);
        let nosub: Vec<IrNode> = Vec::new();
        assert(trees_of(nosub@) =~= Seq::<IrTree>::empty());
        op_node(true, Bytecode::PU16, p, nosub)
    } else if n < 0x1_0000_0000 {
        uint_node(n, Bytecode::CU32)
    } else if n < 0x1_0000_0000_0000_0000 {
        uint_node(n, Bytecode::CU64)
    } else {
        uint_node(n, Bytecode::CU128)
    }
}

fn bytes_node(b: Vec<u8>) -> (r: VmrtRes<IrNode>)
    ensures
        match bytes_tree(b@) {
            Ok(t) => r matches Ok(n) && n@ == t,
            Err(c) => r matches Err(e) && e.0 == c,
        },
{
    let bl = b.len();
    if bl == 0 {
        return Ok(leaf_node(true, Bytecode::PNBUF));
    }
    if bl > 65535 {
        return Err(compile_err("bytes data too long"));
    }
    let ghost bv = b@;
    let mut para: Vec<u8> = Vec::new();
    let inst = if bl > 255 {
        para.push(((bl - 1) / 256) as u8);
        para.push(((bl - 1) % 256) as u8);
        Bytecode::PBUFL
    } else {
        para.push((bl - 1) as u8);
        Bytecode::PBUF
    };
    let ghost head = para@;
    let mut rest = b;
    para.append(&mut rest);
    assert(para@ =~= head + bv);
    if bl > 255 {
        assert(head =~= seq![((bl - 1) / 256) as u8, ((bl - 1) % 256) as u8]);
    } else {
        assert(head =~= seq![(bl - 1) as u8]);
    }
    let nosub: Vec<IrNode> = Vec::new();
    assert(trees_of(nosub@) =~= Seq::<IrTree>::empty());
    Ok(op_node(true, inst, para, nosub))
}

/// The leading `$`s of `s[k..]`, and what is left after them.
proof fn lemma_strip_dollars(s: Seq<char>, k: int)
    requires
        0 <= k <= s.len(),
        forall|i: int| 0 <= i < k ==> s[i] == '$',
        k == s.len() || s[k] != '$',
    ensures
        strip_dollars(s) == s.subrange(k, s.len() as int),
    decreases k,
{
    if k == 0 {
        assert(s.subrange(0, s.len() as int) =~= s);
    } else {
        let t = s.drop_first();
        assert forall|i: int| 0 <= i < k - 1 implies t[i] == '$' by {
            assert(t[i] == s[i + 1]);
        }
        if k < s.len() {
            assert(t[k - 1] == s[k]);
        }
        lemma_strip_dollars(t, k - 1);
        assert(t.subrange(k - 1, t.len() as int) =~= s.subrange(k, s.len() as int));
    }
}

/// A longer run of digits is worth at least as much as its prefix.
proof fn lemma_dec_prefix(d: Seq<char>, j: int)
    requires
        0 <= j <= d.len(),
        forall|i: int| 0 <= i < d.len() ==> is_dec(#[trigger] d[i]),
    ensures
        dec_value(d.take(j)) <= dec_value(d),
        0 <= dec_value(d),
    decreases d.len(),
{
    if d.len() == 0 {
        assert(d.take(j) =~= d);
    } else if j == d.len() {
        assert(d.take(j) =~= d);
        lemma_dec_prefix(d.drop_last(), 0);
    } else {
        let e = d.drop_last();
        assert forall|i: int| 0 <= i < e.len() implies is_dec(#[trigger] e[i]) by {
            assert(e[i] == d[i]);
        }
        lemma_dec_prefix(e, j);
        assert(e.take(j) =~= d.take(j));
        assert(is_dec(d.last()));
    }
}

/// The slot `$n` text names, if it names one.
fn slot_of_text_exec(num: &str) -> (r: Option<u8>)
    ensures
        r == slot_of_text(num@),
{
    let n = num.unicode_len();
    if n == 0 {
        return None;
    }
    if num.get_char(0) != '$' {
        return None;
    }
    let mut k: usize = 0;
    while k < n && num.get_char(k) == '$'
        invariant
            k <= n,
            n == num@.len(),
            forall|i: int| 0 <= i < k ==> num@[i] == '$',
        decreases n - k,
    {
        k = k + 1;
    }
    proof {
        lemma_strip_dollars(num@, k as int);
    }
    let ghost s = num@.subrange(k as int, n as int);
    let mut j: usize = k;
    if j < n && num.get_char(j) == '+' {
        j = j + 1;
    }
    let ghost d = num@.subrange(j as int, n as int);
    proof {
        if k < n && num@[k as int] == '+' {
            assert(d =~= s.drop_first());
        } else {
            assert(d =~= s);
        }
    }
    assert(slot_of_text(num@) == dec_u8(d));
    if j >= n {
        return None;
    }
    let mut acc: u32 = 0;
    let mut p: usize = j;
    while p < n
        invariant
            j <= p <= n,
            n == num@.len(),
            d == num@.subrange(j as int, n as int),
            forall|i: int| 0 <= i < p - j ==> is_dec(#[trigger] d[i]),
            acc == dec_value(d.take(p - j)),
            acc <= 255,
            d.len() > 0,
            slot_of_text(num@) == dec_u8(d),
        decreases n - p,
    {
        let c = num.get_char(p);
        if c < '0' || c > '9' {
            assert(!is_dec(d[p - j]));
            return None;
        }
        let v = (c as u32) - ('0' as u32);
        proof {
            assert(d.take(p - j + 1).drop_last() =~= d.take(p - j));
            assert(d.take(p - j + 1).last() == c);
        }
        acc = acc * 10 + v;
        p = p + 1;
        if acc > 255 {
            proof {
                if forall|q: int| 0 <= q < d.len() ==> is_dec(#[trigger] d[q]) {
                    lemma_dec_prefix(d, p - j);
                }
            }
            return None;
        }
    }
    assert(d.take(p - j) =~= d);
    Some(acc as u8)
}

fn node_sub_count(n: &IrNode) -> (r: usize)
    ensures
        r == sub_count(n@),
{
    match n {
        IrNode::Bytecodes(_) => 0,
        IrNode::Array { subs, .. } => subs.len(),
        IrNode::Op { subs, .. } => subs.len(),
    }
}

fn local_index_exec(n: &IrNode) -> (r: Option<u8>)
    ensures
        r == local_index(n@),
{
    match n {
        IrNode::Op { inst, para, subs, .. } => {
            if *inst == Bytecode::GETX && para.len() == 1 && subs.len() == 0 {
                Some(para[0])
            } else {
                None
            }
        },
        _ => None,
    }
}

fn is_asg_exec(k: KwTy) -> (r: bool)
    ensures
        r == is_asg(k),
{
    match k {
        KwTy::Assign | KwTy::AsgAdd | KwTy::AsgSub | KwTy::AsgMul | KwTy::AsgDiv => true,
        _ => false,
    }
}

fn cast_exec(k: KwTy) -> (r: Option<Bytecode>)
    ensures
        r == cast_inst(k),
{
    match k {
        KwTy::U8 => Some(Bytecode::CU8),
        KwTy::U16 => Some(Bytecode::CU16),
        KwTy::U32 => Some(Bytecode::CU32),
        KwTy::U64 => Some(Bytecode::CU64),
        KwTy::U128 => Some(Bytecode::CU128),
        _ => None,
    }
}

fn one_byte(b: u8) -> (r: Vec<u8>)
    ensures
        r@ == seq![b],
{
    let mut v: Vec<u8> = Vec::new();
    v.push(b);
    assert(v@ =~= seq![b]);
    v
}

fn no_subs() -> (r: Vec<IrNode>)
    ensures
        trees_of(r@) == Seq::<IrTree>::empty(),
{
    let v: Vec<IrNode> = Vec::new();
    assert(trees_of(v@) =~= Seq::<IrTree>::empty());
    v
}

fn no_bytes() -> (r: Vec<u8>)
    ensures
        r@ == Seq::<u8>::empty(),
{
    let v: Vec<u8> = Vec::new();
    assert(v@ =~= Seq::<u8>::empty());
    v
}

/// The statement for an assignment keyword to slot `slot`.
fn assign_node(k: KwTy, slot: u8, v: IrNode) -> (r: IrNode)
    requires
        is_asg(k),
    ensures
        r@ == assign_tree(k, slot, v@),
{
    if k == KwTy::Assign {
        return op1(false, Bytecode::PUTX, one_byte(slot), v);
    }
    let (op, inst) = match k {
        KwTy::AsgAdd => (LxOp::Add, Bytecode::ADD),
        KwTy::AsgSub => (LxOp::Sub, Bytecode::SUB),
        KwTy::AsgMul => (LxOp::Mul, Bytecode::MUL),
        _ => (LxOp::Div, Bytecode::DIV),
    };
    assert(op == asg_op(k) && inst == asg_inst(k));
    if slot < 64 {
        let m = match encode_local_operand_mark(op, slot) {
            Ok(m) => m,
            Err(_) => 0,
        };
        op1(false, Bytecode::XOP, one_byte(m), v)
    } else {
        let g = op_node(true, Bytecode::GETX, one_byte(slot), no_subs());
        let a = op2(true, inst, g, v);
        op1(false, Bytecode::PUTX, one_byte(slot), a)
    }
}

/// A binary operation of `op` on `l` and the right item, with the
/// precedence rule of `spec_swap`.
fn swap_exec(op: OpTy, l: IrNode, r: (IrNode, ItemKind)) -> (res: VmrtRes<IrNode>)
    ensures
        match spec_swap(op, l@, (r.0@, r.1)) {
            Ok(t) => res matches Ok(n) && n@ == t,
            Err(c) => res matches Err(e) && e.0 == c,
        },
{
    let inst = op.bytecode();
    let (rn, rk) = r;
    if rk == ItemKind::Group {
        return Ok(op2(true, inst, l, rn));
    }
    match rn {
        IrNode::Op { hrtv, inst: yi, para, subs } => {
            if para.len() != 0 || subs.len() != 2 {
                let back = IrNode::Op { hrtv, inst: yi, para, subs };
                return Ok(op2(true, inst, l, back));
            }
            let yop = OpTy::from_bytecode(yi)?;
            if op.level() > yop.level() {
                let ghost ts = trees_of(subs@);
                let mut subs = subs;
                let yb = subs.pop().unwrap();
                let ya = subs.pop().unwrap();
                assert(ya@ == ts[0] && yb@ == ts[1]);
                Ok(op2(true, yi, op2(true, inst, l, ya), yb))
            } else {
                let back = IrNode::Op { hrtv, inst: yi, para, subs };
                Ok(op2(true, inst, l, back))
            }
        },
        other => Ok(op2(true, inst, l, other)),
    }
}

/// Every built-in IR function returns at most one value and takes at most
/// three arguments.
proof fn lemma_irfn_shape(id: Seq<char>)
    ensures
        spec_irfn_named(id) matches Some((_, _, pms, args, rs)) ==> rs <= 1 && pms + args <= 3,
{
}

/// The parser: the tokens, the position, and the bindings made so far.
#[derive(Debug)]
pub struct Syntax {
    tokens: Vec<Token>,
    idx: usize,
    locals: Vec<(String, u8)>,
    bduses: Vec<(String, Vec<u8>)>,
    bdlibs: Vec<(String, Vec<u8>, u8)>,
}

impl Syntax {
    /// The tokens, closing `}` included.
    pub closed spec fn toks(&self) -> Seq<TokenView> {
        tokens_view(self.tokens@)
    }

    /// The position and the bindings.
    pub closed spec fn model(&self) -> SynModel {
        (self.idx as int, locals_view(self.locals@), uses_view(self.bduses@), libs_view(self.bdlibs@))
    }

    /// A parser at the start of the tokens, with a closing `}` added.
    pub fn new(tokens: Vec<Token>) -> (r: Syntax)
        ensures
            r.toks() == tokens_view(tokens@).push(TokenView::Partition('}')),
            r.model() == (0int, Seq::<(Seq<char>, u8)>::empty(), Seq::<(Seq<char>, Seq<u8>)>::empty(), Seq::<(Seq<char>, Seq<u8>, u8)>::empty()),
    {
        let mut tokens = tokens;
        let ghost t0 = tokens_view(tokens@);
        tokens.push(Token::Partition('}'));
        let r = Syntax { tokens, idx: 0, locals: Vec::new(), bduses: Vec::new(), bdlibs: Vec::new() };
        assert(r.toks() =~= t0.push(TokenView::Partition('}')));
        assert(locals_view(r.locals@) =~= Seq::<(Seq<char>, u8)>::empty());
        assert(uses_view(r.bduses@) =~= Seq::<(Seq<char>, Seq<u8>)>::empty());
        assert(libs_view(r.bdlibs@) =~= Seq::<(Seq<char>, Seq<u8>, u8)>::empty());
        r
    }

    fn tok(&self, i: usize) -> (r: Token)
        requires
            i < self.toks().len(),
        ensures
            r@ == self.toks()[i as int],
    {
        tok_dup(&self.tokens[i])
    }

    fn find_local_exec(&self, id: &str) -> (r: Option<u8>)
        ensures
            r == find_local(self.model().1, id@),
    {
        let ghost lv = locals_view(self.locals@);
        let mut i = self.locals.len();
        assert(lv.take(i as int) =~= lv);
        while i > 0
            invariant
                i <= self.locals@.len(),
                lv == locals_view(self.locals@),
                find_local(lv, id@) == find_local(lv.take(i as int), id@),
            decreases i,
        {
            let j = i - 1;
            assert(lv.take(i as int).drop_last() =~= lv.take(j as int));
            assert(lv.take(i as int).last() == lv[j as int]);
            if str_eq(self.locals[j].0.as_str(), id) {
                return Some(self.locals[j].1);
            }
            i = j;
        }
        None
    }

    fn has_use_exec(&self, id: &str) -> (r: bool)
        ensures
            r == has_use(self.model().2, id@),
    {
        let ghost uv = uses_view(self.bduses@);
        let mut i: usize = 0;
        while i < self.bduses.len()
            invariant
                i <= self.bduses@.len(),
                uv == uses_view(self.bduses@),
                forall|j: int| 0 <= j < i ==> uv[j].0 != id@,
            decreases self.bduses@.len() - i,
        {
            if str_eq(self.bduses[i].0.as_str(), id) {
                assert(uv[i as int].0 == id@);
                return true;
            }
            i = i + 1;
        }
        false
    }

    fn has_lib_exec(&self, id: &str) -> (r: bool)
        ensures
            r == has_lib(self.model().3, id@),
    {
        let ghost lv = libs_view(self.bdlibs@);
        let mut i: usize = 0;
        while i < self.bdlibs.len()
            invariant
                i <= self.bdlibs@.len(),
                lv == libs_view(self.bdlibs@),
                forall|j: int| 0 <= j < i ==> lv[j].0 != id@,
            decreases self.bdlibs@.len() - i,
        {
            if str_eq(self.bdlibs[i].0.as_str(), id) {
                assert(lv[i as int].0 == id@);
                return true;
            }
            i = i + 1;
        }
        false
    }
}

impl Syntax {
    /// The next item, extended by the operator, cast or assignment after it;
    /// `None` at the end of the tokens.
    pub fn item_may(&mut self) -> (r: VmrtRes<Option<(IrNode, ItemKind)>>)
        ensures
            final(self).toks() == old(self).toks(),
            match spec_item_may(old(self).toks(), old(self).model()) {
                Ok((o, s)) => (r matches Ok(y) && opt_item_is(y, o)) && final(self).model() == s,
                Err(c) => r matches Err(e) && e.0 == c,
            },
        decreases old(self).toks().len() - old(self).model().0, 3nat,
    {
        if self.idx >= self.tokens.len() || self.idx + 1 >= self.tokens.len() {
            return Ok(None);
        }
        let start = self.idx;
        let (it, fin) = self.item_head()?;
        if fin {
            return Ok(Some(it));
        }
        if !(start < self.idx && self.idx <= self.tokens.len()) {
            return Err(compile_err("parser did not advance"));
        }
        let x = self.item_with_left(it)?;
        Ok(Some(x))
    }

    fn item_head(&mut self) -> (r: VmrtRes<((IrNode, ItemKind), bool)>)
        ensures
            final(self).toks() == old(self).toks(),
            match spec_item_head(old(self).toks(), old(self).model()) {
                Ok((it, s, fin)) => (r matches Ok(y) && item_is(y.0, it) && y.1 == fin) && final(self).model() == s,
                Err(c) => r matches Err(e) && e.0 == c,
            },
        decreases old(self).toks().len() - old(self).model().0, 2nat,
    {
        if self.idx >= self.tokens.len() || self.idx + 1 >= self.tokens.len() {
            return Err(compile_err("item_may get next token error"));
        }
        let i = self.idx;
        match self.tok(i) {
            Token::Identifier(id) => {
                self.idx = i + 1;
                let it = self.identifier(id.as_str())?;
                Ok((it, false))
            },
            Token::Integer(n) => {
                self.idx = i + 1;
                Ok(((int_node(n), ItemKind::Plain), false))
            },
            Token::Bytes(b) => {
                let node = bytes_node(b)?;
                self.idx = i + 1;
                Ok(((node, ItemKind::Plain), false))
            },
            Token::Partition(c) => {
                if c != '(' {
                    return Err(compile_err("unsupported token"));
                }
                self.idx = i + 1;
                let it = self.item_must()?;
                if !it.0.hasretval() {
                    return Err(compile_err("(..) expression must return a value"));
                }
                let j = self.idx;
                if j >= self.tokens.len() || j + 1 >= self.tokens.len() {
                    return Err(compile_err("(..) expression format error"));
                }
                let closes = match self.tok(j) {
                    Token::Partition(cc) => cc == ')',
                    _ => false,
                };
                if !closes {
                    return Err(compile_err("(..) expression format error"));
                }
                self.idx = j + 1;
                let kind = if node_sub_count(&it.0) >= 2 { ItemKind::Group } else { it.1 };
                Ok(((it.0, kind), false))
            },
            Token::Keyword(k) => self.keyword_head(k),
            Token::Operator(_) => Err(compile_err("unsupported token")),
        }
    }

    #[verifier::rlimit(60)]
    fn keyword_head(&mut self, k: KwTy) -> (r: VmrtRes<((IrNode, ItemKind), bool)>)
        ensures
            final(self).toks() == old(self).toks(),
            match spec_keyword_head(old(self).toks(), old(self).model(), k) {
                Ok((it, s, fin)) => (r matches Ok(y) && item_is(y.0, it) && y.1 == fin) && final(self).model() == s,
                Err(c) => r matches Err(e) && e.0 == c,
            },
        decreases old(self).toks().len() - old(self).model().0, 1nat,
    {
        if self.idx >= self.tokens.len() || self.idx + 1 >= self.tokens.len() {
            return Err(compile_err("item_may get next token error"));
        }
        let i = self.idx;
        match k {
            KwTy::While => self.while_head(),
            KwTy::If => self.if_head(),
            KwTy::Let => self.let_head(),
            KwTy::Use => self.use_head(),
            KwTy::Lib => self.lib_head(),
            KwTy::Abort => {
                self.idx = i + 1;
                Ok(((leaf_node(false, Bytecode::ABT), ItemKind::Plain), false))
            },
            KwTy::Finish => {
                self.idx = i + 1;
                Ok(((leaf_node(false, Bytecode::END), ItemKind::Plain), false))
            },
            KwTy::Assert | KwTy::Throw | KwTy::Return => {
                let inst = match k {
                    KwTy::Assert => Bytecode::AST,
                    KwTy::Throw => Bytecode::ERR,
                    _ => Bytecode::RET,
                };
                self.idx = i + 1;
                let v = self.item_must()?;
                Ok(((op1(false, inst, no_bytes(), v.0), ItemKind::Plain), false))
            },
            _ => Err(compile_err("unsupported keyword")),
        }
    }

    fn while_head(&mut self) -> (r: VmrtRes<((IrNode, ItemKind), bool)>)
        requires
            old(self).idx + 1 < old(self).tokens@.len(),
        ensures
            final(self).toks() == old(self).toks(),
            match spec_while_head(old(self).toks(), old(self).model()) {
                Ok((it, s, fin)) => (r matches Ok(y) && item_is(y.0, it) && y.1 == fin) && final(self).model() == s,
                Err(c) => r matches Err(e) && e.0 == c,
            },
        decreases old(self).toks().len() - old(self).model().0, 0nat,
    {
        if self.idx >= self.tokens.len() || self.idx + 1 >= self.tokens.len() {
            return Err(compile_err("statement format error"));
        }
        let i = self.idx;
        self.idx = i + 1;
        let c = self.item_must()?;
        if !c.0.hasretval() || !(i < self.idx && self.idx <= self.tokens.len()) {
            return Err(compile_err("while condition must return a value"));
        }
        let body = self.list()?;
        Ok(((op2(false, Bytecode::IRWHILE, c.0, body), ItemKind::Plain), false))
    }

    #[verifier::rlimit(60)]
    fn if_head(&mut self) -> (r: VmrtRes<((IrNode, ItemKind), bool)>)
        requires
            old(self).idx + 1 < old(self).tokens@.len(),
        ensures
            final(self).toks() == old(self).toks(),
            match spec_if_head(old(self).toks(), old(self).model()) {
                Ok((it, s, fin)) => (r matches Ok(y) && item_is(y.0, it) && y.1 == fin) && final(self).model() == s,
                Err(c) => r matches Err(e) && e.0 == c,
            },
        decreases old(self).toks().len() - old(self).model().0, 0nat,
    {
        if self.idx >= self.tokens.len() || self.idx + 1 >= self.tokens.len() {
            return Err(compile_err("statement format error"));
        }
        let i = self.idx;
        self.idx = i + 1;
        let c = self.item_must()?;
        if !c.0.hasretval() || !(i < self.idx && self.idx <= self.tokens.len()) {
            return Err(compile_err("if condition must return a value"));
        }
        let y = self.list()?;
        let j = self.idx;
        if !(i < j && j <= self.tokens.len()) || j >= self.tokens.len() {
            return Err(compile_err("if statement format error"));
        }
        let is_else = match self.tok(j) {
            Token::Keyword(KwTy::Else) => true,
            _ => false,
        };
        if !is_else {
            let nop = leaf_node(false, Bytecode::NOP);
            return Ok(((op3(false, Bytecode::IRIF, c.0, y, nop), ItemKind::Plain), true));
        }
        if j + 1 >= self.tokens.len() {
            return Err(compile_err("if statement format error"));
        }
        let is_if = match self.tok(j + 1) {
            Token::Keyword(KwTy::If) => true,
            _ => false,
        };
        self.idx = j + 1;
        if !is_if {
            let z = self.list()?;
            return Ok(((op3(false, Bytecode::IRIF, c.0, y, z), ItemKind::Plain), true));
        }
        let z = self.item_must()?;
        Ok(((op3(false, Bytecode::IRIF, c.0, y, z.0), ItemKind::Plain), false))
    }

    fn let_head(&mut self) -> (r: VmrtRes<((IrNode, ItemKind), bool)>)
        requires
            old(self).idx + 1 < old(self).tokens@.len(),
        ensures
            final(self).toks() == old(self).toks(),
            match spec_let_head(old(self).toks(), old(self).model()) {
                Ok((it, s, fin)) => (r matches Ok(y) && item_is(y.0, it) && y.1 == fin) && final(self).model() == s,
                Err(c) => r matches Err(e) && e.0 == c,
            },
    {
        if self.idx >= self.tokens.len() || self.idx + 1 >= self.tokens.len() {
            return Err(compile_err("statement format error"));
        }
        let i = self.idx;
        if self.tokens.len() - i <= 4 {
            return Err(compile_err("let statement format error"));
        }
        match (self.tok(i + 1), self.tok(i + 2), self.tok(i + 3)) {
            (Token::Identifier(id), Token::Keyword(KwTy::Assign), Token::Identifier(num)) => {
                match slot_of_text_exec(num.as_str()) {
                    None => Err(compile_err("let statement format error")),
                    Some(slot) => {
                        if self.find_local_exec(id.as_str()).is_some() {
                            return Err(compile_err("<let> cannot repeat bind the symbol"));
                        }
                        let ghost l0 = locals_view(self.locals@);
                        let ghost nm = id@;
                        self.locals.push((id, slot));
                        assert(locals_view(self.locals@) =~= l0.push((nm, slot)));
                        self.idx = i + 4;
                        Ok(((empty_node(), ItemKind::Empty), false))
                    },
                }
            },
            _ => Err(compile_err("let statement format error")),
        }
    }

    fn use_head(&mut self) -> (r: VmrtRes<((IrNode, ItemKind), bool)>)
        requires
            old(self).idx + 1 < old(self).tokens@.len(),
        ensures
            final(self).toks() == old(self).toks(),
            match spec_use_head(old(self).toks(), old(self).model()) {
                Ok((it, s, fin)) => (r matches Ok(y) && item_is(y.0, it) && y.1 == fin) && final(self).model() == s,
                Err(c) => r matches Err(e) && e.0 == c,
            },
    {
        if self.idx >= self.tokens.len() || self.idx + 1 >= self.tokens.len() {
            return Err(compile_err("statement format error"));
        }
        let i = self.idx;
        if self.tokens.len() - i <= 4 {
            return Err(compile_err("use statement format error"));
        }
        match (self.tok(i + 1), self.tok(i + 2), self.tok(i + 3)) {
            (Token::Identifier(id), Token::Keyword(KwTy::Assign), Token::Bytes(a)) => {
                if self.has_use_exec(id.as_str()) || !(a.len() == 21 && a[0] == VERSION_CONTRACT) {
                    return Err(compile_err("<use> bind error"));
                }
                let ghost u0 = uses_view(self.bduses@);
                let ghost nm = id@;
                let ghost av = a@;
                self.bduses.push((id, a));
                assert(uses_view(self.bduses@) =~= u0.push((nm, av)));
                self.idx = i + 4;
                Ok(((empty_node(), ItemKind::Empty), false))
            },
            _ => Err(compile_err("use statement format error")),
        }
    }

    fn lib_head(&mut self) -> (r: VmrtRes<((IrNode, ItemKind), bool)>)
        requires
            old(self).idx + 1 < old(self).tokens@.len(),
        ensures
            final(self).toks() == old(self).toks(),
            match spec_lib_head(old(self).toks(), old(self).model()) {
                Ok((it, s, fin)) => (r matches Ok(y) && item_is(y.0, it) && y.1 == fin) && final(self).model() == s,
                Err(c) => r matches Err(e) && e.0 == c,
            },
    {
        if self.idx >= self.tokens.len() || self.idx + 1 >= self.tokens.len() {
            return Err(compile_err("statement format error"));
        }
        let i = self.idx;
        if self.tokens.len() - i <= 7 {
            return Err(compile_err("lib statement format error"));
        }
        match (self.tok(i + 1), self.tok(i + 2), self.tok(i + 3), self.tok(i + 4), self.tok(i + 5), self.tok(i + 6)) {
            (Token::Identifier(id), Token::Keyword(KwTy::Assign), Token::Bytes(a),
             Token::Partition('('), Token::Integer(n), Token::Partition(')')) => {
                if n > 255 || self.has_lib_exec(id.as_str()) || !(a.len() == 21 && a[0] == VERSION_CONTRACT) {
                    return Err(compile_err("<lib> bind error"));
                }
                let ghost b0 = libs_view(self.bdlibs@);
                let ghost nm = id@;
                let ghost av = a@;
                self.bdlibs.push((id, a, n as u8));
                assert(libs_view(self.bdlibs@) =~= b0.push((nm, av, n as u8)));
                self.idx = i + 7;
                Ok(((empty_node(), ItemKind::Empty), false))
            },
            _ => Err(compile_err("lib statement format error")),
        }
    }

    /// What follows an item: an assignment to it, an `as` cast of it, or a
    /// binary operation with it on the left; anything else leaves it as is.
    pub fn item_with_left(&mut self, left: (IrNode, ItemKind)) -> (r: VmrtRes<(IrNode, ItemKind)>)
        ensures
            final(self).toks() == old(self).toks(),
            match spec_item_with_left(old(self).toks(), old(self).model(), (left.0@, left.1)) {
                Ok((x, s)) => (r matches Ok(y) && item_is(y, x)) && final(self).model() == s,
                Err(c) => r matches Err(e) && e.0 == c,
            },
        decreases old(self).toks().len() - old(self).model().0, 0nat,
    {
        if self.idx >= self.tokens.len() {
            return Ok(left);
        }
        let i = self.idx;
        match self.tok(i) {
            Token::Keyword(k) => {
                if is_asg_exec(k) {
                    let li = local_index_exec(&left.0);
                    if left.1 != ItemKind::Local || li.is_none() {
                        return Err(compile_err("assign statement format error"));
                    }
                    let slot = li.unwrap();
                    self.idx = i + 1;
                    let v = self.item_must()?;
                    if !v.0.hasretval() {
                        return Err(compile_err("assigned value must return a value"));
                    }
                    Ok((assign_node(k, slot, v.0), ItemKind::Plain))
                } else if k == KwTy::As {
                    if i + 1 >= self.tokens.len() {
                        return Err(compile_err("<as> express format error"));
                    }
                    match self.tok(i + 1) {
                        Token::Keyword(t) => match cast_exec(t) {
                            Some(ci) => {
                                self.idx = i + 2;
                                Ok((op1(true, ci, no_bytes(), left.0), ItemKind::Plain))
                            },
                            None => Err(compile_err("<as> express format error")),
                        },
                        _ => Err(compile_err("<as> express format error")),
                    }
                } else {
                    Ok(left)
                }
            },
            Token::Operator(op) => {
                self.idx = i + 1;
                let rt = self.item_must()?;
                if !left.0.hasretval() || !rt.0.hasretval() {
                    return Err(compile_err("operand must return a value"));
                }
                let t = swap_exec(op, left.0, rt)?;
                Ok((t, ItemKind::Plain))
            },
            _ => Ok(left),
        }
    }

    fn item_must(&mut self) -> (r: VmrtRes<(IrNode, ItemKind)>)
        ensures
            final(self).toks() == old(self).toks(),
            match spec_item_must(old(self).toks(), old(self).model()) {
                Ok((x, s)) => (r matches Ok(y) && item_is(y, x)) && final(self).model() == s,
                Err(c) => r matches Err(e) && e.0 == c,
            },
        decreases old(self).toks().len() - old(self).model().0, 4nat,
    {
        match self.item_may()? {
            Some(x) => Ok(x),
            None => Err(compile_err("not match next Syntax node")),
        }
    }

    fn block(&mut self) -> (r: VmrtRes<Vec<IrNode>>)
        ensures
            final(self).toks() == old(self).toks(),
            match spec_block(old(self).toks(), old(self).model()) {
                Ok((items, s)) => (r matches Ok(v) && trees_of(v@) == items) && final(self).model() == s,
                Err(c) => r matches Err(e) && e.0 == c,
            },
        decreases old(self).toks().len() - old(self).model().0, 0nat,
    {
        if self.idx >= self.tokens.len() || self.idx + 1 >= self.tokens.len() {
            return Err(compile_err("block format error"));
        }
        let i = self.idx;
        let opens = match self.tok(i) {
            Token::Partition(c) => c == '{' || c == '(',
            _ => false,
        };
        if !opens {
            return Err(compile_err("block format error"));
        }
        self.idx = i + 1;
        self.block_from(no_subs())
    }

    fn block_from(&mut self, acc: Vec<IrNode>) -> (r: VmrtRes<Vec<IrNode>>)
        ensures
            final(self).toks() == old(self).toks(),
            match spec_block_from(old(self).toks(), old(self).model(), trees_of(acc@)) {
                Ok((items, s)) => (r matches Ok(v) && trees_of(v@) == items) && final(self).model() == s,
                Err(c) => r matches Err(e) && e.0 == c,
            },
        decreases old(self).toks().len() - old(self).model().0, 4nat,
    {
        if self.idx >= self.tokens.len() || self.idx + 1 >= self.tokens.len() {
            return Ok(acc);
        }
        let i = self.idx;
        let closes = match self.tok(i) {
            Token::Partition(c) => c == '}' || c == ')',
            _ => false,
        };
        if closes {
            self.idx = i + 1;
            return Ok(acc);
        }
        match self.item_may()? {
            None => Ok(acc),
            Some(x) => {
                if !(i < self.idx && self.idx <= self.tokens.len()) {
                    return Err(compile_err("parser did not advance"));
                }
                let mut acc = acc;
                let ghost a0 = trees_of(acc@);
                acc.push(x.0);
                assert(trees_of(acc@) =~= a0.push(x.0@));
                self.block_from(acc)
            },
        }
    }

    fn list(&mut self) -> (r: VmrtRes<IrNode>)
        ensures
            final(self).toks() == old(self).toks(),
            match spec_list(old(self).toks(), old(self).model()) {
                Ok((t, s)) => (r matches Ok(n) && n@ == t) && final(self).model() == s,
                Err(c) => r matches Err(e) && e.0 == c,
            },
        decreases old(self).toks().len() - old(self).model().0, 1nat,
    {
        let items = self.block()?;
        let n = items.len();
        if n == 0 {
            return Ok(leaf_node(false, Bytecode::NOP));
        }
        if n == 1 {
            let ghost ts = trees_of(items@);
            let mut items = items;
            let x = items.pop().unwrap();
            assert(x@ == ts[0]);
            return Ok(x);
        }
        let ghost ts = trees_of(items@);
        let r = IrNode::Array { inst: Bytecode::IRBLOCK, subs: items };
        assert(r@ matches IrTree::Array(b, s) && b == Bytecode::IRBLOCK && s =~= ts);
        Ok(r)
    }

    fn func_call(&mut self, id: &str) -> (r: VmrtRes<IrNode>)
        ensures
            final(self).toks() == old(self).toks(),
            match spec_func_call(old(self).toks(), old(self).model(), id@) {
                Ok((t, s)) => (r matches Ok(n) && n@ == t) && final(self).model() == s,
                Err(c) => r matches Err(e) && e.0 == c,
            },
        decreases old(self).toks().len() - old(self).model().0, 1nat,
    {
        proof {
            lemma_irfn_shape(id@);
        }
        match pick_ir_func(id) {
            None => Err(compile_err("cannot find function")),
            Some((_, inst, pms, args, rs)) => {
                let items = self.block()?;
                if pms + args != items.len() {
                    return Err(compile_err("ir func call argv length mismatch"));
                }
                if !(pms + args == 0 || (pms == 0 && 1 <= args && args <= 3) || (pms == 1 && args == 1) || (pms == 2 && args == 1)) {
                    return Err(compile_err("cannot match ir call type"));
                }
                build_ir_func(inst, pms, args, rs, items)
            },
        }
    }

    fn identifier(&mut self, id: &str) -> (r: VmrtRes<(IrNode, ItemKind)>)
        ensures
            final(self).toks() == old(self).toks(),
            match spec_identifier(old(self).toks(), old(self).model(), id@) {
                Ok((x, s)) => (r matches Ok(y) && item_is(y, x)) && final(self).model() == s,
                Err(c) => r matches Err(e) && e.0 == c,
            },
        decreases old(self).toks().len() - old(self).model().0, 2nat,
    {
        let i = self.idx;
        if i < self.tokens.len() && i + 1 < self.tokens.len() {
            let (is_call, is_member) = match self.tok(i) {
                Token::Partition(c) => (c == '(', false),
                Token::Keyword(k) => (false, k == KwTy::Dot || k == KwTy::Colon || k == KwTy::DColon),
                _ => (false, false),
            };
            if is_call {
                let n = self.func_call(id)?;
                return Ok((n, ItemKind::Plain));
            }
            if is_member {
                return Err(compile_err("member and library calls are not available"));
            }
        }
        match self.find_local_exec(id) {
            None => Err(compile_err("cannot find symbol")),
            Some(slot) => Ok((op_node(true, Bytecode::GETX, one_byte(slot), no_subs()), ItemKind::Local)),
        }
    }
}

impl Syntax {
    fn parse_items(&mut self, acc: Vec<IrNode>) -> (r: VmrtRes<Vec<IrNode>>)
        ensures
            final(self).toks() == old(self).toks(),
            match spec_parse_items(old(self).toks(), old(self).model(), trees_of(acc@)) {
                Ok((items, s)) => (r matches Ok(v) && trees_of(v@) == items) && final(self).model() == s,
                Err(c) => r matches Err(e) && e.0 == c,
            },
        decreases old(self).toks().len() - old(self).model().0,
    {
        let start = self.idx;
        match self.item_may()? {
            None => Ok(acc),
            Some(x) => {
                if !(start < self.idx && self.idx <= self.tokens.len()) {
                    return Err(compile_err("parser did not advance"));
                }
                let mut acc = acc;
                if x.1 != ItemKind::Empty {
                    let ghost a0 = trees_of(acc@);
                    acc.push(x.0);
                    assert(trees_of(acc@) =~= a0.push(x.0@));
                }
                self.parse_items(acc)
            },
        }
    }

    fn max_local_slot(&self) -> (r: i16)
        ensures
            r == max_slot(self.model().1),
    {
        let ghost lv = locals_view(self.locals@);
        let mut m: i16 = -1;
        let mut i: usize = 0;
        while i < self.locals.len()
            invariant
                i <= self.locals@.len(),
                lv == locals_view(self.locals@),
                m == max_slot(lv.take(i as int)),
                -1 <= m <= 255,
            decreases self.locals@.len() - i,
        {
            assert(lv.take(i + 1).drop_last() =~= lv.take(i as int));
            assert(lv.take(i + 1).last() == lv[i as int]);
            let v = self.locals[i].1 as i16;
            if m < v {
                m = v;
            }
            i = i + 1;
        }
        assert(lv.take(i as int) =~= lv);
        m
    }

    /// Parse every item to the end of the tokens into one statement block.
    pub fn parse(self) -> (r: VmrtRes<IrNode>)
        ensures
            match spec_parse(self.toks(), self.model()) {
                Ok(t) => r matches Ok(n) && n@ == t,
                Err(c) => r matches Err(e) && e.0 == c,
            },
    {
        let mut this = self;
        let mut first: Vec<IrNode> = Vec::new();
        first.push(empty_node());
        assert(trees_of(first@) =~= seq![empty_tree()]);
        let mut items = this.parse_items(first)?;
        let ghost ts = trees_of(items@);
        if this.locals.len() == 0 {
            let r = IrNode::Array { inst: Bytecode::IRBLOCK, subs: items };
            assert(r@ matches IrTree::Array(b, s) && b == Bytecode::IRBLOCK && s =~= ts);
            return Ok(r);
        }
        let m = this.max_local_slot();
        if m >= 255 {
            return Err(compile_err("local slot index overflow"));
        }
        proof {
            lemma_items_nonempty(this.toks(), self.model(), seq![empty_tree()]);
        }
        let alloc = op_node(false, Bytecode::ALLOC, one_byte((m + 1) as u8), no_subs());
        let ghost at0 = alloc@;
        items.set(0, alloc);
        assert(trees_of(items@) =~= ts.update(0, at0));
        let r = IrNode::Array { inst: Bytecode::IRBLOCK, subs: items };
        assert(r@ matches IrTree::Array(b, s) && b == Bytecode::IRBLOCK && s =~= ts.update(0, at0));
        Ok(r)
    }
}

/// Parsing only adds items after those it starts with.
proof fn lemma_items_nonempty(tks: Seq<TokenView>, st: SynModel, acc: Seq<IrTree>)
    ensures
        spec_parse_items(tks, st, acc) matches Ok((items, _)) ==> items.len() >= acc.len(),
    decreases tks.len() - st.0,
{
    match spec_item_may(tks, st) {
        Ok((Some(x), s2)) => if advanced(tks, st, s2) {
            lemma_items_nonempty(tks, s2, if x.1 == ItemKind::Empty { acc } else { acc.push(x.0) });
        },
        _ => {},
    }
}

} // verus!

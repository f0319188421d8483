//! Function calls of the contract language lowered to IR: built-in IR
//! functions, native calls by name, and argument lists joined by `CAT`.

use vstd::prelude::*;
use crate::bytecode::Bytecode;
use crate::error::{ItrErr, ItrErrCode};
use crate::ir::{IrNode, IrTree, trees_of};
use crate::lang::{IrFn, spec_irfn_named};
use crate::text::str_eq;

verus! {

/// The built-in IR function called `id`, with its instruction and shape
/// (immediate count, operand count, result count).
pub fn pick_ir_func(id: &str) -> (r: Option<(IrFn, Bytecode, usize, usize, usize)>)
    ensures
        r == spec_irfn_named(id@),
{
    IrFn::from_name(id)
}

/// Legacy native calls, by name.
#[allow(non_camel_case_types)]
#[derive(Debug, Clone, Copy, PartialEq, Eq, Structural)]
pub enum NativeCall {
    Null,
    sha2,
    sha3,
    ripemd160,
    amount_to_mei,
    amount_to_zhu,
}

/// The legacy native call with a name, and its index.
pub open spec fn spec_native_call_named(s: Seq<char>) -> Option<(u8, NativeCall)> {
    if s == "sha2"@ {
        Some((1u8, NativeCall::sha2))
    } else if s == "sha3"@ {
        Some((2u8, NativeCall::sha3))
    } else if s == "ripemd160"@ {
        Some((3u8, NativeCall::ripemd160))
    } else if s == "amount_to_mei"@ {
        Some((21u8, NativeCall::amount_to_mei))
    } else if s == "amount_to_zhu"@ {
        Some((22u8, NativeCall::amount_to_zhu))
    } else {
        None
    }
}

impl NativeCall {
    /// The call with a name, and its index.
    pub fn from_name(name: &str) -> (r: Option<(u8, NativeCall)>)
        ensures
            r == spec_native_call_named(name@),
    {
        if str_eq(name, "sha2") {
            Some((1, NativeCall::sha2))
        } else if str_eq(name, "sha3") {
            Some((2, NativeCall::sha3))
        } else if str_eq(name, "ripemd160") {
            Some((3, NativeCall::ripemd160))
        } else if str_eq(name, "amount_to_mei") {
            Some((21, NativeCall::amount_to_mei))
        } else if str_eq(name, "amount_to_zhu") {
            Some((22, NativeCall::amount_to_zhu))
        } else {
            None
        }
    }
}

/// The index of the legacy native call named `id`.
pub fn pick_native_call(id: &str) -> (r: Option<u8>)
    ensures
        r == match spec_native_call_named(id@) {
            Some((i, _)) => Some(i),
            None => None,
        },
{
    match NativeCall::from_name(id) {
        Some((i, _)) => Some(i),
        None => None,
    }
}

/// Arguments joined right to left by `CAT`: `a ++ (b ++ (... ++ z))`.
pub open spec fn spec_cat_chain(ts: Seq<IrTree>) -> IrTree
    decreases ts.len(),
{
    if ts.len() <= 1 {
        ts[0]
    } else {
        IrTree::Op(true, Bytecode::CAT, Seq::empty(), seq![ts[0], spec_cat_chain(ts.drop_first())])
    }
}

/// Join a non-empty argument list by `CAT`.
pub fn concat_func_argvs(list: Vec<IrNode>) -> (r: IrNode)
    requires
        list@.len() >= 1,
    ensures
        r@ == spec_cat_chain(trees_of(list@)),
{
    let ghost ts = trees_of(list@);
    let mut list = list;
    let mut res = list.pop().unwrap();
    assert(ts.subrange(ts.len() - 1, ts.len() as int) =~= seq![res@]);
    while list.len() > 0
        invariant
            list@.len() < ts.len(),
            trees_of(list@) == ts.subrange(0, list@.len() as int),
            res@ == spec_cat_chain(ts.subrange(list@.len() as int, ts.len() as int)),
        decreases list@.len(),
    {
        let ghost n = list@.len();
        let ghost l0 = list@;
        let x = list.pop().unwrap();
        assert(x == l0[n - 1]);
        assert(trees_of(l0)[n - 1] == ts.subrange(0, n as int)[n - 1]);
        assert(x@ == ts[n - 1]);
        let ghost prev = res@;
        let mut subs: Vec<IrNode> = Vec::new();
        subs.push(x);
        subs.push(res);
        res = IrNode::Op { hrtv: true, inst: Bytecode::CAT, para: Vec::new(), subs };
        proof {
            let tail = ts.subrange(n - 1, ts.len() as int);
            assert(tail.drop_first() =~= ts.subrange(n as int, ts.len() as int));
            assert(tail[0] == ts[n - 1]);
            assert(trees_of(list@) =~= ts.subrange(0, n - 1));
            assert(res@ matches IrTree::Op(h, i, p, s) && h && i == Bytecode::CAT && p =~= Seq::<u8>::empty() && s =~= seq![tail[0], prev]);
        }
    }
    assert(ts.subrange(0, ts.len() as int) =~= ts);
    res
}

/// The argument of a call: nothing is an empty buffer, one argument is
/// itself, more are joined by `CAT`.
pub open spec fn spec_deal_argvs(ts: Seq<IrTree>) -> IrTree {
    if ts.len() == 0 {
        IrTree::Op(true, Bytecode::PNBUF, Seq::empty(), Seq::empty())
    } else if ts.len() == 1 {
        ts[0]
    } else {
        spec_cat_chain(ts)
    }
}

/// Turn a call's argument list into the one argument node.
pub fn deal_may_func_argvs(argvs: Vec<IrNode>) -> (r: IrNode)
    ensures
        r@ == spec_deal_argvs(trees_of(argvs@)),
{
    let n = argvs.len();
    if n == 0 {
        IrNode::leaf(true, Bytecode::PNBUF)
    } else if n == 1 {
        let mut argvs = argvs;
        let x = argvs.pop().unwrap();
        x
    } else {
        concat_func_argvs(argvs)
    }
}

/// The immediate byte carried by a `PU8` argument node.
pub open spec fn spec_param_byte(t: IrTree) -> Option<u8> {
    match t {
        IrTree::Op(_, inst, para, _) => if inst == Bytecode::PU8 && para.len() == 1 { Some(para[0]) } else { None },
        _ => None,
    }
}

/// A built-in IR function call: `pms` immediates taken from `PU8` arguments,
/// then `args` operand subtrees; no argument at all is a leaf. Arguments past
/// those are not looked at.
pub open spec fn spec_build_ir_func(inst: Bytecode, pms: usize, args: usize, rs: usize, ts: Seq<IrTree>) -> Result<IrTree, ItrErrCode> {
    let hrtv = rs == 1;
    if pms + args == 0 {
        Ok(IrTree::Op(hrtv, inst, Seq::empty(), Seq::empty()))
    } else if pms == 0 {
        Ok(IrTree::Op(hrtv, inst, Seq::empty(), ts.take(args as int)))
    } else if pms == 1 {
        match spec_param_byte(ts[0]) {
            None => Err(ItrErrCode::CompileError),
            Some(p) => Ok(IrTree::Op(hrtv, inst, seq![p], ts.subrange(1, 1 + args))),
        }
    } else if pms == 2 {
        match spec_param_byte(ts[0]) {
            None => Err(ItrErrCode::CompileError),
            Some(p1) => match spec_param_byte(ts[1]) {
                None => Err(ItrErrCode::CompileError),
                Some(p2) => Ok(IrTree::Op(hrtv, inst, seq![p1, p2], ts.subrange(2, 2 + args))),
            },
        }
    } else {
        Err(ItrErrCode::CompileError)
    }
}

fn take_param_byte(node: IrNode) -> (r: Result<u8, ItrErr>)
    ensures
        match spec_param_byte(node@) {
            Some(p) => r matches Ok(x) && x == p,
            None => r matches Err(e) && e.0 == ItrErrCode::CompileError,
        },
{
    match node {
        IrNode::Op { inst, para, .. } => {
            if inst == Bytecode::PU8 && para.len() == 1 {
                Ok(para[0])
            } else {
                Err(ItrErr::new(ItrErrCode::CompileError, "ir func call param format error"))
            }
        },
        _ => Err(ItrErr::new(ItrErrCode::CompileError, "ir func call param format error")),
    }
}

/// Build the IR node of a built-in IR function call from its arguments.
pub fn build_ir_func(inst: Bytecode, pms: usize, args: usize, rs: usize, argvs: Vec<IrNode>) -> (r: Result<IrNode, ItrErr>)
    requires
        pms > 2 || argvs@.len() >= pms + args,
        pms + args == 0 || (pms == 0 && 1 <= args <= 3) || (pms == 1 && args == 1) || (pms == 2 && args == 1) || pms > 2,
    ensures
        match spec_build_ir_func(inst, pms, args, rs, trees_of(argvs@)) {
            Ok(t) => r matches Ok(n) && n@ == t,
            Err(c) => r matches Err(e) && e.0 == c,
        },
{
    let ghost ts = trees_of(argvs@);
    let hrtv = rs == 1;
    if pms == 0 && args == 0 {
        let n = IrNode::leaf(hrtv, inst);
        return Ok(n);
    }
    if pms == 0 {
        let mut subs = argvs;
        subs.truncate(args);
        let n = IrNode::Op { hrtv, inst, para: Vec::new(), subs };
        assert(n@ matches IrTree::Op(h, i, p, s) && h == hrtv && i == inst && p =~= Seq::<u8>::empty() && s =~= ts.take(args as int));
        return Ok(n);
    }
    if pms == 1 {
        let mut rest = argvs;
        let first = rest.remove(0);
        assert(first@ == ts[0]);
        let p = take_param_byte(first)?;
        let mut para: Vec<u8> = Vec::new();
        para.push(p);
        rest.truncate(args);
        let n = IrNode::Op { hrtv, inst, para, subs: rest };
        assert(n@ matches IrTree::Op(h, i, q, s) && h == hrtv && i == inst && q =~= seq![p] && s =~= ts.subrange(1, 1 + args));
        return Ok(n);
    }
    if pms == 2 {
        let mut rest = argvs;
        let first = rest.remove(0);
        assert(first@ == ts[0]);
        let p1 = take_param_byte(first)?;
        let second = rest.remove(0);
        assert(second@ == ts[1]);
        let p2 = take_param_byte(second)?;
        let mut para: Vec<u8> = Vec::new();
        para.push(p1);
        para.push(p2);
        rest.truncate(args);
        let n = IrNode::Op { hrtv, inst, para, subs: rest };
        assert(n@ matches IrTree::Op(h, i, q, s) && h == hrtv && i == inst && q =~= seq![p1, p2] && s =~= ts.subrange(2, 2 + args));
        return Ok(n);
    }
    Err(ItrErr::new(ItrErrCode::CompileError, "cannot match ir call type"))
}

} // verus!

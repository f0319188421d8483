//! The IR tree: the structured form of a function body before it is lowered
//! to runtime bytecode.

use vstd::prelude::*;
use crate::bytecode::{Bytecode, spec_byte};

verus! {

/// Mathematical model of an IR node.
#[verifier::ext_equal]
pub enum IrTree {
    /// Raw runtime bytecode carried through unchanged (`IRBYTECODE`).
    Bytecodes(Seq<u8>),
    /// A container: `IRLIST`, `IRBLOCK` or `IRBLOCKR`.
    Array(Bytecode, Seq<IrTree>),
    /// An instruction with its immediate bytes and its operand subtrees, and
    /// whether it leaves a value on the stack.
    Op(bool, Bytecode, Seq<u8>, Seq<IrTree>),
}

/// An IR node.
#[derive(Debug)]
pub enum IrNode {
    /// Raw runtime bytecode carried through unchanged (`IRBYTECODE`).
    Bytecodes(Vec<u8>),
    /// A container: `IRLIST`, `IRBLOCK` or `IRBLOCKR`, with its items.
    Array { inst: Bytecode, subs: Vec<IrNode> },
    /// An instruction: whether it returns a value, the opcode, its immediate
    /// bytes, and its operand subtrees in stack order.
    Op { hrtv: bool, inst: Bytecode, para: Vec<u8>, subs: Vec<IrNode> },
}

/// The model of a node.
pub open spec fn tree_of(n: IrNode) -> IrTree
    decreases n,
{
    match n {
        IrNode::Bytecodes(v) => IrTree::Bytecodes(v@),
        IrNode::Array { inst, subs } => IrTree::Array(
            inst,
            Seq::new(subs@.len(), |i: int| if 0 <= i < subs@.len() { tree_of(subs@[i]) } else { IrTree::Bytecodes(Seq::empty()) }),
        ),
        IrNode::Op { hrtv, inst, para, subs } => IrTree::Op(
            hrtv,
            inst,
            para@,
            Seq::new(subs@.len(), |i: int| if 0 <= i < subs@.len() { tree_of(subs@[i]) } else { IrTree::Bytecodes(Seq::empty()) }),
        ),
    }
}

/// The models of a list of nodes.
pub open spec fn trees_of(v: Seq<IrNode>) -> Seq<IrTree> {
    Seq::new(v.len(), |i: int| tree_of(v[i]))
}

impl View for IrNode {
    type V = IrTree;

    open spec fn view(&self) -> IrTree {
        tree_of(*self)
    }
}

/// The opcode a node stands for.
pub open spec fn tree_inst(t: IrTree) -> Bytecode {
    match t {
        IrTree::Bytecodes(_) => Bytecode::IRBYTECODE,
        IrTree::Array(inst, _) => inst,
        IrTree::Op(_, inst, _, _) => inst,
    }
}

/// Whether a node leaves a value on the stack: an instruction as declared, a
/// list as its last item, a block expression always, a statement block and raw
/// bytecode never.
pub open spec fn tree_has_ret(t: IrTree) -> bool
    decreases t,
{
    match t {
        IrTree::Bytecodes(_) => false,
        IrTree::Array(inst, subs) => {
            if inst == Bytecode::IRLIST {
                subs.len() > 0 && tree_has_ret(subs.last())
            } else {
                inst == Bytecode::IRBLOCKR
            }
        },
        IrTree::Op(hrtv, _, _, _) => hrtv,
    }
}

impl IrNode {
    /// An empty `IRLIST` container.
    pub fn new_list() -> (r: IrNode)
        ensures
            r@ == IrTree::Array(Bytecode::IRLIST, Seq::empty()),
    {
        let r = IrNode::Array { inst: Bytecode::IRLIST, subs: Vec::new() };
        assert(r@ matches IrTree::Array(i, s) && i == Bytecode::IRLIST && s =~= Seq::<IrTree>::empty());
        r
    }

    /// An empty `IRBLOCK` container.
    pub fn new_block() -> (r: IrNode)
        ensures
            r@ == IrTree::Array(Bytecode::IRBLOCK, Seq::empty()),
    {
        let r = IrNode::Array { inst: Bytecode::IRBLOCK, subs: Vec::new() };
        assert(r@ matches IrTree::Array(i, s) && i == Bytecode::IRBLOCK && s =~= Seq::<IrTree>::empty());
        r
    }

    /// A leaf instruction with no immediates and no operands.
    pub fn leaf(hrtv: bool, inst: Bytecode) -> (r: IrNode)
        ensures
            r@ == IrTree::Op(hrtv, inst, Seq::empty(), Seq::empty()),
    {
        let r = IrNode::Op { hrtv, inst, para: Vec::new(), subs: Vec::new() };
        assert(r@ matches IrTree::Op(h, i, p, s) && h == hrtv && i == inst && p =~= Seq::<u8>::empty() && s =~= Seq::<IrTree>::empty());
        r
    }

    /// The opcode this node stands for.
    pub fn bytecode(&self) -> (r: Bytecode)
        ensures
            r == tree_inst(self@),
    {
        match self {
            IrNode::Bytecodes(_) => Bytecode::IRBYTECODE,
            IrNode::Array { inst, .. } => *inst,
            IrNode::Op { inst, .. } => *inst,
        }
    }

    /// Whether this node leaves a value on the stack.
    pub fn hasretval(&self) -> (r: bool)
        ensures
            r == tree_has_ret(self@),
        decreases self,
    {
        match self {
            IrNode::Bytecodes(_) => false,
            IrNode::Array { inst, subs } => {
                if *inst == Bytecode::IRLIST {
                    let n = subs.len();
                    if n == 0 {
                        false
                    } else {
                        let r = subs[n - 1].hasretval();
                        assert(tree_of(*self) matches IrTree::Array(_, ts) && ts.last() == tree_of(subs@[n - 1]));
                        r
                    }
                } else {
                    *inst == Bytecode::IRBLOCKR
                }
            },
            IrNode::Op { hrtv, .. } => *hrtv,
        }
    }
}

} // verus!

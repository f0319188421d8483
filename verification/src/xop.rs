//! Local-slot operand and logic marks: one byte holding an operator in its
//! high bits and a local slot index in its low bits.

use vstd::prelude::*;
use crate::error::{ItrErr, ItrErrCode, VmrtRes};

verus! {

/// Compound assignment operator applied to a local slot.
#[derive(PartialEq, Eq, Structural, Debug, Clone, Copy)]
pub enum LxOp {
    Add,
    Sub,
    Mul,
    Div,
}

/// Logic or comparison operator applied to a local slot.
#[derive(PartialEq, Eq, Structural, Debug, Clone, Copy)]
pub enum LxLg {
    And,
    Or,
    Eq,
    Ne,
    Gt,
    Ge,
    Lt,
    Le,
}

/// Largest slot index an operand mark can hold (6 bits).
pub const LXOP_MAX_IDX: u8 = 63u8;

/// Largest slot index a logic mark can hold (5 bits).
pub const LXLG_MAX_IDX: u8 = 31u8;

pub open spec fn lxop_bits(op: LxOp) -> u8 {
    match op {
        LxOp::Add => 0,
        LxOp::Sub => 1,
        LxOp::Mul => 2,
        LxOp::Div => 3,
    }
}

pub open spec fn lxop_from_bits(b: u8) -> LxOp {
    if b == 0 {
        LxOp::Add
    } else if b == 1 {
        LxOp::Sub
    } else if b == 2 {
        LxOp::Mul
    } else {
        LxOp::Div
    }
}

pub open spec fn lxlg_bits(op: LxLg) -> u8 {
    match op {
        LxLg::And => 0,
        LxLg::Or => 1,
        LxLg::Eq => 2,
        LxLg::Ne => 3,
        LxLg::Gt => 4,
        LxLg::Ge => 5,
        LxLg::Lt => 6,
        LxLg::Le => 7,
    }
}

pub open spec fn lxlg_from_bits(b: u8) -> LxLg {
    if b == 0 {
        LxLg::And
    } else if b == 1 {
        LxLg::Or
    } else if b == 2 {
        LxLg::Eq
    } else if b == 3 {
        LxLg::Ne
    } else if b == 4 {
        LxLg::Gt
    } else if b == 5 {
        LxLg::Ge
    } else if b == 6 {
        LxLg::Lt
    } else {
        LxLg::Le
    }
}

/// The operand mark of `op` on slot `idx`: operator in the top 2 bits.
pub open spec fn spec_operand_mark(op: LxOp, idx: u8) -> int {
    lxop_bits(op) * 64 + idx
}

/// The logic mark of `op` on slot `idx`: operator in the top 3 bits.
pub open spec fn spec_logic_mark(op: LxLg, idx: u8) -> int {
    lxlg_bits(op) * 32 + idx
}

impl LxOp {
    fn bits(self) -> (r: u8)
        ensures
            r == lxop_bits(self),
    {
        match self {
            LxOp::Add => 0,
            LxOp::Sub => 1,
            LxOp::Mul => 2,
            LxOp::Div => 3,
        }
    }

    fn from_bits(opt: u8) -> (r: LxOp)
        requires
            opt <= 3,
        ensures
            r == lxop_from_bits(opt),
    {
        if opt == 0 {
            LxOp::Add
        } else if opt == 1 {
            LxOp::Sub
        } else if opt == 2 {
            LxOp::Mul
        } else {
            LxOp::Div
        }
    }

    /// The source symbol of the operator.
    pub fn symbol(self) -> (r: &'static str)
        ensures
            r@ == lxop_symbol(self),
    {
        match self {
            LxOp::Add => "+=",
            LxOp::Sub => "-=",
            LxOp::Mul => "*=",
            LxOp::Div => "/=",
        }
    }
}

pub open spec fn lxop_symbol(op: LxOp) -> Seq<char> {
    match op {
        LxOp::Add => "+="@,
        LxOp::Sub => "-="@,
        LxOp::Mul => "*="@,
        LxOp::Div => "/="@,
    }
}

pub open spec fn lxlg_symbol(op: LxLg) -> Seq<char> {
    match op {
        LxLg::And => "&&"@,
        LxLg::Or => "||"@,
        LxLg::Eq => "=="@,
        LxLg::Ne => "!="@,
        LxLg::Gt => ">"@,
        LxLg::Ge => ">="@,
        LxLg::Lt => "<"@,
        LxLg::Le => "<="@,
    }
}

impl LxLg {
    fn bits(self) -> (r: u8)
        ensures
            r == lxlg_bits(self),
    {
        match self {
            LxLg::And => 0,
            LxLg::Or => 1,
            LxLg::Eq => 2,
            LxLg::Ne => 3,
            LxLg::Gt => 4,
            LxLg::Ge => 5,
            LxLg::Lt => 6,
            LxLg::Le => 7,
        }
    }

    fn from_bits(opt: u8) -> (r: LxLg)
        requires
            opt <= 7,
        ensures
            r == lxlg_from_bits(opt),
    {
        if opt == 0 {
            LxLg::And
        } else if opt == 1 {
            LxLg::Or
        } else if opt == 2 {
            LxLg::Eq
        } else if opt == 3 {
            LxLg::Ne
        } else if opt == 4 {
            LxLg::Gt
        } else if opt == 5 {
            LxLg::Ge
        } else if opt == 6 {
            LxLg::Lt
        } else {
            LxLg::Le
        }
    }

    /// The source symbol of the operator.
    pub fn symbol(self) -> (r: &'static str)
        ensures
            r@ == lxlg_symbol(self),
    {
        match self {
            LxLg::And => "&&",
            LxLg::Or => "||",
            LxLg::Eq => "==",
            LxLg::Ne => "!=",
            LxLg::Gt => ">",
            LxLg::Ge => ">=",
            LxLg::Lt => "<",
            LxLg::Le => "<=",
        }
    }
}

/// Encode `op` on slot `idx` into one byte; fails with `InstParamsErr` when the
/// index does not fit 6 bits.
pub fn encode_local_operand_mark(op: LxOp, idx: u8) -> (r: VmrtRes<u8>)
    ensures
        idx <= LXOP_MAX_IDX ==> (r matches Ok(m) && m == spec_operand_mark(op, idx)),
        idx > LXOP_MAX_IDX ==> (r matches Err(e) && e.0 == ItrErrCode::InstParamsErr),
{
    if idx > LXOP_MAX_IDX {
        return Err(ItrErr::new(ItrErrCode::InstParamsErr, "local operand idx out of range"));
    }
    let b = op.bits();
    assert(b <= 3 && idx <= 63 ==> ((b << 6u8) | idx) == b * 64 + idx) by (bit_vector);
    Ok((b << 6u8) | idx)
}

/// Encode `op` on slot `idx` into one byte; fails with `InstParamsErr` when the
/// index does not fit 5 bits.
pub fn encode_local_logic_mark(op: LxLg, idx: u8) -> (r: VmrtRes<u8>)
    ensures
        idx <= LXLG_MAX_IDX ==> (r matches Ok(m) && m == spec_logic_mark(op, idx)),
        idx > LXLG_MAX_IDX ==> (r matches Err(e) && e.0 == ItrErrCode::InstParamsErr),
{
    if idx > LXLG_MAX_IDX {
        return Err(ItrErr::new(ItrErrCode::InstParamsErr, "local logic idx out of range"));
    }
    let b = op.bits();
    assert(b <= 7 && idx <= 31 ==> ((b << 5u8) | idx) == b * 32 + idx) by (bit_vector);
    Ok((b << 5u8) | idx)
}

/// Split an operand mark into its operator (top 2 bits) and slot (low 6 bits).
pub fn decode_local_operand_mark(mark: u8) -> (r: (LxOp, u8))
    ensures
        r.0 == lxop_from_bits((mark / 64) as u8),
        r.1 == mark % 64,
{
    let opt = mark >> 6u8;
    let idx = mark & LXOP_MAX_IDX;
    assert(mark >> 6u8 == mark / 64 && mark & 63u8 == mark % 64) by (bit_vector);
    (LxOp::from_bits(opt), idx)
}

/// Split a logic mark into its operator (top 3 bits) and slot (low 5 bits).
pub fn decode_local_logic_mark(mark: u8) -> (r: (LxLg, u8))
    ensures
        r.0 == lxlg_from_bits((mark / 32) as u8),
        r.1 == mark % 32,
{
    let opt = mark >> 5u8;
    let idx = mark & LXLG_MAX_IDX;
    assert(mark >> 5u8 == mark / 32 && mark & 31u8 == mark % 32) by (bit_vector);
    (LxLg::from_bits(opt), idx)
}

/// The operator symbol and slot index of an operand mark.
pub fn local_operand_param_parse(mark: u8) -> (r: (String, u8))
    ensures
        r.0@ == lxop_symbol(lxop_from_bits((mark / 64) as u8)),
        r.1 == mark % 64,
{
    let (op, idx) = decode_local_operand_mark(mark);
    (op.symbol().to_owned(), idx)
}

/// The operator symbol and slot index of a logic mark.
pub fn local_logic_param_parse(mark: u8) -> (r: (String, u8))
    ensures
        r.0@ == lxlg_symbol(lxlg_from_bits((mark / 32) as u8)),
        r.1 == mark % 32,
{
    let (op, idx) = decode_local_logic_mark(mark);
    (op.symbol().to_owned(), idx)
}

/// Decoding an encoded operand mark gives back the operator and the slot.
pub proof fn lemma_operand_mark_roundtrip(op: LxOp, idx: u8)
    requires
        idx <= LXOP_MAX_IDX,
    ensures
        0 <= spec_operand_mark(op, idx) <= 255,
        lxop_from_bits((spec_operand_mark(op, idx) / 64) as u8) == op,
        spec_operand_mark(op, idx) % 64 == idx,
{
}

/// Every byte is an operand mark: re-encoding a decoded byte gives the byte back.
pub proof fn lemma_operand_mark_total(mark: u8)
    ensures
        spec_operand_mark(lxop_from_bits((mark / 64) as u8), (mark % 64) as u8) == mark,
{
}

/// Decoding an encoded logic mark gives back the operator and the slot.
pub proof fn lemma_logic_mark_roundtrip(op: LxLg, idx: u8)
    requires
        idx <= LXLG_MAX_IDX,
    ensures
        0 <= spec_logic_mark(op, idx) <= 255,
        lxlg_from_bits((spec_logic_mark(op, idx) / 32) as u8) == op,
        spec_logic_mark(op, idx) % 32 == idx,
{
}

/// Every byte is a logic mark: re-encoding a decoded byte gives the byte back.
pub proof fn lemma_logic_mark_total(mark: u8)
    ensures
        spec_logic_mark(lxlg_from_bits((mark / 32) as u8), (mark % 32) as u8) == mark,
{
}

} // verus!

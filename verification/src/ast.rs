//! The syntax tree of the contract language: leaves, assignments, binary
//! operators and operator children, with the expression check each makes.

use vstd::prelude::*;
use crate::error::{ItrErr, ItrErrCode};
use crate::lang::OpTy;

verus! {

/// A syntax tree node.
#[derive(Debug)]
pub enum Ast {
    Null,
    Block(Vec<Ast>),
    Assign(AstAssign),
    Leaf(AstLeaf),
    Operand(AstOperand),
    Child(AstChild),
}

/// Whether a node is an expression (it yields a value): leaves and binary
/// operators are, the rest is not.
pub open spec fn spec_is_expr(a: Ast) -> bool {
    match a {
        Ast::Leaf(_) => true,
        Ast::Operand(_) => true,
        _ => false,
    }
}

impl Ast {
    /// Whether this node yields a value.
    pub fn expression(&self) -> (r: bool)
        ensures
            r == spec_is_expr(*self),
    {
        match self {
            Ast::Leaf(_) => true,
            Ast::Operand(_) => true,
            _ => false,
        }
    }

    /// Whether this is the empty node.
    pub fn is_null(&self) -> (r: bool)
        ensures
            r == (*self is Null),
    {
        match self {
            Ast::Null => true,
            _ => false,
        }
    }
}

/// The empty node.
#[derive(Debug)]
pub struct AstNull {}

impl AstNull {
    /// The empty node.
    pub fn null() -> (r: Ast)
        ensures
            r is Null,
    {
        Ast::Null
    }
}

/// An assignment of an expression to a name.
#[derive(Debug)]
pub struct AstAssign {
    pub name: String,
    pub value: Box<Ast>,
}

impl AstAssign {
    /// Assign `v` to `n`; `v` must be an expression.
    pub fn build(n: &str, v: Ast) -> (r: Result<AstAssign, ItrErr>)
        ensures
            spec_is_expr(v) ==> (r matches Ok(a) && a.name@ == n@ && *a.value == v),
            !spec_is_expr(v) ==> (r matches Err(e) && e.0 == ItrErrCode::CompileError),
    {
        if !v.expression() {
            return Err(ItrErr::new(ItrErrCode::CompileError, "AstAssign sub not expression"));
        }
        Ok(AstAssign { name: n.to_owned(), value: Box::new(v) })
    }
}

/// A literal or a variable.
#[derive(Debug)]
pub enum AstLeaf {
    Int(u128),
    Buf(String),
    Var(String),
}

impl AstLeaf {
    /// An integer literal.
    pub fn integer(v: u128) -> (r: AstLeaf)
        ensures
            r == AstLeaf::Int(v),
    {
        AstLeaf::Int(v)
    }

    /// A buffer literal.
    pub fn buf(v: &str) -> (r: AstLeaf)
        ensures
            r matches AstLeaf::Buf(s) && s@ == v@,
    {
        AstLeaf::Buf(v.to_owned())
    }

    /// A variable.
    pub fn var(v: &str) -> (r: AstLeaf)
        ensures
            r matches AstLeaf::Var(s) && s@ == v@,
    {
        AstLeaf::Var(v.to_owned())
    }

    /// The name of a variable node; any other node is an error.
    pub fn must_identifier(d: &Ast) -> (r: Result<String, ItrErr>)
        ensures
            match d {
                Ast::Leaf(AstLeaf::Var(id)) => r matches Ok(s) && s@ == id@,
                _ => r matches Err(e) && e.0 == ItrErrCode::CompileError,
            },
    {
        match d {
            Ast::Leaf(AstLeaf::Var(id)) => Ok(id.clone()),
            _ => Err(ItrErr::new(ItrErrCode::CompileError, "unsupport assign")),
        }
    }
}

/// A binary operator over two expressions.
#[derive(Debug)]
pub struct AstOperand {
    pub opty: OpTy,
    pub left: Box<Ast>,
    pub right: Box<Ast>,
}

impl AstOperand {
    /// `left opty right`; both sides must be expressions.
    pub fn build(opty: OpTy, left: Ast, right: Ast) -> (r: Result<AstOperand, ItrErr>)
        ensures
            spec_is_expr(left) && spec_is_expr(right) ==> (r matches Ok(a) && a.opty == opty && *a.left == left && *a.right == right),
            !(spec_is_expr(left) && spec_is_expr(right)) ==> (r matches Err(e) && e.0 == ItrErrCode::CompileError),
    {
        if !left.expression() {
            return Err(ItrErr::new(ItrErrCode::CompileError, "AstOperand left sub not expression"));
        }
        if !right.expression() {
            return Err(ItrErr::new(ItrErrCode::CompileError, "AstOperand right sub not expression"));
        }
        Ok(AstOperand { opty, left: Box::new(left), right: Box::new(right) })
    }
}

/// An operator applied to one expression.
#[derive(Debug)]
pub struct AstChild {
    pub opty: OpTy,
    pub subv: Box<Ast>,
}

impl AstChild {
    /// `opty subv`; `subv` must be an expression.
    pub fn build(opty: OpTy, subv: Ast) -> (r: Result<AstChild, ItrErr>)
        ensures
            spec_is_expr(subv) ==> (r matches Ok(a) && a.opty == opty && *a.subv == subv),
            !spec_is_expr(subv) ==> (r matches Err(e) && e.0 == ItrErrCode::CompileError),
    {
        if !subv.expression() {
            return Err(ItrErr::new(ItrErrCode::CompileError, "AstChild sub not expression"));
        }
        Ok(AstChild { opty, subv: Box::new(subv) })
    }
}

} // verus!

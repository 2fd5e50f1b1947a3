//! Values and expressions of elaborated designs.

use vstd::prelude::*;
use crate::number::LogicVec;
use crate::source::Spanned;
use crate::syntax::ast::{HierId, Scope, UnaryOp};
use super::ty::Ty;

verus! {

/// Values of parameters.
#[derive(Debug, PartialEq)]
pub enum Val {
    Type(Ty),
    Int(LogicVec),
    FixStr(String),
}

/// Elaborated expressions.
#[derive(Debug, PartialEq)]
pub enum ExprKind {
    Const(Ty, Val),
    EmptyQueue,
    HierName(Option<Scope>, Spanned<HierId>),
    Concat(Vec<Expr>),
    Unary(UnaryOp, Box<Expr>),
    Paren(Box<Expr>),
    Cond(Box<Expr>, Box<Expr>, Box<Expr>),
}

pub type Expr = Spanned<ExprKind>;

} // verus!

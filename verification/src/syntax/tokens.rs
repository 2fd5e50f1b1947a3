//! Tokens that syntax trees carry as literals.

use vstd::prelude::*;
use crate::number::{copy_logic_number, view_logic_number, LogicNumber, SpecLogicNumber};
use crate::source::Spanned;

verus! {

/// The kinds of literal token kept in syntax trees.
#[derive(Debug, PartialEq)]
pub enum TokenKind {
    IntegerLiteral(LogicNumber),
    StringLiteral(String),
}

pub type Token = Spanned<TokenKind>;

/// What a `TokenKind` holds, with text as a sequence of characters.
pub enum SpecTokenKind {
    IntegerLiteral(SpecLogicNumber),
    StringLiteral(Seq<char>),
}

pub type SpecToken = Spanned<SpecTokenKind>;

pub open spec fn view_token(t: Token) -> SpecToken {
    Spanned {
        value: match t.value {
            TokenKind::IntegerLiteral(n) => SpecTokenKind::IntegerLiteral(view_logic_number(n)),
            TokenKind::StringLiteral(s) => SpecTokenKind::StringLiteral(s@),
        },
        span: t.span,
    }
}

pub fn copy_token(t: &Token) -> (r: Token)
    ensures
        view_token(r) == view_token(*t),
{
    let value = match &t.value {
        TokenKind::IntegerLiteral(n) => TokenKind::IntegerLiteral(copy_logic_number(n)),
        TokenKind::StringLiteral(s) => TokenKind::StringLiteral(s.clone()),
    };
    Spanned { value, span: t.span }
}

} // verus!

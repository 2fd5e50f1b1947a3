//! Source positions attached to syntax nodes.

use vstd::prelude::*;

verus! {

/// A range of characters in the source text.
#[derive(Debug, Clone, Copy, PartialEq, Eq, Structural)]
pub struct Span {
    pub start: usize,
    pub end: usize,
}

impl Span {
    /// The span of a node that no source text gave rise to.
    pub open spec fn spec_none() -> Span {
        Span { start: 0, end: 0 }
    }

    /// The span of a node that no source text gave rise to.
    pub fn none() -> (s: Span)
        ensures
            s == Span::spec_none(),
    {
        Span { start: 0, end: 0 }
    }
}

/// A value together with the span it stands for.
#[derive(Debug, PartialEq)]
pub struct Spanned<T> {
    pub value: T,
    pub span: Span,
}

impl<T> Spanned<T> {
    pub fn new(value: T, span: Span) -> (r: Spanned<T>)
        ensures
            r.value == value,
            r.span == span,
    {
        Spanned { value, span }
    }

    pub fn new_unspanned(value: T) -> (r: Spanned<T>)
        ensures
            r.value == value,
            r.span == Span::spec_none(),
    {
        Spanned { value, span: Span::none() }
    }
}

} // verus!

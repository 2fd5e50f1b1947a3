//! Types of elaborated designs.
//!
//! Each type has a twin whose name begins with `Spec`, with lists as `Seq`;
//! `view_*` gives the twin of a type, and `eq_*` tells whether two types
//! have the same twin.

use vstd::prelude::*;
use vstd::pervasive::arbitrary;
use vstd::std_specs::vec::axiom_vec_index_decreases;
use crate::number::{eq_logic_vec, view_logic_vec, LogicVec, SpecLogicVec};
use crate::syntax::ast::{eq_ident, view_ident, Ident, SpecIdent};

verus! {

/// Integral types.
#[derive(Debug, PartialEq)]
pub enum IntTy {
    /// An array of the element type, with its upper and lower bound.
    Array(Box<IntTy>, i32, i32),
    /// A single bit: whether it is two-state, whether it is signed.
    Logic(bool, bool),
    /// A packed vector: its width, whether it is two-state, whether it is signed.
    SimpleVec(usize, bool, bool),
    Struct(Box<Struct>),
    Enum(Box<Enum>),
}

/// A packed struct type: its members (type, name, default value) and
/// whether it is signed.
#[derive(Debug, PartialEq)]
pub struct Struct {
    pub members: Vec<(IntTy, Ident, Option<LogicVec>)>,
    pub sign: bool,
}

/// An enum type: its base type and its elements with their values.
#[derive(Debug, PartialEq)]
pub struct Enum {
    pub base: IntTy,
    pub elements: Vec<(Ident, LogicVec)>,
}

/// Types of parameters, ports and expressions.
#[derive(Debug, PartialEq)]
pub enum Ty {
    /// The type of type parameters.
    Type,
    Int(IntTy),
    String,
    /// A string of a fixed number of characters.
    FixStr(usize),
}

pub enum SpecIntTy {
    Array(Box<SpecIntTy>, i32, i32),
    Logic(bool, bool),
    SimpleVec(usize, bool, bool),
    Struct(Box<SpecStruct>),
    Enum(Box<SpecEnum>),
}

pub struct SpecStruct {
    pub members: Seq<(SpecIntTy, SpecIdent, Option<SpecLogicVec>)>,
    pub sign: bool,
}

pub struct SpecEnum {
    pub base: SpecIntTy,
    pub elements: Seq<(SpecIdent, SpecLogicVec)>,
}

pub open spec fn view_int_ty(t: IntTy) -> SpecIntTy
    decreases t,
{
    match t {
        IntTy::Array(e, ub, lb) => SpecIntTy::Array(Box::new(view_int_ty(*e)), ub, lb),
        IntTy::Logic(two_state, sign) => SpecIntTy::Logic(two_state, sign),
        IntTy::SimpleVec(width, two_state, sign) => SpecIntTy::SimpleVec(width, two_state, sign),
        IntTy::Struct(s) => SpecIntTy::Struct(Box::new(view_struct(*s))),
        IntTy::Enum(e) => SpecIntTy::Enum(Box::new(view_enum(*e))),
    }
}

pub open spec fn view_member(m: (IntTy, Ident, Option<LogicVec>)) -> (SpecIntTy, SpecIdent, Option<SpecLogicVec>)
    decreases m,
{
    (
        view_int_ty(m.0),
        view_ident(m.1),
        match m.2 {
            Some(v) => Some(view_logic_vec(v)),
            None => None,
        },
    )
}

pub open spec fn view_struct(s: Struct) -> SpecStruct
    decreases s,
{
    SpecStruct {
        members: Seq::new(
            s.members@.len(),
            |i: int| if 0 <= i < s.members@.len() { view_member(s.members@[i]) } else { arbitrary() },
        ),
        sign: s.sign,
    }
}

pub open spec fn view_element(e: (Ident, LogicVec)) -> (SpecIdent, SpecLogicVec) {
    (view_ident(e.0), view_logic_vec(e.1))
}

pub open spec fn view_enum(e: Enum) -> SpecEnum
    decreases e,
{
    SpecEnum {
        base: view_int_ty(e.base),
        elements: Seq::new(e.elements@.len(), |i: int| view_element(e.elements@[i])),
    }
}

/// Whether two integral types are the same.
pub fn eq_int_ty(a: &IntTy, b: &IntTy) -> (r: bool)
    ensures
        r == (view_int_ty(*a) == view_int_ty(*b)),
    decreases a,
{
    match (a, b) {
        (IntTy::Array(ea, ua, la), IntTy::Array(eb, ub, lb)) => *ua == *ub && *la == *lb && eq_int_ty(&**ea, &**eb),
        (IntTy::Logic(ta, sa), IntTy::Logic(tb, sb)) => *ta == *tb && *sa == *sb,
        (IntTy::SimpleVec(wa, ta, sa), IntTy::SimpleVec(wb, tb, sb)) => *wa == *wb && *ta == *tb && *sa == *sb,
        (IntTy::Struct(sa), IntTy::Struct(sb)) => eq_struct(&**sa, &**sb),
        (IntTy::Enum(ea), IntTy::Enum(eb)) => eq_enum(&**ea, &**eb),
        _ => false,
    }
}

fn eq_opt_logic_vec(a: &Option<LogicVec>, b: &Option<LogicVec>) -> (r: bool)
    ensures
        r == ((match *a {
            Some(v) => Some(view_logic_vec(v)),
            None => None,
        }) == (match *b {
            Some(v) => Some(view_logic_vec(v)),
            None => None,
        })),
{
    match (a, b) {
        (Some(va), Some(vb)) => eq_logic_vec(va, vb),
        (None, None) => true,
        _ => false,
    }
}

/// Whether two struct types are the same.
pub fn eq_struct(a: &Struct, b: &Struct) -> (r: bool)
    ensures
        r == (view_struct(*a) == view_struct(*b)),
    decreases a,
{
    if a.sign != b.sign {
        return false;
    }
    if a.members.len() != b.members.len() {
        assert(view_struct(*a).members.len() != view_struct(*b).members.len());
        return false;
    }
    let mut i: usize = 0;
    while i < a.members.len()
        invariant
            a.members@.len() == b.members@.len(),
            i <= a.members@.len(),
            forall|j: int| 0 <= j < i ==> view_member(#[trigger] a.members@[j]) == view_member(b.members@[j]),
        decreases a.members@.len() - i,
    {
        proof {
            axiom_vec_index_decreases(a.members, i as int);
        }
        let (ta, na, va) = &a.members[i];
        let (tb, nb, vb) = &b.members[i];
        let same = eq_int_ty(ta, tb) && eq_ident(na, nb) && eq_opt_logic_vec(va, vb);
        if !same {
            assert(view_struct(*a).members[i as int] != view_struct(*b).members[i as int]);
            return false;
        }
        i = i + 1;
    }
    assert(view_struct(*a).members =~= view_struct(*b).members);
    true
}

/// Whether two enum types are the same.
pub fn eq_enum(a: &Enum, b: &Enum) -> (r: bool)
    ensures
        r == (view_enum(*a) == view_enum(*b)),
    decreases a,
{
    if !eq_int_ty(&a.base, &b.base) || a.elements.len() != b.elements.len() {
        return false;
    }
    let mut i: usize = 0;
    while i < a.elements.len()
        invariant
            a.elements@.len() == b.elements@.len(),
            view_int_ty(a.base) == view_int_ty(b.base),
            i <= a.elements@.len(),
            forall|j: int| 0 <= j < i ==> view_element(#[trigger] a.elements@[j]) == view_element(b.elements@[j]),
        decreases a.elements@.len() - i,
    {
        let (na, va) = &a.elements[i];
        let (nb, vb) = &b.elements[i];
        if !(eq_ident(na, nb) && eq_logic_vec(va, vb)) {
            assert(view_enum(*a).elements[i as int] != view_enum(*b).elements[i as int]);
            return false;
        }
        i = i + 1;
    }
    assert(view_enum(*a).elements =~= view_enum(*b).elements);
    true
}

} // verus!

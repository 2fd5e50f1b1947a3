//! Constant values of the hardware description language.

use vstd::prelude::*;

verus! {

/// A constant bit vector: its width in bits, whether it is signed, and the
/// integer it holds, as a sign and a magnitude of 64-bit limbs, least
/// significant first.
#[derive(Debug, PartialEq)]
pub struct LogicVec {
    pub width: usize,
    pub signed: bool,
    pub negative: bool,
    pub magnitude: Vec<u64>,
}

/// What a `LogicVec` holds, with its limbs as a sequence.
pub struct SpecLogicVec {
    pub width: usize,
    pub signed: bool,
    pub negative: bool,
    pub magnitude: Seq<u64>,
}

/// The number that limbs of 64 bits, least significant first, stand for.
pub open spec fn limbs_value(s: Seq<u64>) -> nat
    decreases s.len(),
{
    if s.len() == 0 {
        0
    } else {
        (s[0] + 0x1_0000_0000_0000_0000 * limbs_value(s.drop_first())) as nat
    }
}

impl SpecLogicVec {
    /// The integer the vector holds.
    pub open spec fn value(self) -> int {
        if self.negative {
            -(limbs_value(self.magnitude) as int)
        } else {
            limbs_value(self.magnitude) as int
        }
    }
}

pub open spec fn view_logic_vec(v: LogicVec) -> SpecLogicVec {
    SpecLogicVec { width: v.width, signed: v.signed, negative: v.negative, magnitude: v.magnitude@ }
}

/// The magnitude of an integer.
pub open spec fn magnitude_of(v: int) -> int {
    if v < 0 {
        -v
    } else {
        v
    }
}

/// A single logic value.
#[derive(Debug, Clone, Copy, PartialEq, Eq, Structural)]
pub enum LogicValue {
    Zero,
    One,
}

impl LogicVec {
    /// The vector of `width` bits, signed or not, that holds `value`.
    pub fn from(width: usize, signed: bool, value: i64) -> (r: LogicVec)
        ensures
            view_logic_vec(r) == (SpecLogicVec {
                width,
                signed,
                negative: value < 0,
                magnitude: seq![magnitude_of(value as int) as u64],
            }),
            view_logic_vec(r).value() == value,
    {
        let m: u64 = if value < 0 { (-(value + 1)) as u64 + 1 } else { value as u64 };
        let mut magnitude: Vec<u64> = Vec::new();
        magnitude.push(m);
        let r = LogicVec { width, signed, negative: value < 0, magnitude };
        assert(limbs_value(r.magnitude@.drop_first()) == 0);
        r
    }

    /// The vector of `width` bits, signed or not, that holds the
    /// non-negative `value`.
    pub fn from_unsigned(width: usize, signed: bool, value: u64) -> (r: LogicVec)
        ensures
            view_logic_vec(r) == (SpecLogicVec { width, signed, negative: false, magnitude: seq![value] }),
            view_logic_vec(r).value() == value,
    {
        let mut magnitude: Vec<u64> = Vec::new();
        magnitude.push(value);
        let r = LogicVec { width, signed, negative: false, magnitude };
        assert(limbs_value(r.magnitude@.drop_first()) == 0);
        r
    }

    /// The one-bit unsigned vector that holds a single logic value.
    pub open spec fn spec_from_logic_value(v: LogicValue) -> SpecLogicVec {
        SpecLogicVec {
            width: 1,
            signed: false,
            negative: false,
            magnitude: seq![
                match v {
                    LogicValue::Zero => 0u64,
                    LogicValue::One => 1u64,
                },
            ],
        }
    }

    /// The one-bit unsigned vector that holds a single logic value.
    pub fn from_logic_value(v: LogicValue) -> (r: LogicVec)
        ensures
            view_logic_vec(r) == LogicVec::spec_from_logic_value(v),
    {
        match v {
            LogicValue::Zero => LogicVec::from_unsigned(1, false, 0),
            LogicValue::One => LogicVec::from_unsigned(1, false, 1),
        }
    }
}

pub fn copy_logic_vec(v: &LogicVec) -> (r: LogicVec)
    ensures
        view_logic_vec(r) == view_logic_vec(*v),
{
    let mut magnitude: Vec<u64> = Vec::new();
    let mut i: usize = 0;
    while i < v.magnitude.len()
        invariant
            i <= v.magnitude@.len(),
            magnitude@ == v.magnitude@.subrange(0, i as int),
        decreases v.magnitude@.len() - i,
    {
        magnitude.push(v.magnitude[i]);
        i = i + 1;
        assert(magnitude@ =~= v.magnitude@.subrange(0, i as int));
    }
    assert(magnitude@ =~= v.magnitude@);
    LogicVec { width: v.width, signed: v.signed, negative: v.negative, magnitude }
}

/// Whether two vectors are the same: same width, signing, sign and limbs.
pub fn eq_logic_vec(a: &LogicVec, b: &LogicVec) -> (r: bool)
    ensures
        r == (view_logic_vec(*a) == view_logic_vec(*b)),
{
    if a.width != b.width || a.signed != b.signed || a.negative != b.negative
        || a.magnitude.len() != b.magnitude.len() {
        return false;
    }
    let mut i: usize = 0;
    while i < a.magnitude.len()
        invariant
            a.magnitude@.len() == b.magnitude@.len(),
            i <= a.magnitude@.len(),
            forall|j: int| 0 <= j < i ==> a.magnitude@[j] == b.magnitude@[j],
        decreases a.magnitude@.len() - i,
    {
        if a.magnitude[i] != b.magnitude[i] {
            return false;
        }
        i = i + 1;
    }
    assert(a.magnitude@ =~= b.magnitude@);
    true
}

/// An integer literal: its value, and whether the source gave its width.
#[derive(Debug, PartialEq)]
pub struct LogicNumber {
    pub value: LogicVec,
    pub sized: bool,
}

pub struct SpecLogicNumber {
    pub value: SpecLogicVec,
    pub sized: bool,
}

pub open spec fn view_logic_number(n: LogicNumber) -> SpecLogicNumber {
    SpecLogicNumber { value: view_logic_vec(n.value), sized: n.sized }
}

pub fn copy_logic_number(n: &LogicNumber) -> (r: LogicNumber)
    ensures
        view_logic_number(r) == view_logic_number(*n),
{
    LogicNumber { value: copy_logic_vec(&n.value), sized: n.sized }
}

} // verus!

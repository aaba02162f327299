//! The scaling laws between a real parameter value and a [`Normal`].
//!
//! Real values are fixed-point integers: a stepped range counts whole steps,
//! the other ranges count `VALUE_ONE`ths of their unit (a decibel, say).

use vstd::prelude::*;

use crate::normal::{clamp, Normal, NORMAL_ONE};

pub mod linear;
pub mod log_db;
pub mod rounding;

pub use crate::range::linear::{
    lemma_int_range_ends, lemma_linear_round_trip, lemma_stepped_normal_round_trip,
    linear_to_normal, linear_to_value, FloatRange, IntRange,
};
pub use crate::range::log_db::{db_to_normal, db_to_value, lemma_db_round_trip, LogDBRange};

verus! {

/// Fixed-point scale of real values: one unit is `VALUE_ONE` counts.
pub const VALUE_ONE: i64 = 1_000_000_000_000;

/// One of the scaling laws, chosen at run time. All values are `i64`: steps
/// for `Int`, `VALUE_ONE`ths for the others.
#[derive(Debug, Clone, Copy, PartialEq, Eq, Structural)]
pub enum Range {
    /// A linear range.
    Float(FloatRange),
    /// A range of whole steps.
    Int(IntRange),
    /// A decibel range.
    LogDB(LogDBRange),
}

impl Range {
    /// The value at `normal` under this range's law.
    pub open spec fn value_at(self, n: int) -> int {
        match self {
            Range::Float(f) => linear_to_value(f@.0, f@.1, n),
            Range::Int(i) => linear_to_value(i@.0, i@.1, n),
            Range::LogDB(d) => db_to_value(d@.0, d@.1, d@.2, n),
        }
    }

    /// The normal of `v` under this range's law (stepped values beyond
    /// `i32` count as its ends).
    pub open spec fn normal_of(self, v: int) -> int {
        match self {
            Range::Float(f) => linear_to_normal(f@.0, f@.1, v),
            Range::Int(i) => linear_to_normal(i@.0, i@.1, v),
            Range::LogDB(d) => db_to_normal(d@.0, d@.1, d@.2, v),
        }
    }

    /// The value at `normal`.
    pub fn to_value(&self, normal: Normal) -> (r: i64)
        ensures
            r as int == self.value_at(normal@),
    {
        match self {
            Range::Float(f) => f.to_value(normal),
            Range::Int(i) => i.to_value(normal) as i64,
            Range::LogDB(d) => d.to_value(normal),
        }
    }

    /// The normal of `value`; values outside the range go to its ends.
    pub fn to_normal(&self, value: i64) -> (r: Normal)
        ensures
            r@ == self.normal_of(value as int),
    {
        match self {
            Range::Float(f) => f.to_normal(value),
            Range::Int(i) => {
                let v: i32 = if value < i32::MIN as i64 {
                    i32::MIN
                } else if value > i32::MAX as i64 {
                    i32::MAX
                } else {
                    value as i32
                };
                proof {
                    lemma_int_range_ends(*i);
                    assert(clamp(v as int, i@.0, i@.1) == clamp(value as int, i@.0, i@.1));
                }
                i.to_normal(v)
            },
            Range::LogDB(d) => d.to_normal(value),
        }
    }

    /// Moves `normal` to its nearest step on a stepped range; leaves it as
    /// it is on a continuous one. The drag state machines never snap; the
    /// consumer calls this on each change notification.
    pub fn snap_normal(&self, normal: &mut Normal)
        ensures
            final(normal)@ == (match *self {
                Range::Int(i) => linear_to_normal(i@.0, i@.1, linear_to_value(i@.0, i@.1, old(normal)@)),
                _ => old(normal)@,
            }),
    {
        match self {
            Range::Int(i) => i.snap_normal(normal),
            _ => {},
        }
    }
}

/// The ranges that a constructor can make.
pub open spec fn valid(r: Range) -> bool {
    match r {
        Range::Float(f) => f@.0 < f@.1 && f@.1 - f@.0 >= NORMAL_ONE as int,
        Range::Int(i) => i@.0 < i@.1 && i@.1 - i@.0 <= NORMAL_ONE as int,
        Range::LogDB(d) => {
            &&& d@.0 <= 0 <= d@.1
            &&& d@.0 < d@.1
            &&& 0 <= d@.2 <= NORMAL_ONE as int
            &&& -d@.0 >= d@.2 * d@.2
            &&& d@.1 >= (NORMAL_ONE - d@.2) * (NORMAL_ONE - d@.2)
        },
    }
}

/// Round trip of a normal through any range that the constructors can make:
/// a linear range gives the normal back within one millionth, a decibel
/// range gives it back exactly, and a stepped range moves it at most half a
/// step, plus one millionth for rounding.
pub proof fn lemma_range_round_trip(r: Range, n: int)
    requires
        valid(r),
        0 <= n <= NORMAL_ONE as int,
    ensures
        ({
            let back = r.normal_of(r.value_at(n));
            match r {
                Range::Int(i) => {
                    &&& 2 * (i@.1 - i@.0) * (back - n) <= NORMAL_ONE + (i@.1 - i@.0)
                    &&& 2 * (i@.1 - i@.0) * (n - back) <= NORMAL_ONE + (i@.1 - i@.0)
                },
                Range::LogDB(_) => back == n,
                Range::Float(_) => n <= back <= n + 1,
            }
        }),
{
    match r {
        Range::Float(f) => lemma_linear_round_trip(f@.0, f@.1, n),
        Range::Int(i) => lemma_stepped_normal_round_trip(i@.0, i@.1, n),
        Range::LogDB(d) => lemma_db_round_trip(d@.0, d@.1, d@.2, n),
    }
}

/// Round trip of a value through a stepped range that the constructor can
/// make: every step converted to a normal and back comes back exactly.
pub proof fn lemma_range_stepped_value_round_trip(r: Range, v: int)
    requires
        valid(r),
        r is Int,
        r->Int_0@.0 <= v <= r->Int_0@.1,
    ensures
        r.value_at(r.normal_of(v)) == v,
{
    let i = r->Int_0;
    crate::range::linear::lemma_stepped_round_trip(i@.0, i@.1, v);
}

} // verus!

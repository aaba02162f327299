//! The linear laws: continuous (`FloatRange`) and stepped (`IntRange`).

use vstd::prelude::*;

use crate::normal::{clamp, Normal, NORMAL_ONE};
use crate::param::Param;
use crate::range::rounding::{lemma_round_div, lemma_round_share, round_div};
use crate::range::VALUE_ONE;

verus! {

/// The normal of `v` on the straight line from `min` to `max`, rounded to
/// the nearest millionth; values outside the range go to its ends.
pub open spec fn linear_to_normal(min: int, max: int, v: int) -> int {
    round_div((clamp(v, min, max) - min) * NORMAL_ONE as int, max - min)
}

/// The value at normal `n` on the straight line from `min` to `max`,
/// rounded to the nearest count.
pub open spec fn linear_to_value(min: int, max: int, n: int) -> int {
    min + round_div(n * (max - min), NORMAL_ONE as int)
}

/// A linear range of fixed-point values from `min` to `max`.
///
/// A range spans at least `NORMAL_ONE` counts (a millionth of a unit), so
/// that its values are at least as fine as the normals: a normal converted to
/// a value and back then comes back within one millionth
/// (`lemma_linear_round_trip`).
#[derive(Debug, Clone, Copy, PartialEq, Eq, Structural)]
pub struct FloatRange {
    min: i64,
    max: i64,
}

impl View for FloatRange {
    type V = (int, int);

    closed spec fn view(&self) -> (int, int) {
        (self.min as int, self.max as int)
    }
}

impl FloatRange {
    #[verifier::type_invariant]
    spec fn ordered(self) -> bool {
        self.min < self.max && self.max - self.min >= NORMAL_ONE
    }

    /// The range from `min` to `max` (in `VALUE_ONE`ths), which must span at
    /// least `NORMAL_ONE` counts.
    pub fn new(min: i64, max: i64) -> (r: FloatRange)
        requires
            min < max,
            max - min >= NORMAL_ONE,
        ensures
            r@ == (min as int, max as int),
    {
        FloatRange { min, max }
    }

    /// The range from -1 to 1.
    pub fn default_bipolar() -> (r: FloatRange)
        ensures
            r@ == (-VALUE_ONE as int, VALUE_ONE as int),
    {
        FloatRange { min: -VALUE_ONE, max: VALUE_ONE }
    }

    /// The lower end.
    pub fn min(&self) -> (r: i64)
        ensures
            r == self@.0,
    {
        self.min
    }

    /// The upper end.
    pub fn max(&self) -> (r: i64)
        ensures
            r == self@.1,
    {
        self.max
    }

    /// The normal of `value`; values outside the range go to its ends.
    pub fn to_normal(&self, value: i64) -> (r: Normal)
        ensures
            r@ == linear_to_normal(self@.0, self@.1, value as int),
    {
        proof {
            use_type_invariant(self);
        }
        let v = if value < self.min {
            self.min
        } else if value > self.max {
            self.max
        } else {
            value
        };
        let span: i128 = self.max as i128 - self.min as i128;
        let offset: i128 = v as i128 - self.min as i128;
        proof {
            lemma_round_share(offset as int, NORMAL_ONE as int, span as int);
            assert(offset * NORMAL_ONE <= span * NORMAL_ONE) by (nonlinear_arith)
                requires
                    offset <= span,
            ;
        }
        let q: i128 = (2 * offset * NORMAL_ONE as i128 + span) / (2 * span);
        proof {
            assert(offset * NORMAL_ONE == NORMAL_ONE * offset) by (nonlinear_arith);
        }
        Normal::from_units(q as i64)
    }

    /// The value at `normal`.
    pub fn to_value(&self, normal: Normal) -> (r: i64)
        ensures
            r as int == linear_to_value(self@.0, self@.1, normal@),
            self@.0 <= r <= self@.1,
    {
        proof {
            use_type_invariant(self);
        }
        let n = normal.value();
        let span: i128 = self.max as i128 - self.min as i128;
        proof {
            lemma_round_share(n as int, span as int, NORMAL_ONE as int);
            assert(0 <= n * span <= NORMAL_ONE * span) by (nonlinear_arith)
                requires
                    0 <= n <= NORMAL_ONE,
                    span > 0,
            ;
        }
        let q: i128 = (2 * (n as i128 * span) + NORMAL_ONE as i128) / (2 * NORMAL_ONE as i128);
        (self.min as i128 + q) as i64
    }

    /// The value a widget starts at: the middle of the range, rounded down.
    pub fn default_value(&self) -> (r: i64)
        ensures
            r as int == self@.0 + (self@.1 - self@.0) / 2,
    {
        proof {
            use_type_invariant(self);
        }
        (self.min as i128 + (self.max as i128 - self.min as i128) / 2) as i64
    }

    /// The normal of [`FloatRange::default_value`].
    pub fn default_normal(&self) -> (r: Normal)
        ensures
            r@ == linear_to_normal(self@.0, self@.1, self@.0 + (self@.1 - self@.0) / 2),
    {
        self.to_normal(self.default_value())
    }

    /// Leaves `normal` as it is: a continuous range has no steps.
    pub fn snap_normal(&self, normal: &mut Normal)
        ensures
            *final(normal) == *old(normal),
    {
    }

    /// A parameter at `value` that resets to `default_value`.
    pub fn create_param<ID: Copy>(&self, id: ID, value: i64, default_value: i64) -> (r: Param<ID>)
        ensures
            r.id == id,
            r.normal@ == linear_to_normal(self@.0, self@.1, value as int),
            r.default_normal@ == linear_to_normal(self@.0, self@.1, default_value as int),
    {
        Param::new(id, self.to_normal(value), self.to_normal(default_value))
    }

    /// A parameter at [`FloatRange::default_value`], which it resets to.
    pub fn create_param_default<ID: Copy>(&self, id: ID) -> (r: Param<ID>)
        ensures
            r.id == id,
            r.normal@ == linear_to_normal(self@.0, self@.1, self@.0 + (self@.1 - self@.0) / 2),
            r.default_normal == r.normal,
    {
        let n = self.default_normal();
        Param::new(id, n, n)
    }
}

/// Linear round trip: on a range at least one unit of normal resolution
/// wide (`max - min >= NORMAL_ONE` counts), converting a normal to a value
/// and back lands on the normal or one millionth above it.
pub proof fn lemma_linear_round_trip(min: int, max: int, n: int)
    requires
        min < max,
        max - min >= NORMAL_ONE as int,
        0 <= n <= NORMAL_ONE as int,
    ensures
        n <= linear_to_normal(min, max, linear_to_value(min, max, n)) <= n + 1,
{
    let s = max - min;
    let one = NORMAL_ONE as int;
    let k = round_div(n * s, one);
    lemma_round_share(n, s, one);
    lemma_round_div(n * s, one);
    let m = round_div(k * one, s);
    lemma_round_div(k * one, s);
    assert(clamp(min + k, min, max) - min == k);
    assert(s * (m - n) <= s) by (nonlinear_arith)
        requires
            2 * s * m - s <= 2 * (k * one),
            2 * one * k - one <= 2 * (n * s),
            one <= s,
    ;
    assert(m - n <= 1) by (nonlinear_arith)
        requires
            s * (m - n) <= s,
            s > 0,
    ;
    assert(s * (m - n) > -s) by (nonlinear_arith)
        requires
            2 * (k * one) < 2 * s * m + s,
            2 * (n * s) < 2 * one * k + one,
            one <= s,
    ;
    assert(m - n > -1) by (nonlinear_arith)
        requires
            s * (m - n) > -s,
            s > 0,
    ;
}

/// Stepped round trip: on a stepped range with no more steps than a normal
/// has millionths, converting a value in the range to a normal and back
/// gives the value exactly.
pub proof fn lemma_stepped_round_trip(min: int, max: int, v: int)
    requires
        min < max,
        max - min <= NORMAL_ONE as int,
        min <= v <= max,
    ensures
        linear_to_value(min, max, linear_to_normal(min, max, v)) == v,
{
    let s = max - min;
    let one = NORMAL_ONE as int;
    let k = v - min;
    assert(clamp(v, min, max) == v);
    let m = round_div(k * one, s);
    lemma_round_div(k * one, s);
    lemma_round_share(k, one, s);
    let j = round_div(m * s, one);
    lemma_round_div(m * s, one);
    if s == one {
        assert(m == k) by (nonlinear_arith)
            requires
                2 * s * m - s <= 2 * (k * one),
                2 * (k * one) < 2 * s * m + s,
                s == one,
                one > 0,
        ;
    } else {
        assert(one * (j - k) < one) by (nonlinear_arith)
            requires
                2 * one * j - one <= 2 * (m * s),
                2 * s * m - s <= 2 * (k * one),
                s < one,
        ;
    }
    assert(one * (j - k) < one) by (nonlinear_arith)
        requires
            2 * one * j - one <= 2 * (m * s),
            s == one ==> m == k,
            s != one ==> one * (j - k) < one,
            one > 0,
    ;
    assert(j - k < 1) by (nonlinear_arith)
        requires
            one * (j - k) < one,
            one > 0,
    ;
    assert(one * (j - k) > -one) by (nonlinear_arith)
        requires
            2 * (m * s) < 2 * one * j + one,
            2 * (k * one) < 2 * s * m + s,
            s <= one,
    ;
    assert(j - k > -1) by (nonlinear_arith)
        requires
            one * (j - k) > -one,
            one > 0,
    ;
}

/// A normal strictly within half a step of step `k` (`k` steps above `min`)
/// converts to the value of that step, so snapping it gives the normal of
/// that step.
pub proof fn lemma_snap_to_nearest_step(min: int, max: int, n: int, k: int)
    requires
        min < max,
        0 <= n <= NORMAL_ONE as int,
        0 <= k <= max - min,
        (2 * k - 1) * NORMAL_ONE < 2 * n * (max - min) < (2 * k + 1) * NORMAL_ONE,
    ensures
        linear_to_value(min, max, n) == min + k,
        linear_to_normal(min, max, linear_to_value(min, max, n)) == linear_to_normal(
            min,
            max,
            min + k,
        ),
{
    let s = max - min;
    let one = NORMAL_ONE as int;
    let j = round_div(n * s, one);
    lemma_round_div(n * s, one);
    assert(2 * n * (max - min) == 2 * (n * s)) by (nonlinear_arith)
        requires
            s == max - min,
    ;
    assert(one * (j - k) < one) by (nonlinear_arith)
        requires
            2 * one * j - one <= 2 * (n * s),
            2 * (n * s) < (2 * k + 1) * one,
    ;
    assert(j - k < 1) by (nonlinear_arith)
        requires
            one * (j - k) < one,
            one > 0,
    ;
    assert(one * (j - k) > -one) by (nonlinear_arith)
        requires
            2 * (n * s) < 2 * one * j + one,
            (2 * k - 1) * one < 2 * (n * s),
    ;
    assert(j - k > -1) by (nonlinear_arith)
        requires
            one * (j - k) > -one,
            one > 0,
    ;
}

/// A range of whole steps from `min` to `max`: one normal position for each
/// of the `max - min + 1` values.
///
/// A range has at most `NORMAL_ONE` steps (`max - min <= NORMAL_ONE`), so
/// that each step has a normal of its own: every value converted to a normal
/// and back comes back exactly (`lemma_stepped_round_trip`).
///
/// Dragging a widget never snaps: the drag moves the normal continuously and
/// keeps its accumulator unsnapped until the button is released. A consumer
/// of a stepped parameter calls [`IntRange::snap_normal`] on the widget's
/// normal (through `State::normal`) on each change notification, so that the
/// position shown moves from step to step.
#[derive(Debug, Clone, Copy, PartialEq, Eq, Structural)]
pub struct IntRange {
    min: i32,
    max: i32,
}

impl View for IntRange {
    type V = (int, int);

    closed spec fn view(&self) -> (int, int) {
        (self.min as int, self.max as int)
    }
}

/// The ends of a stepped range are `i32` values.
pub proof fn lemma_int_range_ends(r: IntRange)
    ensures
        i32::MIN <= r@.0 <= i32::MAX,
        i32::MIN <= r@.1 <= i32::MAX,
{
}

impl IntRange {
    #[verifier::type_invariant]
    spec fn ordered(self) -> bool {
        self.min < self.max && self.max - self.min <= NORMAL_ONE
    }

    /// The steps from `min` to `max`: at least two and at most `NORMAL_ONE +
    /// 1` of them.
    pub fn new(min: i32, max: i32) -> (r: IntRange)
        requires
            min < max,
            max - min <= NORMAL_ONE,
        ensures
            r@ == (min as int, max as int),
    {
        IntRange { min, max }
    }

    /// The lowest step.
    pub fn min(&self) -> (r: i32)
        ensures
            r == self@.0,
    {
        self.min
    }

    /// The highest step.
    pub fn max(&self) -> (r: i32)
        ensures
            r == self@.1,
    {
        self.max
    }

    /// The normal of step `value`; values outside the range go to its ends.
    pub fn to_normal(&self, value: i32) -> (r: Normal)
        ensures
            r@ == linear_to_normal(self@.0, self@.1, value as int),
    {
        proof {
            use_type_invariant(self);
        }
        let v = if value < self.min {
            self.min
        } else if value > self.max {
            self.max
        } else {
            value
        };
        let span: i64 = self.max as i64 - self.min as i64;
        let offset: i64 = v as i64 - self.min as i64;
        proof {
            lemma_round_share(offset as int, NORMAL_ONE as int, span as int);
            assert(offset * NORMAL_ONE <= span * NORMAL_ONE) by (nonlinear_arith)
                requires
                    offset <= span,
            ;
            assert(offset * NORMAL_ONE == NORMAL_ONE * offset) by (nonlinear_arith);
        }
        let q: i64 = (2 * offset * NORMAL_ONE as i64 + span) / (2 * span);
        Normal::from_units(q)
    }

    /// The step nearest to `normal` (halves go up).
    pub fn to_value(&self, normal: Normal) -> (r: i32)
        ensures
            r as int == linear_to_value(self@.0, self@.1, normal@),
            self@.0 <= r <= self@.1,
    {
        proof {
            use_type_invariant(self);
        }
        let n = normal.value();
        let span: i64 = self.max as i64 - self.min as i64;
        proof {
            lemma_round_share(n as int, span as int, NORMAL_ONE as int);
            assert(0 <= n * span <= NORMAL_ONE * span) by (nonlinear_arith)
                requires
                    0 <= n <= NORMAL_ONE,
                    span > 0,
            ;
        }
        let q: i64 = (2 * (n as i64 * span) + NORMAL_ONE as i64) / (2 * NORMAL_ONE as i64);
        (self.min as i64 + q) as i32
    }

    /// The step a widget starts at: the lowest.
    pub fn default_value(&self) -> (r: i32)
        ensures
            r == self@.0,
    {
        self.min
    }

    /// The normal of the lowest step.
    pub fn default_normal(&self) -> (r: Normal)
        ensures
            r@ == linear_to_normal(self@.0, self@.1, self@.0),
    {
        self.to_normal(self.min)
    }

    /// Moves `normal` to the position of its nearest step. The drag state
    /// machines never call this: the consumer does, on each notification.
    pub fn snap_normal(&self, normal: &mut Normal)
        ensures
            final(normal)@ == linear_to_normal(
                self@.0,
                self@.1,
                linear_to_value(self@.0, self@.1, old(normal)@),
            ),
    {
        let v = self.to_value(*normal);
        *normal = self.to_normal(v);
    }

    /// A parameter at step `value` that resets to step `default_value`.
    pub fn create_param<ID: Copy>(&self, id: ID, value: i32, default_value: i32) -> (r: Param<ID>)
        ensures
            r.id == id,
            r.normal@ == linear_to_normal(self@.0, self@.1, value as int),
            r.default_normal@ == linear_to_normal(self@.0, self@.1, default_value as int),
    {
        Param::new(id, self.to_normal(value), self.to_normal(default_value))
    }

    /// A parameter at the lowest step, which it resets to.
    pub fn create_param_default<ID: Copy>(&self, id: ID) -> (r: Param<ID>)
        ensures
            r.id == id,
            r.normal@ == linear_to_normal(self@.0, self@.1, self@.0),
            r.default_normal == r.normal,
    {
        let n = self.default_normal();
        Param::new(id, n, n)
    }
}

/// Stepped normal round trip: converting a normal to a step and back moves
/// it by at most half a step (`NORMAL_ONE / (max - min)` millionths make a
/// step), and by at most one millionth more for rounding.
pub proof fn lemma_stepped_normal_round_trip(min: int, max: int, n: int)
    requires
        min < max,
        0 <= n <= NORMAL_ONE as int,
    ensures
        ({
            let m = linear_to_normal(min, max, linear_to_value(min, max, n));
            &&& 2 * (max - min) * (m - n) <= NORMAL_ONE + (max - min)
            &&& 2 * (max - min) * (n - m) <= NORMAL_ONE + (max - min)
        }),
{
    let s = max - min;
    let one = NORMAL_ONE as int;
    let k = round_div(n * s, one);
    lemma_round_share(n, s, one);
    lemma_round_div(n * s, one);
    let m = round_div(k * one, s);
    lemma_round_div(k * one, s);
    assert(clamp(min + k, min, max) - min == k);
    assert(2 * s * (m - n) <= one + s) by (nonlinear_arith)
        requires
            2 * s * m - s <= 2 * (k * one),
            2 * one * k - one <= 2 * (n * s),
    ;
    assert(2 * s * (n - m) <= one + s) by (nonlinear_arith)
        requires
            2 * (k * one) < 2 * s * m + s,
            2 * (n * s) < 2 * one * k + one,
    ;
}

} // verus!

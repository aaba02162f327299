//! The decibel law (`LogDBRange`).

use vstd::prelude::*;

use vstd::arithmetic::div_mod::{lemma_fundamental_div_mod, lemma_mod_bound};

use crate::normal::{clamp, Normal, NORMAL_ONE};
use crate::param::Param;
use crate::range::rounding::{
    integer_sqrt, integer_sqrt_witness, isqrt, lemma_isqrt_unique, lemma_round_div,
    lemma_round_share, round_div,
};

verus! {

/// The squared share of `m` at `d` of `w`: `m * (d / w)^2`, rounded.
pub open spec fn squared_share(m: int, w: int, d: int) -> int {
    round_div(m * (d * d), w * w)
}

/// The inverse of `squared_share`: `w * sqrt(a / m)`, rounded, computed as
/// half of one more than the integer square root of `4 w^2 a / m`.
pub open spec fn root_share(a: int, w: int, m: int) -> int {
    (isqrt(4 * (w * w) * a / m) + 1) / 2
}

/// The value at normal `n` of a decibel range from `min` to `max` whose zero
/// sits at normal `z`: on each side of `z` the value grows with the square
/// of the distance from `z`, so that steps near 0 dB are finer than steps
/// near the ends.
pub open spec fn db_to_value(min: int, max: int, z: int, n: int) -> int {
    if n < z {
        -squared_share(-min, z, z - n)
    } else if n > z {
        squared_share(max, NORMAL_ONE - z, n - z)
    } else {
        0
    }
}

/// The normal of the decibel value `v` (the inverse of `db_to_value`);
/// values outside the range go to its ends.
pub open spec fn db_to_normal(min: int, max: int, z: int, v: int) -> int {
    if v < 0 {
        if v <= min {
            0
        } else {
            clamp(z - root_share(-v, z, -min), 0, NORMAL_ONE as int)
        }
    } else if v > 0 {
        if v >= max {
            NORMAL_ONE as int
        } else {
            clamp(z + root_share(v, NORMAL_ONE - z, max), 0, NORMAL_ONE as int)
        }
    } else {
        z
    }
}

/// One side of the decibel law, where the side's end value `m` is at least
/// the square of the side's width `w` (in counts and millionths): the value
/// at distance `d` reaches `m` exactly at the end of the side, and inside the
/// side the inverse gives `d` back.
proof fn lemma_squared_share_inverse(m: int, w: int, d: int)
    requires
        1 <= d <= w,
        m >= w * w,
    ensures
        squared_share(m, w, d) >= 1,
        (squared_share(m, w, d) >= m) == (d == w),
        d < w ==> root_share(squared_share(m, w, d), w, m) == d,
{
    let a = squared_share(m, w, d);
    let ww = w * w;
    let dd = d * d;
    assert(ww >= 1 && dd >= 1 && dd <= ww) by (nonlinear_arith)
        requires
            1 <= d <= w,
            ww == w * w,
            dd == d * d,
    ;
    lemma_round_div(m * dd, ww);
    assert(m * dd >= ww) by (nonlinear_arith)
        requires
            m >= ww,
            ww >= 1,
            dd >= 1,
    ;
    assert(a >= 1) by (nonlinear_arith)
        requires
            2 * (m * dd) < 2 * ww * a + ww,
            m * dd >= ww,
            ww >= 1,
    ;
    if d == w {
        assert(a == m) by (nonlinear_arith)
            requires
                2 * ww * a - ww <= 2 * (m * dd),
                2 * (m * dd) < 2 * ww * a + ww,
                dd == ww,
                ww >= 1,
        ;
    } else {
        assert(ww - dd >= 1) by (nonlinear_arith)
            requires
                1 <= d < w,
                ww == w * w,
                dd == d * d,
        ;
        assert(a < m) by (nonlinear_arith)
            requires
                2 * ww * a - ww <= 2 * (m * dd),
                ww - dd >= 1,
                m >= ww,
                ww >= 1,
        ;
        // 4 ww a / m lies within 2 of 4 dd.
        let big = 4 * ww * a;
        let x = big / m;
        assert(m > 0);
        lemma_fundamental_div_mod(big, m);
        lemma_mod_bound(big, m);
        assert(m * x <= big < m * x + m);
        assert(m * (4 * dd) - 2 * ww <= big <= m * (4 * dd) + 2 * ww) by (nonlinear_arith)
            requires
                2 * ww * a - ww <= 2 * (m * dd),
                2 * (m * dd) < 2 * ww * a + ww,
                big == 4 * ww * a,
        ;
        assert(4 * dd - 2 <= x <= 4 * dd + 2) by (nonlinear_arith)
            requires
                m * x <= big < m * x + m,
                m * (4 * dd) - 2 * ww <= big <= m * (4 * dd) + 2 * ww,
                m >= ww,
                ww >= 1,
        ;
        let r = isqrt(x);
        assert(x >= 0);
        let r0 = integer_sqrt_witness(x);
        lemma_isqrt_unique(x, r0);
        assert(r * r <= x < (r + 1) * (r + 1));
        assert(2 * d - 1 <= r <= 2 * d) by (nonlinear_arith)
            requires
                r >= 0,
                r * r <= x,
                x < (r + 1) * (r + 1),
                4 * dd - 2 <= x <= 4 * dd + 2,
                dd == d * d,
                d >= 1,
        ;
        assert(4 * (w * w) * a / m == x);
    }
}

/// Decibel round trip: where each side's end value is at least the square of
/// the side's width in millionths (`-min >= z^2`, `max >= (NORMAL_ONE -
/// z)^2`, in counts), converting a normal to a value and back gives the
/// normal exactly.
pub proof fn lemma_db_round_trip(min: int, max: int, z: int, n: int)
    requires
        min <= 0 <= max,
        0 <= z <= NORMAL_ONE as int,
        0 <= n <= NORMAL_ONE as int,
        -min >= z * z,
        max >= (NORMAL_ONE - z) * (NORMAL_ONE - z),
    ensures
        db_to_normal(min, max, z, db_to_value(min, max, z, n)) == n,
{
    if n < z {
        lemma_squared_share_inverse(-min, z, z - n);
    } else if n > z {
        lemma_squared_share_inverse(max, NORMAL_ONE - z, n - z);
    }
}

/// A decibel range from `min` to `max` (in `VALUE_ONE`ths of a dB, `min <=
/// 0 <= max`) whose 0 dB sits at `zero_position`; see `db_to_value` for the
/// law.
#[derive(Debug, Clone, Copy, PartialEq, Eq, Structural)]
pub struct LogDBRange {
    min: i64,
    max: i64,
    zero_position: Normal,
}

impl View for LogDBRange {
    type V = (int, int, int);

    closed spec fn view(&self) -> (int, int, int) {
        (self.min as int, self.max as int, self.zero_position@)
    }
}

/// `m * (d / w)^2` rounded, for `d <= w`, computed without overflow.
fn squared_share_of(m: u64, w: u32, d: u32) -> (r: u64)
    requires
        0 < w <= NORMAL_ONE,
        d <= w,
    ensures
        r as int == squared_share(m as int, w as int, d as int),
        r <= m,
{
    proof {
        assert(w * w <= 1_000_000 * 1_000_000 && d * d <= w * w && w * w > 0) by (nonlinear_arith)
            requires
                0 < w <= 1_000_000,
                d <= w,
        ;
    }
    let ww: u128 = w as u128 * w as u128;
    let dd: u128 = d as u128 * d as u128;
    proof {
        assert(dd <= ww && ww <= 1_000_000_000_000) by (nonlinear_arith)
            requires
                d <= w <= 1_000_000,
                ww == w * w,
                dd == d * d,
        ;
        assert(m * dd <= 0x1_0000_0000_0000_0000 * 1_000_000_000_000) by (nonlinear_arith)
            requires
                m < 0x1_0000_0000_0000_0000,
                dd <= 1_000_000_000_000,
        ;
        lemma_round_share(dd as int, m as int, ww as int);
        assert(dd * m == m * dd) by (nonlinear_arith);
    }
    ((2 * (m as u128 * dd) + ww) / (2 * ww)) as u64
}

/// `w * sqrt(a / m)` rounded, for `a < m`, computed without overflow.
fn root_share_of(a: u64, w: u32, m: u64) -> (r: u32)
    requires
        w <= NORMAL_ONE,
        a < m,
    ensures
        r as int == root_share(a as int, w as int, m as int),
        r <= w,
{
    proof {
        assert(w * w <= 1_000_000 * 1_000_000) by (nonlinear_arith)
            requires
                w <= 1_000_000,
        ;
    }
    let ww: u128 = w as u128 * w as u128;
    proof {
        assert(ww <= 1_000_000_000_000) by (nonlinear_arith)
            requires
                w <= 1_000_000,
                ww == w * w,
        ;
        assert(4 * ww * a <= 4 * 1_000_000_000_000 * 0x1_0000_0000_0000_0000) by (nonlinear_arith)
            requires
                ww <= 1_000_000_000_000,
                a < 0x1_0000_0000_0000_0000,
        ;
    }
    let x: u128 = 4 * ww * a as u128 / m as u128;
    proof {
        lemma_fundamental_div_mod(4 * ww * a, m as int);
        lemma_mod_bound(4 * ww * a, m as int);
        assert(m * x <= 4 * ww * a);
        assert(4 * ww * a <= 4 * ww * m) by (nonlinear_arith)
            requires
                0 <= a < m,
                ww >= 0,
        ;
        assert(x <= 4 * ww) by (nonlinear_arith)
            requires
                m * x <= 4 * ww * m,
                m > 0,
        ;
    }
    let root = integer_sqrt(x as u64);
    proof {
        assert(root <= 2 * w) by (nonlinear_arith)
            requires
                root * root <= x,
                x <= 4 * (w * w),
                root >= 0,
                w >= 0,
        ;
    }
    ((root + 1) / 2) as u32
}

impl LogDBRange {
    #[verifier::type_invariant]
    spec fn well_formed(self) -> bool {
        &&& self.min <= 0 <= self.max
        &&& self.min < self.max
        &&& -self.min >= self.zero_position@ * self.zero_position@
        &&& self.max >= (NORMAL_ONE - self.zero_position@) * (NORMAL_ONE - self.zero_position@)
    }

    /// The decibel range from `min` to `max` with 0 dB at `zero_position`.
    ///
    /// Each side must be fine enough for its share of the normals: the value
    /// at the end of a side, in counts, is at least the square of the side's
    /// width in millionths (`-min >= z^2` and `max >= (NORMAL_ONE - z)^2`,
    /// `z` the zero position). As `VALUE_ONE` is the square of `NORMAL_ONE`,
    /// a side that reaches one dB always is; a side of width zero may reach
    /// 0 dB. On such a range a normal converted to a value and back comes back
    /// exactly (`lemma_db_round_trip`).
    pub fn new(min: i64, max: i64, zero_position: Normal) -> (r: LogDBRange)
        requires
            min <= 0 <= max,
            min < max,
            -min >= zero_position@ * zero_position@,
            max >= (NORMAL_ONE - zero_position@) * (NORMAL_ONE - zero_position@),
        ensures
            r@ == (min as int, max as int, zero_position@),
    {
        LogDBRange { min, max, zero_position }
    }

    /// The lowest value.
    pub fn min(&self) -> (r: i64)
        ensures
            r == self@.0,
    {
        self.min
    }

    /// The highest value.
    pub fn max(&self) -> (r: i64)
        ensures
            r == self@.1,
    {
        self.max
    }

    /// The normal of 0 dB.
    pub fn zero_position(&self) -> (r: Normal)
        ensures
            r@ == self@.2,
    {
        self.zero_position
    }

    /// The value at `normal`.
    pub fn to_value(&self, normal: Normal) -> (r: i64)
        ensures
            r as int == db_to_value(self@.0, self@.1, self@.2, normal@),
            self@.0 <= r <= self@.1,
    {
        proof {
            use_type_invariant(self);
        }
        let n = normal.value();
        let z = self.zero_position.value();
        if n < z {
            let m: u64 = (-(self.min as i128)) as u64;
            let a = squared_share_of(m, z, z - n);
            -(a as i128) as i64
        } else if n > z {
            let a = squared_share_of(self.max as u64, NORMAL_ONE - z, n - z);
            a as i64
        } else {
            0
        }
    }

    /// The normal of `value`; values outside the range go to its ends.
    pub fn to_normal(&self, value: i64) -> (r: Normal)
        ensures
            r@ == db_to_normal(self@.0, self@.1, self@.2, value as int),
    {
        proof {
            use_type_invariant(self);
        }
        let z = self.zero_position.value();
        if value < 0 {
            if value <= self.min {
                Normal::min()
            } else {
                let a: u64 = (-(value as i128)) as u64;
                let m: u64 = (-(self.min as i128)) as u64;
                let e = root_share_of(a, z, m);
                Normal::from_units(z as i64 - e as i64)
            }
        } else if value > 0 {
            if value >= self.max {
                Normal::max()
            } else {
                let e = root_share_of(value as u64, NORMAL_ONE - z, self.max as u64);
                Normal::from_units(z as i64 + e as i64)
            }
        } else {
            self.zero_position
        }
    }

    /// The value a widget starts at: 0 dB.
    pub fn default_value(&self) -> (r: i64)
        ensures
            r == 0,
    {
        0
    }

    /// The normal of 0 dB, which is the zero position.
    pub fn default_normal(&self) -> (r: Normal)
        ensures
            r@ == self@.2,
    {
        self.zero_position
    }

    /// Leaves `normal` as it is: a continuous range has no steps.
    pub fn snap_normal(&self, normal: &mut Normal)
        ensures
            *final(normal) == *old(normal),
    {
    }

    /// A parameter at `value` that resets to `default_value`.
    pub fn create_param<ID: Copy>(&self, id: ID, value: i64, default_value: i64) -> (r: Param<ID>)
        ensures
            r.id == id,
            r.normal@ == db_to_normal(self@.0, self@.1, self@.2, value as int),
            r.default_normal@ == db_to_normal(self@.0, self@.1, self@.2, default_value as int),
    {
        Param::new(id, self.to_normal(value), self.to_normal(default_value))
    }

    /// A parameter at 0 dB, which it resets to.
    pub fn create_param_default<ID: Copy>(&self, id: ID) -> (r: Param<ID>)
        ensures
            r.id == id,
            r.normal@ == self@.2,
            r.default_normal == r.normal,
    {
        let n = self.zero_position;
        Param::new(id, n, n)
    }
}

} // verus!

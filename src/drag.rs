use vstd::prelude::*;

use vstd::arithmetic::div_mod::{
    lemma_div_is_ordered, lemma_fundamental_div_mod, lemma_fundamental_div_mod_converse,
    lemma_mod_bound,
};

use crate::input::Modifiers;

verus! {

/// Default drag sensitivity: 0.98 of the widget's extent per extent of
/// pointer travel.
pub const DEFAULT_SCALAR: u32 = 980_000;

/// Default sensitivity while the modifier keys are held: 0.02.
pub const DEFAULT_MODIFIER_SCALAR: u32 = 20_000;

/// The scaled pointer travel of a drag step, in millionths times the
/// widget's extent: the remainder left by earlier steps plus the travel `dx`
/// times the sensitivity `scalar` (in millionths).
pub open spec fn scaled_travel(remainder: int, dx: int, scalar: int) -> int {
    remainder + dx * scalar
}

/// `x` held within the range of `i64`.
pub open spec fn saturate_i64(x: int) -> int {
    if x < i64::MIN {
        i64::MIN as int
    } else if x > i64::MAX {
        i64::MAX as int
    } else {
        x
    }
}

/// How strongly pointer travel moves a widget.
#[derive(Debug, Clone, Copy, PartialEq, Eq, Structural)]
pub struct DragSettings {
    /// Millionths of the extent moved per extent of pointer travel.
    pub scalar: u32,
    /// The same while `modifier_keys` are held, for fine adjustment.
    pub modifier_scalar: u32,
    /// The keys that select `modifier_scalar`.
    pub modifier_keys: Modifiers,
}

impl DragSettings {
    /// Scalar 0.98, modifier scalar 0.02, modifier key control.
    pub fn new() -> (r: DragSettings)
        ensures
            r.scalar == DEFAULT_SCALAR,
            r.modifier_scalar == DEFAULT_MODIFIER_SCALAR,
            r.modifier_keys == (Modifiers { shift: false, control: true, alt: false, logo: false }),
    {
        DragSettings {
            scalar: DEFAULT_SCALAR,
            modifier_scalar: DEFAULT_MODIFIER_SCALAR,
            modifier_keys: Modifiers::control(),
        }
    }

    /// The scalar in force while `pressed` are held.
    pub open spec fn scalar_for(self, pressed: Modifiers) -> int {
        if pressed.covers(self.modifier_keys) {
            self.modifier_scalar as int
        } else {
            self.scalar as int
        }
    }

    /// The scalar in force while `pressed` are held.
    pub fn select_scalar(&self, pressed: Modifiers) -> (r: u32)
        ensures
            r as int == self.scalar_for(pressed),
    {
        if pressed.matches(self.modifier_keys) {
            self.modifier_scalar
        } else {
            self.scalar
        }
    }
}

/// The accumulator and the remainder after the pointer moved from `prev` to
/// `cursor` over a widget `extent` long. The scaled travel (with the
/// remainder of earlier steps) is divided by the extent: the whole millionths
/// of the quotient, rounded down, go to the accumulator and what is left
/// becomes the new remainder, so slow drags lose no travel. The accumulator
/// is not clamped to the unit interval, only held within `i64`.
pub fn accumulate(continuous: i64, remainder: i32, prev: i32, cursor: i32, extent: i32, scalar: u32)
    -> (r: (i64, i32))
    requires
        extent > 0,
    ensures
        r.0 as int == saturate_i64(
            continuous + scaled_travel(remainder as int, cursor - prev, scalar as int)
                / extent as int,
        ),
        r.1 as int == scaled_travel(remainder as int, cursor - prev, scalar as int)
            % extent as int,
{
    let dx: i128 = cursor as i128 - prev as i128;
    proof {
        assert(-0x1_0000_0000_0000_0000 <= dx * scalar <= 0x1_0000_0000_0000_0000)
            by (nonlinear_arith)
            requires
                -0x1_0000_0000 <= dx <= 0x1_0000_0000,
                0 <= scalar < 0x1_0000_0000,
        ;
    }
    let t: i128 = remainder as i128 + dx * scalar as i128;
    let e: i128 = extent as i128;
    let quot: i128;
    let rem: i128;
    if t >= 0 {
        let m: u128 = t as u128;
        let q0: u128 = m / e as u128;
        let r0: u128 = m % e as u128;
        proof {
            lemma_fundamental_div_mod(m as int, e as int);
            lemma_mod_bound(m as int, e as int);
            assert(q0 <= m) by (nonlinear_arith)
                requires
                    m == e * q0 + r0,
                    r0 >= 0,
                    e > 0,
                    q0 >= 0,
            ;
        }
        quot = q0 as i128;
        rem = r0 as i128;
    } else {
        let m: u128 = (-t) as u128;
        let q0: u128 = m / e as u128;
        let r0: u128 = m % e as u128;
        proof {
            lemma_fundamental_div_mod(m as int, e as int);
            lemma_mod_bound(m as int, e as int);
            assert(q0 <= m) by (nonlinear_arith)
                requires
                    m == e * q0 + r0,
                    r0 >= 0,
                    e > 0,
                    q0 >= 0,
            ;
        }
        if r0 == 0 {
            quot = -(q0 as i128);
            rem = 0;
        } else {
            quot = -(q0 as i128) - 1;
            rem = e - r0 as i128;
        }
        proof {
            assert(t == quot * e + rem) by (nonlinear_arith)
                requires
                    -t == e * q0 + r0,
                    r0 == 0 ==> quot == -q0 && rem == 0,
                    r0 != 0 ==> quot == -q0 - 1 && rem == e - r0,
            ;
        }
    }
    proof {
        lemma_fundamental_div_mod_converse(t as int, e as int, quot as int, rem as int);
    }
    let sum: i128 = continuous as i128 + quot;
    let c: i64 = if sum < i64::MIN as i128 {
        i64::MIN
    } else if sum > i64::MAX as i128 {
        i64::MAX
    } else {
        sum as i64
    };
    (c, rem as i32)
}

/// A smaller sensitivity never moves the accumulator further, in either
/// direction: from a fresh drag (no remainder), the step at the fine scalar
/// lies between zero and the step at the coarse one.
pub proof fn lemma_smaller_scalar_moves_less(dx: int, extent: int, fine: int, coarse: int)
    requires
        extent > 0,
        0 <= fine <= coarse,
    ensures
        dx >= 0 ==> 0 <= scaled_travel(0, dx, fine) / extent <= scaled_travel(0, dx, coarse)
            / extent,
        dx <= 0 ==> scaled_travel(0, dx, coarse) / extent <= scaled_travel(0, dx, fine) / extent
            <= 0,
{
    if dx >= 0 {
        assert(0 <= dx * fine <= dx * coarse) by (nonlinear_arith)
            requires
                dx >= 0,
                0 <= fine <= coarse,
        ;
        lemma_div_is_ordered(0, dx * fine, extent);
        lemma_div_is_ordered(dx * fine, dx * coarse, extent);
    } else {
        assert(dx * coarse <= dx * fine <= 0) by (nonlinear_arith)
            requires
                dx < 0,
                0 <= fine <= coarse,
        ;
        lemma_div_is_ordered(dx * coarse, dx * fine, extent);
        lemma_div_is_ordered(dx * fine, 0, extent);
    }
}

/// A step from a fresh drag (no remainder) that moves the pointer back at a
/// positive sensitivity lowers the accumulator by at least one millionth.
pub proof fn lemma_backward_step_moves(dx: int, extent: int, scalar: int)
    requires
        extent > 0,
        dx < 0,
        scalar > 0,
    ensures
        scaled_travel(0, dx, scalar) / extent <= -1,
{
    let t = dx * scalar;
    assert(t < 0) by (nonlinear_arith)
        requires
            dx < 0,
            scalar > 0,
            t == dx * scalar,
    ;
    lemma_fundamental_div_mod(t, extent);
    lemma_mod_bound(t, extent);
    assert(t / extent <= -1) by (nonlinear_arith)
        requires
            t == extent * (t / extent) + t % extent,
            0 <= t % extent < extent,
            t < 0,
            extent > 0,
    ;
}

/// Two drag steps over one extent at one sensitivity land where one step
/// over their whole travel would: no travel is lost to rounding.
pub proof fn lemma_two_steps_add_up(
    continuous: int,
    remainder: int,
    dx1: int,
    dx2: int,
    extent: int,
    scalar: int,
)
    requires
        extent > 0,
    ensures
        ({
            let t1 = scaled_travel(remainder, dx1, scalar);
            let t2 = scaled_travel(t1 % extent, dx2, scalar);
            let t = scaled_travel(remainder, dx1 + dx2, scalar);
            &&& continuous + t1 / extent + t2 / extent == continuous + t / extent
            &&& t2 % extent == t % extent
        }),
{
    let t1 = scaled_travel(remainder, dx1, scalar);
    let t2 = scaled_travel(t1 % extent, dx2, scalar);
    let t = scaled_travel(remainder, dx1 + dx2, scalar);
    lemma_fundamental_div_mod(t1, extent);
    lemma_fundamental_div_mod(t2, extent);
    lemma_mod_bound(t2, extent);
    assert(t == (t1 / extent + t2 / extent) * extent + t2 % extent) by (nonlinear_arith)
        requires
            t1 == extent * (t1 / extent) + t1 % extent,
            t2 == extent * (t2 / extent) + t2 % extent,
            t2 == t1 % extent + dx2 * scalar,
            t1 == remainder + dx1 * scalar,
            t == remainder + (dx1 + dx2) * scalar,
    ;
    lemma_fundamental_div_mod_converse(t, extent, t1 / extent + t2 / extent, t2 % extent);
}

} // verus!

use vstd::prelude::*;

verus! {

/// Number of units in a whole [`Normal`]: a normal counts millionths.
pub const NORMAL_ONE: u32 = 1_000_000;

/// `x` clamped into the closed interval `[lo, hi]`.
pub open spec fn clamp(x: int, lo: int, hi: int) -> int {
    if x < lo {
        lo
    } else if x > hi {
        hi
    } else {
        x
    }
}

/// The units of a normal built from `x`: `x` clamped into `[0, NORMAL_ONE]`.
pub open spec fn clamp_unit(x: int) -> int {
    clamp(x, 0, NORMAL_ONE as int)
}

/// A position in the closed unit interval, in millionths.
///
/// Every constructor and every arithmetic operation clamps, so a `Normal`
/// never leaves `[0, NORMAL_ONE]`.
#[derive(Debug, Clone, Copy, PartialEq, Eq, Structural)]
pub struct Normal {
    units: u32,
}

impl View for Normal {
    type V = int;

    closed spec fn view(&self) -> int {
        self.units as int
    }
}

impl Normal {
    #[verifier::type_invariant]
    spec fn in_unit_interval(self) -> bool {
        self.units <= NORMAL_ONE
    }

    /// Builds a normal from a count of millionths, clamping into the unit
    /// interval.
    pub fn from_units(units: i64) -> (r: Normal)
        ensures
            r@ == clamp_unit(units as int),
    {
        if units < 0 {
            Normal { units: 0 }
        } else if units > NORMAL_ONE as i64 {
            Normal { units: NORMAL_ONE }
        } else {
            Normal { units: units as u32 }
        }
    }

    /// The normal at the start of the interval.
    pub fn min() -> (r: Normal)
        ensures
            r@ == 0,
    {
        Normal { units: 0 }
    }

    /// The normal at the end of the interval.
    pub fn max() -> (r: Normal)
        ensures
            r@ == NORMAL_ONE as int,
    {
        Normal { units: NORMAL_ONE }
    }

    /// The normal halfway through the interval.
    pub fn center() -> (r: Normal)
        ensures
            r@ * 2 == NORMAL_ONE as int,
    {
        Normal { units: NORMAL_ONE / 2 }
    }

    /// The position in millionths.
    pub fn value(&self) -> (r: u32)
        ensures
            r as int == self@,
            r <= NORMAL_ONE,
    {
        proof {
            use_type_invariant(self);
        }
        self.units
    }

    /// Moves the position to `units` millionths, clamping into the interval.
    pub fn set(&mut self, units: i64)
        ensures
            final(self)@ == clamp_unit(units as int),
    {
        *self = Normal::from_units(units);
    }

    /// The position moved by `delta` millionths, clamped into the interval.
    pub fn offset(&self, delta: i64) -> (r: Normal)
        ensures
            r@ == clamp_unit(self@ + delta),
    {
        proof {
            use_type_invariant(self);
        }
        if delta <= -(NORMAL_ONE as i64) {
            Normal { units: 0 }
        } else if delta >= NORMAL_ONE as i64 {
            Normal { units: NORMAL_ONE }
        } else {
            Normal::from_units(self.units as i64 + delta)
        }
    }

    /// `span` scaled by the position: `floor(span * self / NORMAL_ONE)`.
    pub fn scale(&self, span: u32) -> (r: u32)
        ensures
            r as int == span as int * self@ / NORMAL_ONE as int,
            r <= span,
    {
        proof {
            use_type_invariant(self);
            assert(span as int * self@ <= span as int * NORMAL_ONE as int) by (nonlinear_arith)
                requires
                    self@ <= NORMAL_ONE as int,
                    span >= 0,
            ;
            assert(span as int * self@ / NORMAL_ONE as int <= span) by (nonlinear_arith)
                requires
                    span as int * self@ <= span as int * NORMAL_ONE as int,
                    span >= 0,
            ;
        }
        let prod: u64 = span as u64 * self.units as u64;
        (prod / NORMAL_ONE as u64) as u32
    }

    /// `span` scaled by the mirrored position: `span - self.scale(span)`, for
    /// widgets whose visual origin is at the far end.
    pub fn scale_inv(&self, span: u32) -> (r: u32)
        ensures
            r as int == span - span as int * self@ / NORMAL_ONE as int,
    {
        span - self.scale(span)
    }
}

} // verus!

//! Exact fractions.
//!
//! Animation progress, eased progress and display scale are all fractions of
//! small integers. Keeping them exact makes every position the panel takes a
//! function of the clock alone, with a single, stated rounding at the end.

use vstd::prelude::*;

verus! {

/// A fraction `num / den`. It stands for a number only when `den` is positive.
#[derive(Debug, Clone, Copy, PartialEq, Eq, Structural)]
pub struct Ratio {
    pub num: i128,
    pub den: i128,
}

/// Integer division that rounds toward zero, for a positive divisor.
pub open spec fn trunc_div(a: int, b: int) -> int
    recommends
        b > 0,
{
    if a >= 0 {
        a / b
    } else {
        -((-a) / b)
    }
}

/// Integer division that rounds up, for a positive divisor.
pub open spec fn ceil_div(a: int, b: int) -> int
    recommends
        b > 0,
{
    -((-a) / b)
}

/// The nearest value that an `i32` can hold.
pub open spec fn clamp_i32(v: int) -> int {
    if v < i32::MIN {
        i32::MIN as int
    } else if v > i32::MAX {
        i32::MAX as int
    } else {
        v
    }
}

impl Ratio {
    /// Whether the fraction stands for a number.
    pub open spec fn wf(self) -> bool {
        self.den > 0
    }

    /// The number that the fraction stands for.
    pub open spec fn value(self) -> real
        recommends
            self.wf(),
    {
        self.num as real / self.den as real
    }

    /// Whether the fraction lies in the closed unit interval.
    pub open spec fn in_unit(self) -> bool {
        0 <= self.num <= self.den
    }
}

/// Rounding toward zero never moves a quotient away from zero, nor past the
/// dividend's share: for `0 <= n <= d`, the result lies between 0 and `a`.
pub proof fn lemma_trunc_div_within(a: int, n: int, d: int)
    requires
        d > 0,
        0 <= n <= d,
    ensures
        a >= 0 ==> 0 <= trunc_div(a * n, d) <= a,
        a <= 0 ==> a <= trunc_div(a * n, d) <= 0,
{
    if a >= 0 {
        assert(0 <= a * n <= a * d) by (nonlinear_arith)
            requires
                a >= 0,
                0 <= n <= d,
        ;
        lemma_div_bounds(a * n, a, d);
    } else {
        let b = -a;
        assert(0 <= b * n <= b * d) by (nonlinear_arith)
            requires
                b >= 0,
                0 <= n <= d,
        ;
        assert(-(a * n) == b * n) by (nonlinear_arith)
            requires
                b == -a,
        ;
        lemma_div_bounds(b * n, b, d);
    }
}

/// For `0 <= x <= q * d`, the quotient `x / d` lies between 0 and `q`.
pub proof fn lemma_div_bounds(x: int, q: int, d: int)
    requires
        d > 0,
        0 <= x <= q * d,
    ensures
        0 <= x / d <= q,
{
    vstd::arithmetic::div_mod::lemma_div_pos_is_pos(x, d);
    vstd::arithmetic::div_mod::lemma_div_is_ordered(x, q * d, d);
    vstd::arithmetic::div_mod::lemma_div_multiples_vanish(q, d);
    assert(q * d == d * q) by (nonlinear_arith);
}

/// The largest denominator that [`slide`] accepts.
pub const MAX_SLIDE_DEN: i128 = 0x40_0000_0000_0000_0000;

/// The point reached after the fraction `r` of the way from `from` to `to`:
/// `from + (to - from) * r`, the travelled part rounded toward zero.
pub fn slide(from: i32, to: i32, r: Ratio) -> (at: i32)
    requires
        r.wf(),
        r.in_unit(),
        r.den <= MAX_SLIDE_DEN,
    ensures
        at == from + trunc_div((to - from) * r.num, r.den as int),
        from <= to ==> from <= at <= to,
        to <= from ==> to <= at <= from,
{
    let d: i128 = to as i128 - from as i128;
    proof {
        lemma_trunc_div_within(d as int, r.num as int, r.den as int);
        assert(-0x1_0000_0000 * 0x40_0000_0000_0000_0000 <= d * r.num <= 0x1_0000_0000
            * 0x40_0000_0000_0000_0000) by (nonlinear_arith)
            requires
                -0x1_0000_0000 <= d <= 0x1_0000_0000,
                0 <= r.num <= 0x40_0000_0000_0000_0000,
        ;
    }
    let q: i128 = (d * r.num) / r.den;
    (from as i128 + q) as i32
}

} // verus!

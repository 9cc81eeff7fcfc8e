use vstd::prelude::*;

verus! {

/// An exact fraction `num / den` of viewport units.
#[derive(Clone, Copy, Debug, PartialEq, Eq, Structural)]
pub struct Frac {
    pub num: i128,
    pub den: u64,
}

impl View for Frac {
    type V = (int, int);

    /// The pair (numerator, denominator).
    open spec fn view(&self) -> (int, int) {
        (self.num as int, self.den as int)
    }
}

impl Frac {
    /// A fraction is well formed when its denominator is positive.
    pub open spec fn wf(&self) -> bool {
        self.den > 0
    }

    /// The whole number `n`, as `n / 1`.
    pub fn whole(n: i64) -> (r: Frac)
        ensures
            r@ == (n as int, 1int),
            r.wf(),
    {
        Frac { num: n as i128, den: 1 }
    }

    /// The fraction `0 / 1`.
    pub fn zero() -> (r: Frac)
        ensures
            r@ == (0int, 1int),
            r.wf(),
    {
        Frac::whole(0)
    }
}

/// The product of two `u32` values, exactly.
pub(crate) fn product(a: u32, b: u32) -> (r: i128)
    ensures
        r == a as int * b as int,
        0 <= r <= 0xffff_ffffint * 0xffff_ffffint,
{
    proof {
        assert(0 <= a as int * b as int <= 0xffff_ffffint * 0xffff_ffffint) by (nonlinear_arith)
            requires
                a as int <= 0xffff_ffff,
                b as int <= 0xffff_ffff,
        ;
    }
    (a as i128) * (b as i128)
}

} // verus!

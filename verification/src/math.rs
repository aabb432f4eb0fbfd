//! Exact numbers for the constants of the engine.

use vstd::prelude::*;

verus! {

/// An exact fraction `numer / denom`.
///
/// The engine's fixed constants (default curvatures, radii) are fractions of
/// small integers; they are kept exact here and turned into machine numbers
/// only where they are consumed.
#[derive(Debug, Clone, Copy, PartialEq, Eq, Structural)]
pub struct Ratio {
    pub numer: i32,
    pub denom: u32,
}

impl Ratio {
    /// A fraction is well formed when its denominator is positive.
    pub open spec fn wf(self) -> bool {
        self.denom > 0
    }

    /// `self` denotes the rational number `n / d`.
    pub open spec fn denotes(self, n: int, d: int) -> bool {
        self.denom > 0 && d > 0 && self.numer * d == n * self.denom
    }

    /// `self` denotes a smaller number than `other`.
    pub open spec fn lt(self, other: Ratio) -> bool {
        self.numer * other.denom < other.numer * self.denom
    }

    /// Sign of the number denoted: -1, 0 or 1.
    pub open spec fn signum(self) -> int {
        if self.numer < 0 {
            -1
        } else if self.numer == 0 {
            0
        } else {
            1
        }
    }

    /// The whole number `n`, as a fraction over one.
    pub fn whole(n: i32) -> (r: Ratio)
        ensures
            r == (Ratio { numer: n, denom: 1 }),
            r.wf(),
            r.denotes(n as int, 1),
    {
        Ratio { numer: n, denom: 1 }
    }

    /// The fraction `numer / denom`, for a positive denominator.
    pub fn new(numer: i32, denom: u32) -> (r: Option<Ratio>)
        ensures
            denom == 0 ==> r is None,
            denom > 0 ==> r == Some(Ratio { numer, denom }),
    {
        if denom == 0 {
            None
        } else {
            Some(Ratio { numer, denom })
        }
    }
}

} // verus!

//! Candidate solutions and the square they live in.

use vstd::prelude::*;
use crate::binary64::Binary64;

verus! {

/// The pattern of `30.0`, the greatest value a coordinate may take.
pub const RANGE_BITS: u64 = 0x403E_0000_0000_0000;

/// The pattern of `-30.0`, the least value a coordinate may take.
pub const NEG_RANGE_BITS: u64 = 0xC03E_0000_0000_0000;

/// The greatest coordinate of the domain.
pub open spec fn upper_bound() -> Binary64 {
    Binary64 { bits: RANGE_BITS }
}

/// The least coordinate of the domain.
pub open spec fn lower_bound() -> Binary64 {
    Binary64 { bits: NEG_RANGE_BITS }
}

/// Whether `v` is a number of the closed interval from the lower to the upper
/// bound.
pub open spec fn in_range(v: Binary64) -> bool {
    lower_bound().spec_le(v) && v.spec_le(upper_bound())
}

/// `v` brought back into the interval: a number below the lower bound becomes
/// the lower bound, one above the upper bound becomes the upper bound, and
/// everything else, NaN included, is kept as it is.
pub open spec fn spec_clamp(v: Binary64) -> Binary64 {
    if v.spec_lt(lower_bound()) {
        lower_bound()
    } else if v.spec_gt(upper_bound()) {
        upper_bound()
    } else {
        v
    }
}

/// Brings a coordinate back into the interval.
///
/// Every number ends up inside the interval, and one that was inside is
/// returned pattern for pattern. NaN is not a number and stays NaN.
#[verifier::when_used_as_spec(spec_clamp)]
pub fn clamp(v: Binary64) -> (r: Binary64)
    ensures
        r == spec_clamp(v),
        !v.is_nan() ==> in_range(r),
        in_range(v) ==> r == v,
        v.is_nan() ==> r == v,
{
    if v.lt(Binary64 { bits: NEG_RANGE_BITS }) {
        Binary64 { bits: NEG_RANGE_BITS }
    } else if v.gt(Binary64 { bits: RANGE_BITS }) {
        Binary64 { bits: RANGE_BITS }
    } else {
        v
    }
}

/// A candidate solution: a point of the plane.
///
/// The fields accept any pair of patterns, so that a point can be written
/// down before it is known to lie in the domain; [`Individual::in_domain`]
/// says whether it does, and [`Individual::clamped`] moves it there.
#[derive(Clone, Copy, Debug, PartialEq, Eq, Structural)]
pub struct Individual {
    pub x: Binary64,
    pub y: Binary64,
}

impl Individual {
    /// Whether both coordinates are numbers of the domain.
    pub open spec fn in_domain(self) -> bool {
        in_range(self.x) && in_range(self.y)
    }

    /// Whether either coordinate is NaN.
    pub open spec fn has_nan(self) -> bool {
        self.x.is_nan() || self.y.is_nan()
    }

    /// The individual with each coordinate clamped by [`spec_clamp`].
    pub open spec fn spec_clamped(self) -> Individual {
        Individual { x: spec_clamp(self.x), y: spec_clamp(self.y) }
    }

    /// The individual at the given coordinates, taken as they are.
    pub fn new(x: Binary64, y: Binary64) -> (individual: Individual)
        ensures
            individual.x == x,
            individual.y == y,
    {
        Individual { x, y }
    }

    /// The individual moved back into the domain, as the last step of a
    /// mutation: each coordinate is clamped on its own.
    ///
    /// Unless a coordinate is NaN the result lies in the domain, and an
    /// individual that already lies there is returned unchanged.
    #[verifier::when_used_as_spec(spec_clamped)]
    pub fn clamped(self) -> (moved: Individual)
        ensures
            moved == self.spec_clamped(),
            !self.has_nan() ==> moved.in_domain(),
            self.in_domain() ==> moved == self,
    {
        Individual { x: clamp(self.x), y: clamp(self.y) }
    }
}

} // verus!

//! The mutation magnitude and the rule by which it moves while the best
//! individual stagnates.
//!
//! The magnitude starts at the configured value. Each adjustment multiplies
//! it by the change rate, or divides it once the direction has been
//! inverted. When the magnitude has left the band between the precision
//! floor and the width of the domain, the next adjustment first inverts the
//! direction and starts again from the configured value.

use vstd::prelude::*;
use crate::binary64::Binary64;

verus! {

/// The pattern of `1.25`, the factor of one adjustment.
pub const CHANGE_RATE_BITS: u64 = 0x3FF4_0000_0000_0000;

/// The pattern of `60.0`, the width of the domain: above it the magnitude
/// has grown too far.
pub const CEILING_BITS: u64 = 0x404E_0000_0000_0000;

/// The pattern of `1e-33`: below it the magnitude has shrunk too far.
pub const FLOOR_BITS: u64 = 0x3914_C4E9_77BA_1F5C;

/// How many generations the best individual has to stay the same, counted
/// within a period of one more than this, for the magnitude to be adjusted.
pub const GENS_TO_CHANGE_MUTATION: usize = 8;

/// The smaller of a running minimum and a new observation; the observation
/// itself while nothing has been observed.
pub open spec fn spec_lower_of(seen: Option<Binary64>, observed: Binary64) -> Option<Binary64> {
    match seen {
        Some(least) => if observed.spec_lt(least) {
            Some(observed)
        } else {
            Some(least)
        },
        None => Some(observed),
    }
}

/// The greater of a running maximum and a new observation; the observation
/// itself while nothing has been observed.
pub open spec fn spec_higher_of(seen: Option<Binary64>, observed: Binary64) -> Option<Binary64> {
    match seen {
        Some(greatest) => if observed.spec_gt(greatest) {
            Some(observed)
        } else {
            Some(greatest)
        },
        None => Some(observed),
    }
}

/// The state of the mutation controller.
#[derive(Clone, Copy, Debug, PartialEq, Eq)]
pub struct MutationController {
    /// The magnitude that the next mutation uses.
    pub current: Binary64,
    /// Whether an adjustment divides the magnitude instead of multiplying it.
    pub invert: bool,
    /// The least magnitude met at an adjustment, absent before the first one.
    pub min_seen: Option<Binary64>,
    /// The greatest magnitude met at an adjustment, absent before the first
    /// one.
    pub max_seen: Option<Binary64>,
}

impl MutationController {
    /// The controller before anything has happened.
    pub open spec fn spec_new(initial: Binary64) -> MutationController {
        MutationController { current: initial, invert: false, min_seen: None, max_seen: None }
    }

    /// Whether the magnitude has left the band: it is greater than the
    /// ceiling or less than the floor.
    pub open spec fn spec_out_of_band(self) -> bool {
        self.current.spec_gt(Binary64 { bits: CEILING_BITS })
            || self.current.spec_lt(Binary64 { bits: FLOOR_BITS })
    }

    /// The value that the next adjustment scales: the configured one where
    /// the magnitude has left the band, the current one otherwise.
    pub open spec fn spec_scale_base(self, initial: Binary64) -> Binary64 {
        if self.spec_out_of_band() {
            initial
        } else {
            self.current
        }
    }

    /// Whether the next adjustment divides: the direction, inverted where
    /// the magnitude has left the band.
    pub open spec fn spec_scale_divides(self) -> bool {
        self.invert != self.spec_out_of_band()
    }

    /// The controller after an adjustment whose scaling gave `scaled`: the
    /// magnitude met is entered in the two trackers, the direction is the one
    /// the scaling used, and `scaled` is the new magnitude.
    pub open spec fn adjusted(self, scaled: Binary64) -> MutationController {
        MutationController {
            current: scaled,
            invert: self.spec_scale_divides(),
            min_seen: spec_lower_of(self.min_seen, self.current),
            max_seen: spec_higher_of(self.max_seen, self.current),
        }
    }

    /// The controller after an improvement: the magnitude is the configured
    /// one again, the rest is kept.
    pub open spec fn restarted(self, initial: Binary64) -> MutationController {
        MutationController { current: initial, ..self }
    }

    /// The controller before anything has happened: the configured
    /// magnitude, multiplying, nothing observed.
    #[verifier::when_used_as_spec(spec_new)]
    pub fn new(initial: Binary64) -> (controller: MutationController)
        ensures
            controller == MutationController::spec_new(initial),
    {
        MutationController { current: initial, invert: false, min_seen: None, max_seen: None }
    }

    /// Whether the magnitude has left the band.
    #[verifier::when_used_as_spec(spec_out_of_band)]
    pub fn out_of_band(self) -> (out: bool)
        ensures
            out == self.spec_out_of_band(),
    {
        self.current.gt(Binary64 { bits: CEILING_BITS })
            || self.current.lt(Binary64 { bits: FLOOR_BITS })
    }

    /// The value that the next adjustment scales.
    #[verifier::when_used_as_spec(spec_scale_base)]
    pub fn scale_base(self, initial: Binary64) -> (base: Binary64)
        ensures
            base == self.spec_scale_base(initial),
    {
        if self.out_of_band() {
            initial
        } else {
            self.current
        }
    }

    /// Whether the next adjustment divides.
    #[verifier::when_used_as_spec(spec_scale_divides)]
    pub fn scale_divides(self) -> (divides: bool)
        ensures
            divides == self.spec_scale_divides(),
    {
        self.invert != self.out_of_band()
    }

    /// Carries out an adjustment, given what scaling
    /// [`MutationController::scale_base`] in the direction of
    /// [`MutationController::scale_divides`] gave.
    pub fn adjust(&mut self, scaled: Binary64)
        ensures
            *final(self) == old(self).adjusted(scaled),
    {
        let divides = self.scale_divides();
        let met = self.current;
        let min_seen = match self.min_seen {
            Some(least) => if met.lt(least) {
                Some(met)
            } else {
                Some(least)
            },
            None => Some(met),
        };
        let max_seen = match self.max_seen {
            Some(greatest) => if met.gt(greatest) {
                Some(met)
            } else {
                Some(greatest)
            },
            None => Some(met),
        };
        self.min_seen = min_seen;
        self.max_seen = max_seen;
        self.invert = divides;
        self.current = scaled;
    }

    /// Puts the magnitude back to the configured value.
    pub fn restart(&mut self, initial: Binary64)
        ensures
            *final(self) == old(self).restarted(initial),
    {
        self.current = initial;
    }
}

} // verus!

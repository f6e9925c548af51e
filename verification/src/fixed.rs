//! Fixed-point scalar samples with twelve fractional decimal digits.

use vstd::prelude::*;

use crate::constants::{MS_PER_SEC, PICOS_PER_MS, PICOS_PER_UNIT};

verus! {

/// A non-negative decimal number held as a count of picounits (multiples of
/// `10^-12`). This is the scalar type of every distribution sample the
/// library emits; its view is the picounit count as a mathematical integer.
#[derive(Clone, Copy, PartialEq, Eq, Structural, Debug)]
pub struct Fixed {
    pub picos: u128,
}

impl View for Fixed {
    type V = int;

    open spec fn view(&self) -> int {
        self.picos as int
    }
}

impl Fixed {
    /// The value zero.
    pub fn zero() -> (r: Fixed)
        ensures
            r@ == 0,
    {
        Fixed { picos: 0 }
    }

    /// The given count of picounits.
    pub fn from_picos(picos: u128) -> (r: Fixed)
        ensures
            r@ == picos,
    {
        Fixed { picos }
    }

    /// The given whole number of units.
    pub fn from_whole(units: u64) -> (r: Fixed)
        ensures
            r@ == units * PICOS_PER_UNIT,
    {
        proof {
            assert((units as int) * (PICOS_PER_UNIT as int) <= 0xffff_ffff_ffff_ffff
                * 1_000_000_000_000) by (nonlinear_arith)
                requires
                    units <= 0xffff_ffff_ffff_ffff,
            ;
        }
        Fixed { picos: (units as u128) * PICOS_PER_UNIT }
    }

    /// A whole number of milliseconds, expressed in seconds.
    pub fn seconds_from_whole_ms(ms: u64) -> (r: Fixed)
        ensures
            r@ == ms * PICOS_PER_MS,
    {
        proof {
            assert((ms as int) * (PICOS_PER_MS as int) <= 0xffff_ffff_ffff_ffff
                * 1_000_000_000) by (nonlinear_arith)
                requires
                    ms <= 0xffff_ffff_ffff_ffff,
            ;
        }
        Fixed { picos: (ms as u128) * PICOS_PER_MS }
    }

    /// Reads this value as a count of milliseconds and returns the same
    /// duration as a count of seconds, truncating below one picounit.
    pub fn ms_to_sec(&self) -> (r: Fixed)
        ensures
            r@ == self@ / (MS_PER_SEC as int),
    {
        Fixed { picos: self.picos / MS_PER_SEC }
    }
}

} // verus!

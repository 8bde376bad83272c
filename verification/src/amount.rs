//! Amounts of native value, in the smallest unit (micro CCD).

use vstd::prelude::*;

verus! {

/// How many smallest units make up one whole unit of currency.
pub const MICRO_CCD_PER_CCD: u64 = 1_000_000;

/// A non-negative amount of native value, counted in the smallest unit.
#[derive(Clone, Copy, PartialEq, Eq, Structural, Debug)]
pub struct Amount {
    pub micro_ccd: u64,
}

impl Amount {
    /// The zero amount.
    pub fn zero() -> (r: Amount)
        ensures
            r.micro_ccd == 0,
    {
        Amount { micro_ccd: 0 }
    }

    /// An amount given directly in the smallest unit.
    pub fn from_micro_ccd(micro_ccd: u64) -> (r: Amount)
        ensures
            r.micro_ccd == micro_ccd,
    {
        Amount { micro_ccd }
    }

    /// An amount given in whole currency units.
    pub fn from_ccd(ccd: u64) -> (r: Amount)
        requires
            ccd * MICRO_CCD_PER_CCD <= u64::MAX,
        ensures
            r.micro_ccd == ccd * MICRO_CCD_PER_CCD,
    {
        Amount { micro_ccd: ccd * MICRO_CCD_PER_CCD }
    }
}

} // verus!

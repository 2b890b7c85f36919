//! Reference input configuration: REFin, doubler, R counter and divider.

use vstd::prelude::*;

use crate::constants::{PFD_FREQ_INTN_MAX, REF_IN_FREQ_MAX, REF_IN_FREQ_MIN};
use crate::errors::Error;

verus! {

/// Phase detector frequency produced by a reference path:
/// `REFin x (1 + doubler) / R / (1 + divider)`.
pub open spec fn ref_pfd_spec(f: int, r: int, doubler: bool, divider: bool) -> int {
    f * (1 + if doubler {
        1int
    } else {
        0int
    }) / r / (1 + if divider {
        1int
    } else {
        0int
    })
}

/// Input reference frequency configuration.
#[derive(Debug, Clone, Copy, PartialEq, Eq, Structural)]
pub struct RefIn {
    /// Input frequency, Hz.
    f: u32,
    /// R counter value.
    r: u32,
    /// True if the 2x doubler is enabled.
    doubler: bool,
    /// True if the 2x divider is enabled.
    divider: bool,
}

impl RefIn {
    /// The constructor's invariant: input frequency in the supported range,
    /// R counter in its legal range.
    pub closed spec fn wf(self) -> bool {
        &&& REF_IN_FREQ_MIN <= self.f < REF_IN_FREQ_MAX
        &&& 1 <= self.r <= 1023
    }

    /// The phase detector frequency of this configuration.
    pub closed spec fn f_pfd_spec(self) -> int {
        ref_pfd_spec(self.f as int, self.r as int, self.doubler, self.divider)
    }

    /// Configure a reference input.  Rejects an input frequency outside the
    /// supported range, and a derived phase detector frequency above the
    /// absolute (integer-N) ceiling — in fractional-N mode the practical
    /// limit is lower and enforced by planning policy, not here.
    pub fn new(f: u32, r: u32, doubler: bool, divider: bool) -> (res: Result<RefIn, Error>)
        requires
            1 <= r <= 1023,
        ensures
            res is Ok <==> REF_IN_FREQ_MIN <= f < REF_IN_FREQ_MAX && ref_pfd_spec(
                f as int,
                r as int,
                doubler,
                divider,
            ) <= PFD_FREQ_INTN_MAX,
            res matches Ok(ri) ==> ri.wf() && ri.f_pfd_spec() == ref_pfd_spec(
                f as int,
                r as int,
                doubler,
                divider,
            ),
            res matches Err(e) ==> e == Error::InvalidReferenceFrequency,
    {
        if !(REF_IN_FREQ_MIN <= f && f < REF_IN_FREQ_MAX) {
            return Err(Error::InvalidReferenceFrequency);
        }
        let res = RefIn { f, r, doubler, divider };
        if res.f_pfd() > PFD_FREQ_INTN_MAX {
            Err(Error::InvalidReferenceFrequency)
        } else {
            Ok(res)
        }
    }

    /// The phase detector frequency:
    /// `fPFD = REFin x (1 + D) / (R x (1 + T))` where D is the doubler bit,
    /// R the reference division factor and T the divide-by-2 bit.
    pub fn f_pfd(&self) -> (v: u32)
        requires
            self.wf(),
        ensures
            v as int == self.f_pfd_spec(),
    {
        let d: u32 = if self.doubler {
            1
        } else {
            0
        };
        let t: u32 = if self.divider {
            1
        } else {
            0
        };
        proof {
            assert(self.f * (1 + d) < 500_000_000) by (nonlinear_arith)
                requires
                    self.f < 250_000_000,
                    d <= 1,
            ;
        }
        self.f * (1 + d) / self.r / (1 + t)
    }
}

} // verus!

//! Device frequency limits.

use vstd::prelude::*;

verus! {

/// Minimum allowed REFin frequency, Hz.
pub const REF_IN_FREQ_MIN: u32 = 10_000_000;

/// Maximum allowed REFin frequency, Hz (exclusive).
pub const REF_IN_FREQ_MAX: u32 = 250_000_000;

/// Max phase detector frequency in fractional-N mode, Hz.
pub const PFD_FREQ_FRACN_MAX: u32 = 32_000_000;

/// Practical phase detector frequency ceiling for fractional-N planning, Hz.
/// Low enough that the minimum INT value imposed by either prescaler is
/// always reachable across the VCO range.
pub const PFD_FREQ_FRACN_EASY_MAX: u32 = 29_000_000;

/// Max phase detector frequency (integer-N, band select enabled), Hz.
pub const PFD_FREQ_INTN_BS_MAX: u32 = 45_000_000;

/// Max phase detector frequency (integer-N, band select disabled), Hz.
/// Absolute ceiling used as a sanity check on any derived PFD frequency.
pub const PFD_FREQ_INTN_MAX: u32 = 90_000_000;

/// Fundamental VCO range (before output dividers), minimum frequency, Hz.
pub const VCO_FREQ_MIN: u64 = 2_200_000_000;

/// Fundamental VCO range (before output dividers), maximum frequency, Hz (exclusive).
pub const VCO_FREQ_MAX: u64 = 4_400_000_000;

/// Minimum allowed output frequency, Hz:
/// lowest fundamental VCO output with divide-by-64 selected.
pub const OUT_FREQ_MIN: u64 = VCO_FREQ_MIN / 64;

/// Maximum allowed output frequency, Hz (exclusive): undivided VCO output.
pub const OUT_FREQ_MAX: u64 = VCO_FREQ_MAX;

/// Highest output frequency at which the 4/5 prescaler may be used, Hz.
/// Above this the 8/9 prescaler is required.
pub const OUT_FREQ_P45_MAX: u64 = 3_600_000_000;

/// Minimum INT value with the 4/5 prescaler.
pub const INT_MIN_P45: u32 = 23;

/// Minimum INT value with the 8/9 prescaler.
pub const INT_MIN_P89: u32 = 75;

} // verus!

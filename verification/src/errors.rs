//! Error taxonomy.

use vstd::prelude::*;

verus! {

/// Everything that can go wrong while planning a configuration or while the
/// caller's transport ships it to the chip.
#[derive(Debug, Clone, Copy, PartialEq, Eq, Structural)]
pub enum Error {
    /// Reference input frequency, or the phase detector frequency derived
    /// from it, is outside the supported bounds.
    InvalidReferenceFrequency,
    /// Target or derived output frequency is outside the supported bounds.
    InvalidOutputFrequency,
    /// Serial bus failure, surfaced unchanged from the transport.
    Spi,
    /// Control pin failure, surfaced unchanged from the transport.
    Pin,
}

} // verus!

//! Control-plane core of a driver for a wideband fractional-N frequency
//! synthesizer chip.
//!
//! The crate turns a desired output frequency and a reference input frequency
//! into the exact bit pattern of six 32-bit hardware configuration words, and
//! can invert that mapping to report the frequency a given configuration
//! produces.  The serial transport that shifts the words out is a separate,
//! unverified concern.

pub mod codec;
pub mod config;
pub mod constants;
pub mod errors;
pub mod frequency;
pub mod refin;
pub mod register;

//! An astrodynamics toolkit that answers translation queries between
//! reference frames against loaded ephemeris data in the NAIF SPICE DAF
//! family of binary formats.
//!
//! State vectors are carried as IEEE-754 double-precision bit patterns so
//! that every decision the toolkit makes (frame-graph traversal, record
//! selection, error reporting) is fully specified, while the floating-point
//! arithmetic itself is delegated to a software IEEE-754 implementation
//! behind a small set of trusted wrappers.

pub mod almanac;
pub mod context;
pub mod daf;
pub mod dataset;
pub mod ephemeris;
pub mod errors;
pub mod fbits;
pub mod frames;
pub mod hrmint;
pub mod interpolation;
pub mod math;
pub mod recordtypes;

use vstd::prelude::*;

verus! {

/// Size in bytes of an IEEE-754 double-precision number.
pub const DBL_SIZE: usize = 8;

} // verus!

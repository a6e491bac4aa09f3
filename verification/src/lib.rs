//! A unit-of-measure library for physical lengths.
//!
//! Every length is stored as an integral count of nanometers, the base
//! unit, and carries a compile-time unit tag that costs no storage.  All
//! arithmetic, comparison and conversion work on the base-unit magnitude,
//! so values with different tags mix correctly by construction.

pub mod laws;
pub mod length;
pub mod sqrt;
pub mod units;

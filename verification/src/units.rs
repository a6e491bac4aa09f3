//! Unit descriptors: compile-time tags naming a unit of length.
//!
//! A descriptor is a zero-sized marker type.  It contributes two
//! compile-time facts: a display name and the number of nanometers in one
//! of the unit.  Adding a unit means declaring one more marker type with
//! those two facts; nothing else in the library changes.

use vstd::prelude::*;

verus! {

/// A compile-time tag for one unit of length.
///
/// The scale is the number of base units (nanometers) per one of this
/// unit; every implementation must show that it is positive.
pub trait LengthUnit: Copy + Eq + Sized {
    /// The unit's display name, singular form, as the specification sees it.
    spec fn spec_name() -> Seq<char>;

    /// Nanometers per one of this unit, as the specification sees it.
    spec fn spec_scale() -> int;

    /// Every unit's scale is a positive count of nanometers.
    proof fn scale_positive()
        ensures
            Self::spec_scale() > 0,
    ;

    /// The unit's display name, singular form.
    fn singular_name() -> (s: String)
        ensures
            s@ == Self::spec_name(),
    ;

    /// Nanometers per one of this unit.
    fn num_nm_in_unit() -> (n: i64)
        ensures
            n as int == Self::spec_scale(),
            0 < n,
    ;
}

/// The meter: 1,000,000,000 nanometers.
#[derive(Debug, Copy, Clone, Eq, PartialEq, Structural)]
pub struct Meters;

impl LengthUnit for Meters {
    open spec fn spec_name() -> Seq<char> {
        "meter"@
    }

    open spec fn spec_scale() -> int {
        1_000_000_000
    }

    proof fn scale_positive() {
    }

    fn singular_name() -> (s: String) {
        "meter".to_owned()
    }

    fn num_nm_in_unit() -> (n: i64) {
        1_000_000_000
    }
}

/// The millimeter: 1,000,000 nanometers.
#[derive(Debug, Copy, Clone, Eq, PartialEq, Structural)]
pub struct Millimeters;

impl LengthUnit for Millimeters {
    open spec fn spec_name() -> Seq<char> {
        "millimeter"@
    }

    open spec fn spec_scale() -> int {
        1_000_000
    }

    proof fn scale_positive() {
    }

    fn singular_name() -> (s: String) {
        "millimeter".to_owned()
    }

    fn num_nm_in_unit() -> (n: i64) {
        1_000_000
    }
}

/// The kilometer: 1,000,000,000,000 nanometers.
#[derive(Debug, Copy, Clone, Eq, PartialEq, Structural)]
pub struct Kilometers;

impl LengthUnit for Kilometers {
    open spec fn spec_name() -> Seq<char> {
        "kilometer"@
    }

    open spec fn spec_scale() -> int {
        1_000_000_000_000
    }

    proof fn scale_positive() {
    }

    fn singular_name() -> (s: String) {
        "kilometer".to_owned()
    }

    fn num_nm_in_unit() -> (n: i64) {
        1_000_000_000_000
    }
}

} // verus!

//! The algebraic laws of the tagged-length design, stated and proved
//! once over the same specification functions that the executable
//! operations promise in their contracts.

use core::cmp::Ordering;
use vstd::arithmetic::div_mod::lemma_div_multiples_vanish;
use vstd::arithmetic::mul::lemma_mul_is_commutative;
use vstd::prelude::*;
use vstd::std_specs::cmp::{PartialEqSpec, PartialOrdSpec};
use vstd::std_specs::ops::AddSpec;

use crate::length::Length;
use crate::units::LengthUnit;

verus! {

/// Round-trip conversion: a length built from `n` units of `U` holds
/// `n * scale` nanometers, and dividing that magnitude by the scale
/// gives back exactly `n`, for every integer `n` and every unit.  (The
/// executable read-back divides in floating point outside the library;
/// it is exact whenever this integer division is.)
pub proof fn lemma_round_trip<U: LengthUnit>(n: int)
    ensures
        (n * U::spec_scale()) / U::spec_scale() == n,
{
    U::scale_positive();
    lemma_mul_is_commutative(n, U::spec_scale());
    lemma_div_multiples_vanish(n, U::spec_scale());
}

/// Unit independence of comparison: two lengths with the same base-unit
/// magnitude are equal, and order as equal, whatever pair of unit tags
/// they carry.  The tags play no part in `==`, `<` or `partial_cmp`.
pub proof fn lemma_compare_ignores_tags<U1: LengthUnit, U2: LengthUnit>(
    a: Length<U1>,
    b: Length<U2>,
)
    requires
        a@ == b@,
    ensures
        a.eq_spec(&b),
        a.partial_cmp_spec(&b) == Some(Ordering::Equal),
{
}

/// The physical value of a sum does not depend on the order of the
/// operands: `x + y` and `y + x` hold the same base-unit magnitude,
/// whatever the two unit tags; only the display tag is left-biased.
pub proof fn lemma_add_physical_commutes<U1: LengthUnit, U2: LengthUnit>(
    x: Length<U1>,
    y: Length<U2>,
)
    ensures
        x.add_spec(y)@ == y.add_spec(x)@,
{
}

} // verus!

//! The tagged length type and its arithmetic.
//!
//! A `Length<U>` stores one field: the magnitude in nanometers.  The unit
//! tag `U` is a zero-sized compile-time marker that picks the scale used
//! when a length is built from, or read back as, a plain number.  The
//! magnitude is the sole source of truth: equality, ordering and all
//! arithmetic go by it alone, so values with different tags combine
//! correctly without explicit conversion.

use core::cmp::Ordering;
use core::marker::PhantomData;
use vstd::prelude::*;

use crate::units::LengthUnit;

verus! {

/// Truncating (round-toward-zero) integer division: the behaviour of
/// Rust's `/` on signed integers.  The specification operator `/` alone
/// is Euclidean, which differs on negative dividends.
pub open spec fn div_trunc(a: int, b: int) -> int {
    let q = vstd::math::abs(a) / vstd::math::abs(b);
    if (a >= 0) == (b >= 0) {
        q as int
    } else {
        -(q as int)
    }
}

/// A physical length: a count of nanometers labeled with a unit tag.
///
/// The tag contributes no storage; a `Length<U>` is exactly as large as
/// its `i64` magnitude.
#[derive(Debug, Copy)]
pub struct Length<U: LengthUnit> {
    /// The magnitude in nanometers (the base unit).
    pub nm: i64,
    /// The zero-sized unit tag.
    pub unit: PhantomData<U>,
}

impl<U: LengthUnit> Clone for Length<U> {
    fn clone(&self) -> (result: Self)
        ensures
            result == *self,
    {
        *self
    }
}

impl<U: LengthUnit> View for Length<U> {
    type V = int;

    /// A length is viewed as its base-unit magnitude, a mathematical integer.
    open spec fn view(&self) -> int {
        self.nm as int
    }
}

impl<U: LengthUnit> Length<U> {
    /// Builds the length of `n` units of `U`: `n * U::spec_scale()` nanometers.
    ///
    /// The caller shows that the magnitude fits the 64-bit base field;
    /// `checked_from_number` makes that test at run time instead.
    pub fn from_number(n: i64) -> (result: Self)
        requires
            i64::MIN <= n * U::spec_scale() <= i64::MAX,
        ensures
            result@ == n * U::spec_scale(),
    {
        let scale = U::num_nm_in_unit();
        Length { nm: n * scale, unit: PhantomData }
    }

    /// Builds the length of `n` units of `U`, or reports that its
    /// magnitude would not fit the 64-bit base field.
    pub fn checked_from_number(n: i64) -> (result: Option<Self>)
        ensures
            result is Some <==> i64::MIN <= n * U::spec_scale() <= i64::MAX,
            result matches Some(l) ==> l@ == n * U::spec_scale(),
    {
        let scale = U::num_nm_in_unit();
        match n.checked_mul(scale) {
            Some(nm) => Some(Length { nm, unit: PhantomData }),
            None => None,
        }
    }

    /// Relabels the length with unit tag `U2`: the stored magnitude is
    /// copied verbatim, since storage is already unit-independent.
    pub fn relabel<U2: LengthUnit>(&self) -> (result: Length<U2>)
        ensures
            result@ == self@,
    {
        Length { nm: self.nm, unit: PhantomData }
    }

    /// The magnitude in nanometers.
    pub fn magnitude_nm(&self) -> (n: i64)
        ensures
            n as int == self@,
    {
        self.nm
    }
}

/// `Length + Length`: the magnitudes add; the result keeps the left
/// operand's tag (left-biased tag propagation).
impl<U1: LengthUnit, U2: LengthUnit> std::ops::Add<Length<U2>> for Length<U1> {
    type Output = Length<U1>;

    fn add(self, other: Length<U2>) -> (result: Length<U1>) {
        Length { nm: self.nm + other.nm, unit: PhantomData }
    }
}

impl<U1: LengthUnit, U2: LengthUnit> vstd::std_specs::ops::AddSpecImpl<Length<U2>> for Length<U1> {
    open spec fn obeys_add_spec() -> bool {
        true
    }

    open spec fn add_req(self, other: Length<U2>) -> bool {
        i64::MIN <= self@ + other@ <= i64::MAX
    }

    open spec fn add_spec(self, other: Length<U2>) -> Length<U1> {
        Length { nm: (self@ + other@) as i64, unit: PhantomData }
    }
}

/// `Length - Length`: the magnitudes subtract; the result keeps the left
/// operand's tag.
impl<U1: LengthUnit, U2: LengthUnit> std::ops::Sub<Length<U2>> for Length<U1> {
    type Output = Length<U1>;

    fn sub(self, other: Length<U2>) -> (result: Length<U1>) {
        Length { nm: self.nm - other.nm, unit: PhantomData }
    }
}

impl<U1: LengthUnit, U2: LengthUnit> vstd::std_specs::ops::SubSpecImpl<Length<U2>> for Length<U1> {
    open spec fn obeys_sub_spec() -> bool {
        true
    }

    open spec fn sub_req(self, other: Length<U2>) -> bool {
        i64::MIN <= self@ - other@ <= i64::MAX
    }

    open spec fn sub_spec(self, other: Length<U2>) -> Length<U1> {
        Length { nm: (self@ - other@) as i64, unit: PhantomData }
    }
}

/// `Length * scalar`: the magnitude scales; the tag is unchanged.
impl<U: LengthUnit> std::ops::Mul<i64> for Length<U> {
    type Output = Length<U>;

    fn mul(self, other: i64) -> (result: Length<U>) {
        Length { nm: self.nm * other, unit: PhantomData }
    }
}

impl<U: LengthUnit> vstd::std_specs::ops::MulSpecImpl<i64> for Length<U> {
    open spec fn obeys_mul_spec() -> bool {
        true
    }

    open spec fn mul_req(self, other: i64) -> bool {
        i64::MIN <= self@ * other <= i64::MAX
    }

    open spec fn mul_spec(self, other: i64) -> Length<U> {
        Length { nm: (self@ * other) as i64, unit: PhantomData }
    }
}

/// `Length / scalar`: the magnitude divides, rounding toward zero as
/// Rust's integer `/` does; the tag is unchanged.  A zero scalar, and
/// the one overflowing pair (`i64::MIN / -1`), are ruled out by the
/// operator's precondition.
impl<U: LengthUnit> std::ops::Div<i64> for Length<U> {
    type Output = Length<U>;

    fn div(self, other: i64) -> (result: Length<U>) {
        match self.nm.checked_div(other) {
            Some(nm) => Length { nm, unit: PhantomData },
            None => {
                proof {
                    // `checked_div` reports None only for a zero divisor or
                    // for `i64::MIN / -1`; the precondition rules both out.
                    let x = self.nm as int;
                    let d = other as int;
                    if x > 0 && d > 0 {
                        vstd::arithmetic::div_mod::lemma_div_pos_is_pos(x, d);
                        vstd::arithmetic::div_mod::lemma_div_nonincreasing(x, d);
                    } else if x < 0 && d < 0 {
                        vstd::arithmetic::div_mod::lemma_div_pos_is_pos(-x, -d);
                        if -d > 1 {
                            vstd::arithmetic::div_mod::lemma_div_decreases(-x, -d);
                        }
                    } else if x < 0 {
                        vstd::arithmetic::div_mod::lemma_div_pos_is_pos(-x, d);
                        vstd::arithmetic::div_mod::lemma_div_nonincreasing(-x, d);
                    } else if x > 0 {
                        vstd::arithmetic::div_mod::lemma_div_pos_is_pos(x, -d);
                        vstd::arithmetic::div_mod::lemma_div_nonincreasing(x, -d);
                    }
                    assert(false);
                }
                unreached()
            },
        }
    }
}

impl<U: LengthUnit> vstd::std_specs::ops::DivSpecImpl<i64> for Length<U> {
    open spec fn obeys_div_spec() -> bool {
        true
    }

    open spec fn div_req(self, other: i64) -> bool {
        other != 0 && !(self@ == i64::MIN && other == -1)
    }

    open spec fn div_spec(self, other: i64) -> Length<U> {
        Length { nm: div_trunc(self@, other as int) as i64, unit: PhantomData }
    }
}

/// `Length == Length`, across any pair of unit tags: lengths are equal
/// exactly when their base-unit magnitudes are equal.  The tags play no
/// part; a length is a length.
impl<U1: LengthUnit, U2: LengthUnit> PartialEq<Length<U2>> for Length<U1> {
    fn eq(&self, other: &Length<U2>) -> (result: bool) {
        self.nm == other.nm
    }
}

impl<U1: LengthUnit, U2: LengthUnit> vstd::std_specs::cmp::PartialEqSpecImpl<Length<U2>> for Length<U1> {
    open spec fn obeys_eq_spec() -> bool {
        true
    }

    open spec fn eq_spec(&self, other: &Length<U2>) -> bool {
        self@ == other@
    }
}

/// `Length < Length` and friends, across any pair of unit tags: lengths
/// order by their base-unit magnitudes alone.
impl<U1: LengthUnit, U2: LengthUnit> PartialOrd<Length<U2>> for Length<U1> {
    fn partial_cmp(&self, other: &Length<U2>) -> (result: Option<Ordering>) {
        if self.nm < other.nm {
            Some(Ordering::Less)
        } else if self.nm == other.nm {
            Some(Ordering::Equal)
        } else {
            Some(Ordering::Greater)
        }
    }
}

impl<U1: LengthUnit, U2: LengthUnit> vstd::std_specs::cmp::PartialOrdSpecImpl<Length<U2>> for Length<U1> {
    open spec fn obeys_partial_cmp_spec() -> bool {
        true
    }

    open spec fn partial_cmp_spec(&self, other: &Length<U2>) -> Option<Ordering> {
        if self@ < other@ {
            Some(Ordering::Less)
        } else if self@ == other@ {
            Some(Ordering::Equal)
        } else {
            Some(Ordering::Greater)
        }
    }
}

/// Numerator of the library's rational approximation of pi.
pub const PI_NUMERATOR: u64 = 884_279_719_003_555;

/// Denominator of the library's rational approximation of pi: 2^48.
/// Of all fractions with this denominator, the one above is the
/// closest to pi; it is good to about 16 decimal digits.
pub const PI_DENOMINATOR: u64 = 281_474_976_710_656;

/// The base-unit magnitude of the circumference of a circle whose
/// radius has base-unit magnitude `r`: `2 * r * pi`, with pi entering
/// as the fraction above and the product rounded toward zero.
pub open spec fn circumference_magnitude(r: int) -> int {
    div_trunc(2 * r * (PI_NUMERATOR as int), PI_DENOMINATOR as int)
}

/// The circumference of the circle with radius `r`: `2 * r * pi`,
/// reported in the same unit tag as the radius.  The magnitude is the
/// real product rounded toward zero to the base-unit grid; the caller
/// shows that it fits the 64-bit base field.
pub fn circumference<U: LengthUnit>(r: Length<U>) -> (result: Length<U>)
    requires
        i64::MIN <= circumference_magnitude(r@) <= i64::MAX,
    ensures
        result@ == circumference_magnitude(r@),
{
    let neg = r.nm < 0;
    let wide: i128 = r.nm as i128;
    let mag: u128 = if neg {
        (-wide) as u128
    } else {
        wide as u128
    };
    proof {
        assert(mag == vstd::math::abs(r@));
        vstd::arithmetic::mul::lemma_mul_upper_bound(
            2 * mag,
            0x2_0000_0000_0000_0000,
            PI_NUMERATOR as int,
            0x4_0000_0000_0000,
        );
    }
    let prod: u128 = 2 * mag * (PI_NUMERATOR as u128);
    let q: u128 = prod / (PI_DENOMINATOR as u128);
    proof {
        vstd::arithmetic::div_mod::lemma_div_nonincreasing(prod as int, PI_DENOMINATOR as int);
        assert(vstd::math::abs(2 * r@ * (PI_NUMERATOR as int)) == 2 * mag * (PI_NUMERATOR as int))
            by (nonlinear_arith)
            requires
                mag == vstd::math::abs(r@),
        ;
    }
    let signed: i128 = if neg {
        -(q as i128)
    } else {
        q as i128
    };
    let nm: i64 = signed as i64;
    Length { nm, unit: PhantomData }
}

} // verus!


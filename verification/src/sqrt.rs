//! Integer square root of a length's magnitude.
//!
//! The root is found digit by digit: pairs of bits of the magnitude are
//! examined from the highest set pair downward; each step shifts the
//! candidate root left by one bit and keeps the incremented candidate
//! exactly when its square still fits under the bits seen so far.
//!
//! Units carry no dimensional exponent in this library, so the "square
//! root of a length" is not a physically sound quantity; the operation
//! is kept for the algorithm itself, and the result simply reuses the
//! input's tag.

use core::marker::PhantomData;
use vstd::arithmetic::div_mod::{
    lemma_basic_div, lemma_div_denominator, lemma_div_is_ordered, lemma_div_nonincreasing,
    lemma_fundamental_div_mod,
};
use vstd::arithmetic::power2::{lemma2_to64, lemma2_to64_rest, lemma_pow2_adds, lemma_pow2_pos, pow2};
use vstd::bits::{lemma_u64_shl_is_mul, lemma_u64_shr_is_div};
use vstd::prelude::*;

use crate::length::Length;
use crate::units::LengthUnit;

verus! {

/// `r` is the integer square root of `n`: the largest integer whose
/// square does not exceed `n`.
pub open spec fn is_isqrt(n: int, r: int) -> bool {
    &&& 0 <= r
    &&& r * r <= n
    &&& n < (r + 1) * (r + 1)
}

/// One digit-by-digit step.  `m` extends `a` by two fresh low bits `b`,
/// so `m == 4 * a + b`; the root of `m` is then twice the root of `a`,
/// plus one exactly when the square of the incremented candidate still
/// fits under `m`.
proof fn lemma_isqrt_step(a: int, b: int, m: int, r: int)
    requires
        0 <= b < 4,
        m == 4 * a + b,
        is_isqrt(a, r),
    ensures
        (2 * r + 1) * (2 * r + 1) <= m ==> is_isqrt(m, 2 * r + 1),
        (2 * r + 1) * (2 * r + 1) > m ==> is_isqrt(m, 2 * r),
{
    assert((2 * r) * (2 * r) <= m && m < (2 * r + 2) * (2 * r + 2)) by (nonlinear_arith)
        requires
            0 <= b < 4,
            m == 4 * a + b,
            0 <= r,
            r * r <= a,
            a < (r + 1) * (r + 1),
    ;
}

/// A value below `b * b` has its integer square root below `b`.
proof fn lemma_root_bound(n: int, r: int, b: int)
    requires
        is_isqrt(n, r),
        0 <= b,
        n < b * b,
    ensures
        r < b,
{
    assert(r < b) by (nonlinear_arith)
        requires
            0 <= r,
            0 <= b,
            r * r <= n,
            n < b * b,
    ;
}

impl<U: LengthUnit> Length<U> {
    /// The length whose magnitude is the integer square root of this
    /// length's base-unit magnitude, under the same tag, or a
    /// descriptive failure when the magnitude is negative.
    pub fn sqrt(self) -> (result: Result<Self, String>)
        ensures
            result is Ok <==> 0 <= self@,
            result matches Ok(root) ==> is_isqrt(self@, root@),
            result matches Err(msg) ==> msg@ == "Can't take sqrt of negative number"@,
    {
        if self.nm < 0 {
            return Err("Can't take sqrt of negative number".to_owned());
        }
        let n: u64 = self.nm as u64;

        // Find the greatest even shift that leaves some of `n` standing.
        let mut shift: u64 = 2;
        while shift < 64 && (n >> shift) != 0
            invariant
                2 <= shift <= 64,
                shift % 2 == 0,
                shift == 2 || n as nat / pow2((shift - 2) as nat) != 0,
            decreases 64 - shift,
        {
            proof {
                lemma_u64_shr_is_div(n, shift);
            }
            shift = shift + 2;
        }
        proof {
            if shift < 64 {
                lemma_u64_shr_is_div(n, shift);
            } else {
                lemma2_to64_rest();
                lemma_basic_div(n as int, pow2(64) as int);
            }
            assert(n as nat / pow2(shift as nat) == 0);
        }
        shift = shift - 2;

        // Find the digits of the result, two bits of `n` at a time.
        let mut result: u64 = 0;
        let mut ishift: i64 = shift as i64;
        while ishift >= 0
            invariant
                -2 <= ishift <= 62,
                ishift % 2 == 0,
                n < 0x1_0000_0000_0000_0000,
                is_isqrt((n as nat / pow2((ishift + 2) as nat)) as int, result as int),
            decreases ishift + 2,
        {
            let sh: u64 = ishift as u64;
            let cur: u64 = n >> sh;
            let ghost m: int = (n as nat / pow2(sh as nat)) as int;
            let ghost m_prev: int = (n as nat / pow2((sh + 2) as nat)) as int;
            let ghost r: int = result as int;
            proof {
                lemma_u64_shr_is_div(n, sh);
                lemma_pow2_pos(sh as nat);
                lemma_pow2_adds(sh as nat, 2);
                lemma2_to64();
                lemma_div_denominator(n as int, pow2(sh as nat) as int, 4);
                assert(m_prev == m / 4);
                lemma_fundamental_div_mod(m, 4);
                lemma_isqrt_step(m / 4, m % 4, m, r);
                lemma_div_nonincreasing(n as int, pow2(sh as nat) as int);
                lemma_div_is_ordered(m, 0xFFFF_FFFF_FFFF_FFFF, 4);
                lemma_root_bound(m / 4, r, 0x8000_0000);
                lemma_u64_shl_is_mul(result, 1);
            }
            result = result << 1u64;
            let candidate: u64 = result + 1;
            proof {
                assert(candidate * candidate < 0x1_0000_0000_0000_0000) by (nonlinear_arith)
                    requires
                        candidate <= 0xFFFF_FFFFu64,
                ;
            }
            if candidate * candidate <= cur {
                result = candidate;
            }
            ishift = ishift - 2;
        }
        proof {
            lemma2_to64();
            assert(n as nat / pow2(0) == n as nat);
            lemma_root_bound(n as int, result as int, 0x1_0000_0000);
        }

        Ok(Length { nm: result as i64, unit: PhantomData })
    }
}

} // verus!

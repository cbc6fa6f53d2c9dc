//! Alignment of a type, from the exponent that the compiler's layout records.

use vstd::prelude::*;
use vstd::arithmetic::power2::pow2;

verus! {

/// The alignment in bytes that the exponent `pow2_exp` stands for: two to that power.
/// Exponents that do not give a `u64` (64 and above) are refused (`requires`).
pub fn align_from_exponent(pow2_exp: u8) -> (r: u64)
    requires
        pow2_exp < 64,
    ensures
        r == pow2(pow2_exp as nat),
{
    let shift: u64 = pow2_exp as u64;
    proof {
        vstd::bits::lemma_u64_pow2_no_overflow(shift as nat);
        vstd::bits::lemma_u64_shl_is_mul(1, shift);
    }
    1u64 << shift
}

} // verus!

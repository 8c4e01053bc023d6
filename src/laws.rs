use vstd::prelude::*;

use crate::measure::{is_nan, key, non_positive, passes_positive, Measure, MAGNITUDE_MASK, SIGN_MASK, ZERO_BITS};
use crate::rules::all_pass_positive;

verus! {

/// Zero of either sign, and every negative value, count as zero or negative
/// (so every rule reports `NegativeValue` for them) and fail the "strictly
/// positive" rule: a zero input is rejected, never passed on to a formula.
pub proof fn zero_and_negatives_fail_positive(b: u64)
    requires
        !is_nan(b),
        (b & SIGN_MASK) != 0 || (b & MAGNITUDE_MASK) == 0,
    ensures
        non_positive(b),
        !passes_positive(b),
{
    assert(0u64 & 0x8000_0000_0000_0000u64 == 0u64) by (bit_vector);
    assert(0u64 & 0x7fff_ffff_ffff_ffffu64 == 0u64) by (bit_vector);
    assert(0u64 & 0x7ff0_0000_0000_0000u64 == 0u64) by (bit_vector);
    assert(key(ZERO_BITS) == 0);
    assert(!is_nan(ZERO_BITS));
    assert(key(b) <= 0);
}

/// A square of side `s` passes validation exactly when the rectangle with
/// both sides `s` does.
pub proof fn square_checks_as_rectangle(s: Measure)
    ensures
        all_pass_positive(seq![s]) == all_pass_positive(seq![s, s]),
{
    if all_pass_positive(seq![s]) {
        assert(passes_positive(seq![s][0].bits));
    } else {
        assert(!passes_positive(seq![s][0].bits));
        assert(!passes_positive(seq![s, s][0].bits));
    }
}

} // verus!

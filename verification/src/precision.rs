//! The factor by which coordinates are scaled before their fraction is cut
//! off, as a whole number where it is small enough to be one.

use vstd::prelude::*;
use vstd::arithmetic::power::{pow, lemma_pow0, lemma_pow_increases};

verus! {

/// The largest precision whose scale fits 64 bits.
pub const MAX_PRECISION: usize = 19;

/// Ten to the power of `precision`: a coordinate `v` is kept as
/// `trunc(v * scale) / scale`.
pub open spec fn scale_of(precision: nat) -> int {
    pow(10, precision)
}

/// Every scale up to the largest precision fits 64 bits.
pub proof fn lemma_scale_fits(precision: nat)
    requires
        precision <= MAX_PRECISION,
    ensures
        1 <= scale_of(precision) <= 10_000_000_000_000_000_000,
        scale_of(precision + 1) == 10 * scale_of(precision),
{
    lemma_pow0(10);
    lemma_pow_increases(10, 0, precision);
    lemma_pow_increases(10, precision, MAX_PRECISION as nat);
    assert(pow(10, 19) == 10_000_000_000_000_000_000) by {
        reveal_with_fuel(pow, 20);
    }
    reveal_with_fuel(pow, 2);
}

/// Computes the scale of a precision as a whole number, if it fits 64 bits.
/// Every precision is a good one; from 20 on its scale is only too large to
/// be handed out this way.
pub fn precision_scale(precision: usize) -> (scale: Option<u64>)
    ensures
        scale is Some <==> precision <= MAX_PRECISION,
        scale matches Some(s) ==> s == scale_of(precision as nat),
{
    if precision > MAX_PRECISION {
        return None;
    }
    let mut scale: u64 = 1;
    let mut done: usize = 0;
    proof {
        lemma_pow0(10);
    }
    while done < precision
        invariant
            done <= precision <= MAX_PRECISION,
            scale == scale_of(done as nat),
        decreases precision - done,
    {
        proof {
            lemma_scale_fits(done as nat);
            lemma_scale_fits((done + 1) as nat);
        }
        scale = scale * 10;
        done = done + 1;
    }
    Some(scale)
}

} // verus!

//! Triangular numbers, the usual spacing of ring distances.

use vstd::prelude::*;
use crate::scalar::{Scalar, EXACT_WHOLE_LIMIT};

verus! {

/// The sequence can be asked for up to this length. The triangular number
/// that would come next is 2^53 + 2^26, and `Scalar::from_whole` gives no bit
/// pattern from 2^53 on.
pub const MAX_TRIANGULAR_LEN: usize = 134_217_727;

/// The `k`-th triangular number: 1, 3, 6, 10, 15, ... for `k` from 1.
pub open spec fn triangular(k: nat) -> nat {
    k * (k + 1) / 2
}

/// Each triangular number is the one before it plus its own index.
pub proof fn lemma_triangular_step(k: nat)
    ensures
        triangular(k + 1) == triangular(k) + k + 1,
        triangular(0) == 0,
{
    assert((k + 1) * (k + 2) == k * (k + 1) + 2 * (k + 1)) by (nonlinear_arith);
}

/// The triangular numbers grow with their index.
pub proof fn lemma_triangular_grows(j: nat, k: nat)
    requires
        j <= k,
    ensures
        triangular(j) <= triangular(k),
        j < k ==> triangular(j) < triangular(k),
    decreases k - j,
{
    if j < k {
        lemma_triangular_step(j);
        lemma_triangular_grows(j + 1, k);
    }
}

/// Returns the first `n` triangular numbers, without the zeroth, each as the
/// bit pattern of that whole number.
pub fn triangular_sequence(n: usize) -> (numbers: Vec<Scalar>)
    requires
        n <= MAX_TRIANGULAR_LEN,
    ensures
        numbers@.len() == n,
        forall|i: int| 0 <= i < n ==> (#[trigger] numbers@[i]).is_whole(triangular((i + 1) as nat)),
{
    let mut numbers: Vec<Scalar> = Vec::new();
    let mut sum: u64 = 0;
    let mut k: usize = 0;
    proof {
        lemma_triangular_step(0);
    }
    while k < n
        invariant
            k <= n <= MAX_TRIANGULAR_LEN,
            sum == triangular(k as nat),
            numbers@.len() == k,
            forall|i: int|
                0 <= i < k ==> (#[trigger] numbers@[i]).is_whole(triangular((i + 1) as nat)),
        decreases n - k,
    {
        proof {
            lemma_triangular_step(k as nat);
            lemma_triangular_grows((k + 1) as nat, MAX_TRIANGULAR_LEN as nat);
            assert(triangular(MAX_TRIANGULAR_LEN as nat) < EXACT_WHOLE_LIMIT) by (nonlinear_arith);
        }
        k = k + 1;
        sum = sum + k as u64;
        match Scalar::from_whole(sum) {
            Some(whole) => {
                numbers.push(whole);
            },
            None => {},
        }
    }
    numbers
}

} // verus!

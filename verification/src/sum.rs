//! Summing a vector of 32-bit integers, with an exact result.

use vstd::prelude::*;

verus! {

/// The mathematical sum of a sequence of 32-bit integers.
pub open spec fn sum_seq(s: Seq<i32>) -> int
    decreases s.len(),
{
    if s.len() == 0 {
        0
    } else {
        sum_seq(s.drop_last()) + s.last()
    }
}

/// The sum of all elements. The precondition asks that every prefix sum
/// be representable, which the result type forces; with it the sum is
/// exact however the caller splits or orders the work.
pub fn sum(v: Vec<i32>) -> (r: i32)
    requires
        forall|k: int| 0 <= k <= v@.len() ==> i32::MIN <= sum_seq(#[trigger] v@.take(k)) <= i32::MAX,
    ensures
        r == sum_seq(v@),
{
    let mut total: i32 = 0;
    let mut k: usize = 0;
    while k < v.len()
        invariant
            0 <= k <= v@.len(),
            total == sum_seq(v@.take(k as int)),
            forall|j: int|
                0 <= j <= v@.len() ==> i32::MIN <= sum_seq(#[trigger] v@.take(j)) <= i32::MAX,
        decreases v@.len() - k,
    {
        proof {
            assert(v@.take(k as int + 1).drop_last() =~= v@.take(k as int));
            assert(v@.take(k as int + 1).last() == v@[k as int]);
        }
        total = total + v[k];
        k = k + 1;
    }
    proof {
        assert(v@.take(v@.len() as int) =~= v@);
    }
    total
}

} // verus!

//! Sums over a buffer of unsigned 8-bit audio samples. The arithmetic mean
//! that the host reports is this sum divided by the length; the sum and its
//! bounds are what carry the mean's guarantees.

use vstd::prelude::*;

verus! {

/// The sum of a sequence of samples, as an unbounded integer.
pub open spec fn sum_of(s: Seq<u8>) -> int
    decreases s.len(),
{
    if s.len() == 0 {
        0
    } else {
        sum_of(s.drop_last()) + s.last()
    }
}

/// A sum of samples is never negative and never exceeds 255 per sample.
pub proof fn lemma_sum_bounds(s: Seq<u8>)
    ensures
        0 <= sum_of(s) <= 255 * s.len(),
    decreases s.len(),
{
    if s.len() > 0 {
        lemma_sum_bounds(s.drop_last());
    }
}

/// A buffer whose samples are all the same value sums to length times that
/// value, so its mean is exactly that value.
pub proof fn lemma_sum_constant(s: Seq<u8>, v: u8)
    requires
        forall|i: int| 0 <= i < s.len() ==> s[i] == v,
    ensures
        sum_of(s) == s.len() * v,
    decreases s.len(),
{
    if s.len() > 0 {
        lemma_sum_constant(s.drop_last(), v);
        assert(s.len() * v == (s.len() - 1) * v + v) by (nonlinear_arith);
    }
}

/// Sum a sample buffer, widened so that no intermediate value overflows.
pub fn sum_samples(data: &[u8]) -> (sum: u64)
    requires
        255 * data@.len() <= u64::MAX,
    ensures
        sum == sum_of(data@),
        sum <= 255 * data@.len(),
{
    let mut sum: u64 = 0;
    let mut i: usize = 0;
    while i < data.len()
        invariant
            i <= data@.len(),
            255 * data@.len() <= u64::MAX,
            sum == sum_of(data@.subrange(0, i as int)),
            sum <= 255 * i,
        decreases data@.len() - i,
    {
        proof {
            assert(data@.subrange(0, i + 1).drop_last() =~= data@.subrange(0, i as int));
            assert(data@.subrange(0, i + 1).last() == data@[i as int]);
            assert(255 * (i + 1) <= 255 * data@.len()) by (nonlinear_arith)
                requires
                    i + 1 <= data@.len(),
            ;
        }
        sum = sum + data[i] as u64;
        i = i + 1;
    }
    proof {
        assert(data@.subrange(0, data@.len() as int) =~= data@);
    }
    sum
}

} // verus!

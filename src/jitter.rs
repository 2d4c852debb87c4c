use vstd::prelude::*;

verus! {

/// Distance between two samples.
pub open spec fn abs_diff(a: u64, b: u64) -> nat {
    if a >= b {
        (a - b) as nat
    } else {
        (b - a) as nat
    }
}

/// Sum of the distances between consecutive samples of `s`.
pub open spec fn sum_abs_diffs(s: Seq<u64>) -> nat
    decreases s.len(),
{
    if s.len() < 2 {
        0
    } else {
        sum_abs_diffs(s.drop_last()) + abs_diff(s[s.len() - 2], s[s.len() - 1])
    }
}

/// Jitter of a sample sequence: the mean distance between consecutive
/// samples (rounded down), and zero for fewer than two samples.
pub open spec fn jitter_of(s: Seq<u64>) -> nat {
    if s.len() < 2 {
        0
    } else {
        sum_abs_diffs(s) / ((s.len() - 1) as nat)
    }
}

/// Jitter of a sequence of round-trip samples: the mean absolute difference
/// between consecutive samples, rounded down, in the samples' own unit.
pub fn calculate_jitter(samples: &[u64]) -> (r: u64)
    ensures
        r == jitter_of(samples@),
        samples@.len() < 2 ==> r == 0,
{
    let n = samples.len();
    if n < 2 {
        return 0;
    }
    let mut sum: u128 = 0;
    let mut i: usize = 1;
    while i < n
        invariant
            1 <= i <= n,
            n == samples@.len(),
            sum == sum_abs_diffs(samples@.subrange(0, i as int)),
            sum <= (i - 1) * (u64::MAX as int),
        decreases n - i,
    {
        let a = samples[i - 1];
        let b = samples[i];
        let d: u64 = if a >= b {
            a - b
        } else {
            b - a
        };
        proof {
            let t = samples@.subrange(0, i + 1);
            assert(t.drop_last() =~= samples@.subrange(0, i as int));
            assert((i - 1) * (u64::MAX as int) + u64::MAX == i * (u64::MAX as int))
                by (nonlinear_arith);
            assert(i * (u64::MAX as int) < u128::MAX) by (nonlinear_arith)
                requires
                    i < u64::MAX,
            ;
        }
        sum = sum + d as u128;
        i = i + 1;
    }
    assert(samples@.subrange(0, n as int) =~= samples@);
    let gaps = (n - 1) as u128;
    let q = sum / gaps;
    assert(q <= u64::MAX) by (nonlinear_arith)
        requires
            sum <= gaps * (u64::MAX as int),
            gaps > 0,
            q == sum / gaps,
    ;
    q as u64
}

} // verus!

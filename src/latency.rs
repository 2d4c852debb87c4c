use vstd::prelude::*;
use vstd::string::*;
use crate::config::TestConfig;
use crate::error::SpeedTestError;
use crate::jitter::{calculate_jitter, jitter_of};
use crate::progress::{fraction_ppm, ProgressUpdate, TestPhase};
use crate::results::LatencyResult;

verus! {

/// `seg` is the trailing dash-delimited segment of `s`: the longest suffix
/// of `s` that holds no dash.
pub open spec fn is_last_segment(seg: Seq<char>, s: Seq<char>) -> bool {
    &&& seg.len() <= s.len()
    &&& seg == s.subrange(s.len() - seg.len(), s.len() as int)
    &&& forall|k: int| 0 <= k < seg.len() ==> seg[k] != '-'
    &&& seg.len() < s.len() ==> s[s.len() - seg.len() - 1] == '-'
}

/// Sum of the samples.
pub open spec fn seq_sum(s: Seq<u64>) -> nat
    decreases s.len(),
{
    if s.len() == 0 {
        0
    } else {
        (seq_sum(s.drop_last()) + s.last()) as nat
    }
}

/// Smallest sample (zero for no samples).
pub open spec fn seq_min(s: Seq<u64>) -> u64
    decreases s.len(),
{
    if s.len() == 0 {
        0
    } else if s.len() == 1 {
        s[0]
    } else if seq_min(s.drop_last()) <= s.last() {
        seq_min(s.drop_last())
    } else {
        s.last()
    }
}

/// Largest sample (zero for no samples).
pub open spec fn seq_max(s: Seq<u64>) -> u64
    decreases s.len(),
{
    if s.len() == 0 {
        0
    } else if s.len() == 1 {
        s[0]
    } else if seq_max(s.drop_last()) >= s.last() {
        seq_max(s.drop_last())
    } else {
        s.last()
    }
}

/// The statistics of `kept`, as a latency result reports them.
pub open spec fn describes(r: LatencyResult, kept: Seq<u64>) -> bool {
    &&& r.samples@ == kept
    &&& r.min_us == seq_min(kept)
    &&& r.max_us == seq_max(kept)
    &&& r.avg_us == seq_sum(kept) / kept.len()
    &&& r.jitter_us == jitter_of(kept)
}

/// Server location hint carried by a ray header of the form `<hex>-<LOCATION>`:
/// the text after the last dash, or the whole header where it has none.
pub fn location_from_ray(ray: &str) -> (r: String)
    ensures
        is_last_segment(r@, ray@),
{
    let n = ray.unicode_len();
    let mut j: usize = n;
    while j > 0 && ray.get_char(j - 1) != '-'
        invariant
            n == ray@.len(),
            j <= n,
            forall|k: int| j <= k < n ==> ray@[k] != '-',
        decreases j,
    {
        j = j - 1;
    }
    let seg = ray.substring_char(j, n);
    let r = seg.to_owned();
    assert(r@ == ray@.subrange(n - r@.len(), n as int));
    r
}

proof fn lemma_sum_bound(s: Seq<u64>)
    ensures
        seq_sum(s) <= s.len() * (u64::MAX as int),
    decreases s.len(),
{
    if s.len() > 0 {
        lemma_sum_bound(s.drop_last());
        assert((s.len() - 1) * (u64::MAX as int) + u64::MAX == s.len() * (u64::MAX as int))
            by (nonlinear_arith);
    }
}

/// Drops the first `warmup` samples and summarises the rest; fails with
/// `InvalidResponse` exactly when no sample is left.
pub fn summarize_latency(all_samples: &Vec<u64>, warmup: usize) -> (r: Result<LatencyResult, SpeedTestError>)
    ensures
        r is Err <==> warmup >= all_samples@.len(),
        r is Err ==> r->Err_0 is InvalidResponse,
        r is Ok ==> describes(r->Ok_0, all_samples@.skip(warmup as int)),
{
    let n = all_samples.len();
    if warmup >= n {
        return Err(SpeedTestError::InvalidResponse(
            "No valid latency samples after discarding warmup".to_owned(),
        ));
    }
    let ghost all = all_samples@;
    let mut kept: Vec<u64> = Vec::new();
    let mut min_us: u64 = all_samples[warmup];
    let mut max_us: u64 = all_samples[warmup];
    let mut sum: u128 = 0;
    let mut i: usize = warmup;
    while i < n
        invariant
            all == all_samples@,
            n == all.len(),
            warmup < n,
            warmup <= i <= n,
            kept@ == all.subrange(warmup as int, i as int),
            sum == seq_sum(kept@),
            i > warmup ==> min_us == seq_min(kept@) && max_us == seq_max(kept@),
            i == warmup ==> min_us == all[warmup as int] && max_us == all[warmup as int],
        decreases n - i,
    {
        let x = all_samples[i];
        proof {
            lemma_sum_bound(kept@);
            assert(kept@.len() * (u64::MAX as int) + u64::MAX <= u128::MAX) by (nonlinear_arith)
                requires
                    kept@.len() <= usize::MAX,
            ;
        }
        let ghost before = kept@;
        kept.push(x);
        assert(kept@.drop_last() =~= before);
        sum = sum + x as u128;
        if i > warmup {
            if x < min_us {
                min_us = x;
            }
            if x > max_us {
                max_us = x;
            }
        }
        i = i + 1;
        assert(kept@ =~= all.subrange(warmup as int, i as int));
    }
    assert(kept@ =~= all.skip(warmup as int));
    let count = kept.len();
    proof {
        lemma_sum_bound(kept@);
    }
    let avg = sum / (count as u128);
    assert(avg <= u64::MAX) by (nonlinear_arith)
        requires
            sum <= count * (u64::MAX as int),
            count > 0,
            avg == sum / (count as u128),
    ;
    let jitter_us = calculate_jitter(kept.as_slice());
    Ok(LatencyResult { min_us, avg_us: avg as u64, max_us, jitter_us, samples: kept })
}

/// A probe configured with at least as many warmup samples as samples
/// discards every sample it took (it never takes more than its total), which
/// is the condition on which `LatencyProbe::finish` fails with
/// `InvalidResponse`.
pub proof fn lemma_warmup_leaves_nothing(probe: LatencyProbe)
    requires
        probe.warmup >= probe.total,
        probe.samples@.len() <= probe.total,
    ensures
        probe.warmup >= probe.samples@.len(),
{
}

/// Progress of a latency phase: the round trips taken so far and the
/// location hint read from the first response.
pub struct LatencyProbe {
    /// Round trips to take, warmup included.
    pub total: usize,
    /// Leading round trips to discard.
    pub warmup: usize,
    /// Round trips taken so far, in microseconds.
    pub samples: Vec<u64>,
    /// Location hint of the first response, if it carried one.
    pub server_location: Option<String>,
}

impl LatencyProbe {
    /// A probe that has taken nothing yet.
    pub fn new(config: &TestConfig) -> (r: Self)
        ensures
            r.total == config.latency_samples,
            r.warmup == config.latency_warmup,
            r.samples@.len() == 0,
            r.server_location is None,
    {
        LatencyProbe {
            total: config.latency_samples,
            warmup: config.latency_warmup,
            samples: Vec::new(),
            server_location: None,
        }
    }

    /// Whether every round trip has been taken.
    pub fn is_complete(&self) -> (r: bool)
        ensures
            r == (self.samples@.len() >= self.total),
    {
        self.samples.len() >= self.total
    }

    /// Takes one round trip of `rtt_us` microseconds. `ray` is the ray
    /// header of that response, if it had one readable as text; only the
    /// first response's header is read. Returns the event to report.
    pub fn record(&mut self, rtt_us: u64, ray: Option<&str>) -> (r: ProgressUpdate)
        requires
            old(self).samples@.len() < old(self).total,
        ensures
            final(self).total == old(self).total,
            final(self).warmup == old(self).warmup,
            final(self).samples@ == old(self).samples@.push(rtt_us),
            old(self).samples@.len() == 0 && ray is Some ==> final(self).server_location is Some
                && is_last_segment(final(self).server_location->Some_0@, ray->Some_0@),
            !(old(self).samples@.len() == 0 && ray is Some) ==> final(self).server_location
                == old(self).server_location,
            r.phase == TestPhase::Latency,
            r.progress_ppm == fraction_ppm(old(self).samples@.len() + 1, old(self).total as nat),
            r.latency_us == Some(rtt_us),
            r.is_well_formed(),
    {
        let index = self.samples.len();
        if index == 0 {
            match ray {
                Some(text) => {
                    self.server_location = Some(location_from_ray(text));
                },
                None => {},
            }
        }
        self.samples.push(rtt_us);
        ProgressUpdate::latency(index, self.total, rtt_us)
    }

    /// Statistics of the samples kept after warmup, with the location hint;
    /// fails with `InvalidResponse` exactly when warmup leaves no sample.
    pub fn finish(&self) -> (r: Result<(LatencyResult, Option<String>), SpeedTestError>)
        ensures
            r is Err <==> self.warmup >= self.samples@.len(),
            r is Err ==> r->Err_0 is InvalidResponse,
            r is Ok ==> describes(r->Ok_0.0, self.samples@.skip(self.warmup as int)) && r->Ok_0.1
                == self.server_location,
    {
        match summarize_latency(&self.samples, self.warmup) {
            Ok(stats) => Ok((stats, self.server_location.clone())),
            Err(e) => Err(e),
        }
    }
}

} // verus!

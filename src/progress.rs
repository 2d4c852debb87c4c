use vstd::prelude::*;
use crate::results::{bps_of, throughput_bps};

verus! {

/// Progress value of a finished step: progress is counted in millionths.
pub const PROGRESS_COMPLETE: u64 = 1_000_000;

/// Phase of a measurement run, in the order the phases run.
#[derive(Debug, Clone, Copy, PartialEq, Eq, Structural)]
pub enum TestPhase {
    Latency,
    Download,
    Upload,
    PacketLoss,
    Done,
}

/// Share of `done` in `total`, in millionths, rounded down and capped at
/// one whole; an empty total counts as complete.
pub open spec fn fraction_ppm(done: nat, total: nat) -> nat {
    if total == 0 {
        PROGRESS_COMPLETE as nat
    } else if done * (PROGRESS_COMPLETE as nat) / total >= PROGRESS_COMPLETE {
        PROGRESS_COMPLETE as nat
    } else {
        done * (PROGRESS_COMPLETE as nat) / total
    }
}

/// One progress event of a run.
#[derive(Debug, Clone, Copy, PartialEq, Eq, Structural)]
pub struct ProgressUpdate {
    pub phase: TestPhase,
    /// Current rate in bits per second (transfer phases only).
    pub speed_bps: Option<u128>,
    /// Completion of the phase, in millionths.
    pub progress_ppm: u64,
    /// The round trip just measured, in microseconds (latency phase only).
    pub latency_us: Option<u64>,
}

impl ProgressUpdate {
    /// The shape every event has: progress at most one whole; a rate only in
    /// the transfer phases, a round trip only in the latency phase, neither
    /// in the others.
    pub open spec fn is_well_formed(&self) -> bool {
        &&& self.progress_ppm <= PROGRESS_COMPLETE
        &&& (self.speed_bps is Some <==> (self.phase == TestPhase::Download || self.phase
            == TestPhase::Upload))
        &&& (self.latency_us is Some <==> self.phase == TestPhase::Latency)
    }

    /// Event for latency sample `index` (counted from zero) of `total`.
    pub fn latency(index: usize, total: usize, rtt_us: u64) -> (r: Self)
        requires
            index < total,
        ensures
            r.phase == TestPhase::Latency,
            r.progress_ppm == fraction_ppm((index + 1) as nat, total as nat),
            r.latency_us == Some(rtt_us),
            r.speed_bps is None,
            r.is_well_formed(),
    {
        ProgressUpdate {
            phase: TestPhase::Latency,
            speed_bps: None,
            progress_ppm: fraction_of(index as u128 + 1, total as u128),
            latency_us: Some(rtt_us),
        }
    }

    /// Event sampled during a transfer: the rate so far, and the share of
    /// the `expected` bytes moved.
    pub fn transfer(phase: TestPhase, bytes: u64, elapsed_nanos: i64, expected: u128) -> (r: Self)
        requires
            phase == TestPhase::Download || phase == TestPhase::Upload,
        ensures
            r.phase == phase,
            r.speed_bps == Some(bps_of(bytes, elapsed_nanos) as u128),
            r.progress_ppm == fraction_ppm(bytes as nat, expected as nat),
            r.latency_us is None,
            r.is_well_formed(),
    {
        ProgressUpdate {
            phase,
            speed_bps: Some(throughput_bps(bytes, elapsed_nanos)),
            progress_ppm: fraction_of(bytes as u128, expected),
            latency_us: None,
        }
    }

    /// Closing event of a transfer: the exact final rate, and completion.
    pub fn transfer_final(phase: TestPhase, bytes: u64, elapsed_nanos: i64) -> (r: Self)
        requires
            phase == TestPhase::Download || phase == TestPhase::Upload,
        ensures
            r.phase == phase,
            r.speed_bps == Some(bps_of(bytes, elapsed_nanos) as u128),
            r.progress_ppm == PROGRESS_COMPLETE,
            r.latency_us is None,
            r.is_well_formed(),
    {
        ProgressUpdate {
            phase,
            speed_bps: Some(throughput_bps(bytes, elapsed_nanos)),
            progress_ppm: PROGRESS_COMPLETE,
            latency_us: None,
        }
    }

    /// Event for packet-loss probe `index` (counted from zero) of `count`.
    pub fn packet_loss(index: usize, count: usize) -> (r: Self)
        requires
            index < count,
        ensures
            r.phase == TestPhase::PacketLoss,
            r.progress_ppm == fraction_ppm((index + 1) as nat, count as nat),
            r.speed_bps is None,
            r.latency_us is None,
            r.is_well_formed(),
    {
        ProgressUpdate {
            phase: TestPhase::PacketLoss,
            speed_bps: None,
            progress_ppm: fraction_of(index as u128 + 1, count as u128),
            latency_us: None,
        }
    }

    /// The closing event of a run.
    pub fn done() -> (r: Self)
        ensures
            r.phase == TestPhase::Done,
            r.progress_ppm == PROGRESS_COMPLETE,
            r.speed_bps is None,
            r.latency_us is None,
            r.is_well_formed(),
    {
        ProgressUpdate {
            phase: TestPhase::Done,
            speed_bps: None,
            progress_ppm: PROGRESS_COMPLETE,
            latency_us: None,
        }
    }
}

/// Share of `done` in `total` in millionths, capped at one whole.
fn fraction_of(done: u128, total: u128) -> (r: u64)
    requires
        done <= u64::MAX,
    ensures
        r == fraction_ppm(done as nat, total as nat),
{
    if total == 0 {
        return PROGRESS_COMPLETE;
    }
    assert(done * (PROGRESS_COMPLETE as u128) <= u64::MAX * 1_000_000) by (nonlinear_arith)
        requires
            done <= u64::MAX,
    ;
    let scaled = done * (PROGRESS_COMPLETE as u128) / total;
    if scaled >= PROGRESS_COMPLETE as u128 {
        PROGRESS_COMPLETE
    } else {
        scaled as u64
    }
}

/// The progress share never falls as more of the same total is done.
pub proof fn lemma_fraction_monotonic(a: nat, b: nat, total: nat)
    requires
        a <= b,
    ensures
        fraction_ppm(a, total) <= fraction_ppm(b, total),
{
    if total > 0 {
        let k = PROGRESS_COMPLETE as nat;
        assert(a * k <= b * k) by (nonlinear_arith)
            requires
                a <= b,
        ;
        vstd::arithmetic::div_mod::lemma_div_is_ordered((a * k) as int, (b * k) as int, total as int);
    }
}

} // verus!

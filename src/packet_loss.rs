use vstd::prelude::*;
use crate::config::TestConfig;
use crate::progress::{fraction_ppm, ProgressUpdate, TestPhase};

verus! {

/// Basis points in one whole: a loss of every probe.
pub const FULL_LOSS_BP: u64 = 10_000;

/// What became of one packet-loss probe.
#[derive(Debug, Clone, Copy, PartialEq, Eq, Structural)]
pub enum ProbeOutcome {
    /// No answer came before the probe's deadline.
    TimedOut,
    /// The transport failed before an answer came.
    Failed,
    /// An answer came with this HTTP status code.
    Status(u16),
}

/// HTTP status codes that count as success: the 2xx class.
pub open spec fn is_success_status(code: u16) -> bool {
    200 <= code <= 299
}

/// A probe is lost when it timed out, failed, or was answered without success.
pub open spec fn lost_probe(outcome: ProbeOutcome) -> bool {
    match outcome {
        ProbeOutcome::Status(code) => !is_success_status(code),
        _ => true,
    }
}

/// Share of `lost` probes among `count`, in basis points rounded down; zero
/// when no probe was sent.
pub open spec fn loss_bp(lost: nat, count: nat) -> nat {
    if count == 0 {
        0
    } else {
        lost * (FULL_LOSS_BP as nat) / count
    }
}

/// Whether a probe with this outcome counts as lost.
pub fn is_lost(outcome: ProbeOutcome) -> (r: bool)
    ensures
        r == lost_probe(outcome),
{
    match outcome {
        ProbeOutcome::Status(code) => !(200 <= code && code <= 299),
        _ => true,
    }
}

/// Share of lost probes in basis points (hundredths of a percent).
pub fn loss_basis_points(lost: usize, count: usize) -> (r: u64)
    requires
        lost <= count,
    ensures
        r == loss_bp(lost as nat, count as nat),
        r <= FULL_LOSS_BP,
{
    if count == 0 {
        return 0;
    }
    assert((lost as u128) * (FULL_LOSS_BP as u128) <= u64::MAX * 10_000) by (nonlinear_arith)
        requires
            lost <= u64::MAX,
    ;
    let r = (lost as u128) * (FULL_LOSS_BP as u128) / (count as u128);
    assert(r <= FULL_LOSS_BP) by (nonlinear_arith)
        requires
            lost <= count,
            count > 0,
            r == (lost as int) * 10_000 / (count as int),
    ;
    r as u64
}

/// Losing every probe is a loss of one whole; losing none is no loss.
pub proof fn lemma_loss_extremes(count: nat)
    requires
        count > 0,
    ensures
        loss_bp(count, count) == FULL_LOSS_BP,
        loss_bp(0, count) == 0,
{
    assert(count * (FULL_LOSS_BP as nat) / count == FULL_LOSS_BP) by (nonlinear_arith)
        requires
            count > 0,
    ;
}

/// Progress of a packet-loss phase: probes sent and lost so far.
pub struct PacketLossProbe {
    /// Probes to send.
    pub count: usize,
    /// Probes sent so far.
    pub sent: usize,
    /// Probes lost so far.
    pub lost: usize,
}

impl PacketLossProbe {
    /// A probe sequence with nothing sent yet.
    pub fn new(config: &TestConfig) -> (r: Self)
        ensures
            r.count == config.packet_loss_count,
            r.sent == 0,
            r.lost == 0,
    {
        PacketLossProbe { count: config.packet_loss_count, sent: 0, lost: 0 }
    }

    /// Whether every probe has been sent.
    pub fn is_complete(&self) -> (r: bool)
        ensures
            r == (self.sent >= self.count),
    {
        self.sent >= self.count
    }

    /// Counts one probe; returns the event to report.
    pub fn record(&mut self, outcome: ProbeOutcome) -> (r: ProgressUpdate)
        requires
            old(self).sent < old(self).count,
            old(self).lost <= old(self).sent,
        ensures
            final(self).count == old(self).count,
            final(self).sent == old(self).sent + 1,
            final(self).lost == old(self).lost + if lost_probe(outcome) {
                1int
            } else {
                0int
            },
            final(self).lost <= final(self).sent,
            r.phase == TestPhase::PacketLoss,
            r.progress_ppm == fraction_ppm((old(self).sent + 1) as nat, old(self).count as nat),
            r.is_well_formed(),
    {
        let index = self.sent;
        if is_lost(outcome) {
            self.lost = self.lost + 1;
        }
        self.sent = self.sent + 1;
        ProgressUpdate::packet_loss(index, self.count)
    }

    /// Share of the probes sent that were lost, in basis points.
    pub fn finish(&self) -> (r: u64)
        requires
            self.lost <= self.sent,
        ensures
            r == loss_bp(self.lost as nat, self.sent as nat),
    {
        loss_basis_points(self.lost, self.sent)
    }
}

} // verus!

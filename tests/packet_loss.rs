use tej_core::packet_loss::{is_lost, loss_basis_points};
use tej_core::{PacketLossProbe, ProbeOutcome, TestConfig, TestPhase};

#[test]
fn every_probe_lost_is_full_loss() {
    let config = TestConfig::default();
    let mut probe = PacketLossProbe::new(&config);
    while !probe.is_complete() {
        probe.record(ProbeOutcome::TimedOut);
    }
    assert_eq!(probe.sent, 20);
    assert_eq!(probe.finish(), 10_000);
}

#[test]
fn no_probe_lost_is_no_loss() {
    let config = TestConfig::default();
    let mut probe = PacketLossProbe::new(&config);
    while !probe.is_complete() {
        probe.record(ProbeOutcome::Status(200));
    }
    assert_eq!(probe.finish(), 0);
}

#[test]
fn one_loss_in_twenty_is_five_percent() {
    let config = TestConfig::default();
    let mut probe = PacketLossProbe::new(&config);
    probe.record(ProbeOutcome::Failed);
    while !probe.is_complete() {
        probe.record(ProbeOutcome::Status(204));
    }
    let bp = probe.finish();
    assert_eq!(bp, 500);
    assert!((bp as f64 / 100.0 - 5.0).abs() < 1e-9);
}

#[test]
fn loss_share_rounds_down() {
    assert_eq!(loss_basis_points(1, 3), 3_333);
    assert_eq!(loss_basis_points(0, 0), 0);
    assert_eq!(loss_basis_points(7, 7), 10_000);
}

#[test]
fn outcome_classification() {
    assert!(is_lost(ProbeOutcome::TimedOut));
    assert!(is_lost(ProbeOutcome::Failed));
    assert!(is_lost(ProbeOutcome::Status(404)));
    assert!(is_lost(ProbeOutcome::Status(500)));
    assert!(is_lost(ProbeOutcome::Status(199)));
    assert!(is_lost(ProbeOutcome::Status(300)));
    assert!(!is_lost(ProbeOutcome::Status(200)));
    assert!(!is_lost(ProbeOutcome::Status(299)));
}

#[test]
fn probe_progress_events() {
    let config = TestConfig { packet_loss_count: 4, ..TestConfig::default() };
    let mut probe = PacketLossProbe::new(&config);
    let u = probe.record(ProbeOutcome::Status(503));
    assert_eq!(u.phase, TestPhase::PacketLoss);
    assert_eq!(u.progress_ppm, 250_000);
    assert_eq!(u.speed_bps, None);
    assert_eq!(u.latency_us, None);
    assert_eq!(probe.lost, 1);
}

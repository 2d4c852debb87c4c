use tej_core::{SpeedTestResult, ThroughputResult};

#[test]
fn test_throughput_normal() {
    let r = ThroughputResult::new(1_000_000, 1_000_000_000);
    assert!((r.bps as f64 - 8_000_000.0).abs() < 0.01);
    assert!((r.mbps_milli as f64 / 1000.0 - 8.0).abs() < 0.01);
}

#[test]
fn test_throughput_zero_duration() {
    let r = ThroughputResult::new(1_000_000, 0);
    assert_eq!(r.bps, 0);
    assert_eq!(r.mbps_milli, 0);
}

#[test]
fn test_throughput_zero_bytes() {
    let r = ThroughputResult::new(0, 1_000_000_000);
    assert_eq!(r.bps, 0);
    assert_eq!(r.mbps_milli, 0);
}

#[test]
fn test_throughput_negative_duration() {
    let r = ThroughputResult::new(1000, -1_000_000_000);
    assert_eq!(r.bps, 0);
}

#[test]
fn throughput_keeps_inputs() {
    let r = ThroughputResult::new(10_000_000, 2_000_000_000);
    assert_eq!(r.bps, 40_000_000);
    assert_eq!(r.mbps_milli, 40_000);
    assert_eq!(r.bytes_transferred, 10_000_000);
    assert_eq!(r.duration_nanos, 2_000_000_000);
}

#[test]
fn throughput_largest_inputs() {
    let r = ThroughputResult::new(u64::MAX, 1);
    assert_eq!(r.bps, (u64::MAX as u128) * 8_000_000_000);
}

#[test]
fn new_result_is_empty_and_stamped() {
    let r = SpeedTestResult::new();
    assert!(r.server_location.is_none());
    assert!(r.latency.is_none());
    assert!(r.download.is_none());
    assert!(r.upload.is_none());
    assert!(r.packet_loss_bp.is_none());
    // after 2020-01-01
    assert!(r.timestamp_micros > 1_577_836_800_000_000);
}

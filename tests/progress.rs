use tej_core::progress::PROGRESS_COMPLETE;
use tej_core::{upload_tick, ProgressUpdate, TestPhase};

#[test]
fn transfer_progress_is_capped() {
    let u = ProgressUpdate::transfer(TestPhase::Download, 2_000, 1_000_000_000, 1_000);
    assert_eq!(u.progress_ppm, PROGRESS_COMPLETE);
    assert_eq!(u.speed_bps, Some(16_000));
    let half = ProgressUpdate::transfer(TestPhase::Download, 500, 1_000_000_000, 1_000);
    assert_eq!(half.progress_ppm, 500_000);
    let empty_goal = ProgressUpdate::transfer(TestPhase::Download, 0, 1, 0);
    assert_eq!(empty_goal.progress_ppm, PROGRESS_COMPLETE);
}

#[test]
fn final_transfer_event_is_complete() {
    let u = ProgressUpdate::transfer_final(TestPhase::Upload, 1_000_000, 1_000_000_000);
    assert_eq!(u.phase, TestPhase::Upload);
    assert_eq!(u.progress_ppm, PROGRESS_COMPLETE);
    assert_eq!(u.speed_bps, Some(8_000_000));
    assert_eq!(u.latency_us, None);
}

#[test]
fn upload_tick_waits_for_time() {
    assert_eq!(upload_tick(10, 0, 100), None);
    let u = upload_tick(25, 1_000_000_000, 100).unwrap();
    assert_eq!(u.phase, TestPhase::Upload);
    assert_eq!(u.progress_ppm, 250_000);
    assert_eq!(u.speed_bps, Some(200));
}

#[test]
fn done_event_carries_nothing() {
    let u = ProgressUpdate::done();
    assert_eq!(u.phase, TestPhase::Done);
    assert_eq!(u.progress_ppm, PROGRESS_COMPLETE);
    assert_eq!(u.speed_bps, None);
    assert_eq!(u.latency_us, None);
}

use tej_core::calculate_jitter;

#[test]
fn test_jitter_empty() {
    assert_eq!(calculate_jitter(&[]), 0);
}

#[test]
fn test_jitter_single() {
    assert_eq!(calculate_jitter(&[5_000]), 0);
}

#[test]
fn test_jitter_constant() {
    assert_eq!(calculate_jitter(&[10_000, 10_000, 10_000]), 0);
}

#[test]
fn test_jitter_known_values() {
    // |11-10| + |9-11| + |10-9| = 1 + 2 + 1 = 4 ms, over 3 gaps
    let jitter = calculate_jitter(&[10_000, 11_000, 9_000, 10_000]);
    let jitter_ms = jitter as f64 / 1000.0;
    assert!((jitter_ms - 1.3333).abs() < 0.01);
    assert_eq!(jitter, 1_333);
}

#[test]
fn jitter_of_two_samples_is_their_distance() {
    assert_eq!(calculate_jitter(&[7, 3]), 4);
    assert_eq!(calculate_jitter(&[0, u64::MAX]), u64::MAX);
}

use tej_core::data::{cycle_buffer, generate_random_buffer, BUFFER_SIZE};
use tej_core::random_payload;

#[test]
fn test_random_buffer_size() {
    let buf = generate_random_buffer();
    assert_eq!(buf.len(), BUFFER_SIZE);
}

#[test]
fn test_random_buffer_not_all_zeros() {
    let buf = generate_random_buffer();
    assert!(buf.iter().any(|&b| b != 0));
}

#[test]
fn test_random_payload_exact_size() {
    let payload = random_payload(5_000_000);
    assert_eq!(payload.len(), 5_000_000);
}

#[test]
fn test_random_payload_small() {
    let payload = random_payload(100);
    assert_eq!(payload.len(), 100);
}

#[test]
fn random_payload_repeats_its_block() {
    let payload = random_payload(BUFFER_SIZE + 10);
    assert_eq!(&payload[BUFFER_SIZE..], &payload[..10]);
    assert!(payload.iter().any(|&b| b != 0));
}

#[test]
fn random_payload_empty() {
    assert!(random_payload(0).is_empty());
}

#[test]
fn cycle_buffer_repeats_base() {
    let base = vec![1u8, 2, 3];
    assert_eq!(cycle_buffer(&base, 7), vec![1, 2, 3, 1, 2, 3, 1]);
    assert_eq!(cycle_buffer(&base, 2), vec![1, 2]);
    assert!(cycle_buffer(&base, 0).is_empty());
}

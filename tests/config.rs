use tej_core::TestConfig;

#[test]
fn test_default_config_has_valid_download_sizes() {
    let config = TestConfig::default();
    assert!(!config.download_sizes.is_empty());
    assert!(config.download_sizes[0] > 0);
}

#[test]
fn test_default_config_warmup_less_than_samples() {
    let config = TestConfig::default();
    assert!(config.latency_warmup < config.latency_samples);
}

#[test]
fn test_default_config_connections_in_range() {
    let config = TestConfig::default();
    assert!(config.parallel_connections >= 1 && config.parallel_connections <= 32);
}

#[test]
fn default_config_values() {
    let config = TestConfig::default();
    assert_eq!(config.download_sizes, vec![100_000, 1_000_000, 10_000_000, 25_000_000]);
    assert_eq!(config.download_url, "https://speed.cloudflare.com/__down");
    assert_eq!(config.upload_url, "https://speed.cloudflare.com/__up");
    assert_eq!(config.latency_url, "https://speed.cloudflare.com/__down");
    assert_eq!(config.parallel_connections, 6);
    assert_eq!(config.upload_size, 10_000_000);
    assert_eq!(config.latency_samples, 20);
    assert_eq!(config.latency_warmup, 3);
    assert_eq!(config.timeout_ms, 30_000);
    assert_eq!(config.packet_loss_count, 20);
    assert_eq!(config.packet_loss_timeout_ms, 2_000);
    assert!(!config.skip_download);
    assert!(!config.skip_upload);
}

#[test]
fn connection_count_is_bounded() {
    let mut config = TestConfig::default();
    assert!(config.set_parallel_connections(0).is_err());
    assert_eq!(config.parallel_connections, 6);
    assert_eq!(config.set_parallel_connections(33), Err("connections must be between 1 and 32".to_string()));
    assert_eq!(config.parallel_connections, 6);
    assert!(config.set_parallel_connections(1).is_ok());
    assert_eq!(config.parallel_connections, 1);
    assert!(config.set_parallel_connections(32).is_ok());
    assert_eq!(config.parallel_connections, 32);
}

//! Measurement engine of a network speed test: latency and jitter, download
//! and upload throughput, packet loss, and the sequencing of those phases.
//!
//! Times are integers: round-trip samples in microseconds, transfer durations
//! in nanoseconds. Rates are bits per second, progress is in millionths, and
//! packet loss is in basis points (hundredths of a percent).

pub mod config;
pub mod data;
pub mod download;
pub mod error;
pub mod history;
pub mod jitter;
pub mod latency;
pub mod packet_loss;
pub mod progress;
pub mod results;
pub mod runner;
pub mod upload;

pub use config::TestConfig;
pub use data::random_payload;
pub use download::select_test_size;
pub use error::SpeedTestError;
pub use jitter::calculate_jitter;
pub use latency::{LatencyProbe, summarize_latency};
pub use packet_loss::{PacketLossProbe, ProbeOutcome};
pub use progress::{ProgressUpdate, TestPhase};
pub use results::{LatencyResult, SpeedTestResult, ThroughputResult};
pub use runner::SpeedTestRun;
pub use upload::upload_tick;

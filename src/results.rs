use vstd::prelude::*;

verus! {

/// Nanoseconds in one second.
pub const NANOS_PER_SEC: u64 = 1_000_000_000;

/// Bits per second for `bytes` moved in `nanos` nanoseconds, rounded down;
/// zero unless the duration is positive.
pub open spec fn bps_of(bytes: u64, nanos: i64) -> nat {
    if nanos > 0 {
        ((bytes * 8 * NANOS_PER_SEC) / (nanos as int)) as nat
    } else {
        0
    }
}

/// Rate in bits per second for `bytes` moved in `nanos` nanoseconds: zero when
/// the duration is zero or negative.
pub fn throughput_bps(bytes: u64, nanos: i64) -> (r: u128)
    ensures
        r == bps_of(bytes, nanos),
{
    if nanos > 0 {
        assert((bytes as u128) * 8 * (NANOS_PER_SEC as u128) <= u64::MAX * 8_000_000_000)
            by (nonlinear_arith);
        let bits = (bytes as u128) * 8 * (NANOS_PER_SEC as u128);
        bits / (nanos as u128)
    } else {
        0
    }
}

/// Round-trip statistics of the samples kept after warmup, in microseconds.
#[derive(Debug, Clone)]
pub struct LatencyResult {
    /// Smallest round trip.
    pub min_us: u64,
    /// Mean round trip, rounded down.
    pub avg_us: u64,
    /// Largest round trip.
    pub max_us: u64,
    /// Mean absolute difference between consecutive samples, rounded down.
    pub jitter_us: u64,
    /// The samples kept, in the order they were taken.
    pub samples: Vec<u64>,
}

/// Outcome of one transfer phase.
#[derive(Debug, Clone, Copy, PartialEq, Eq)]
pub struct ThroughputResult {
    /// Rate in bits per second, rounded down.
    pub bps: u128,
    /// Rate in thousandths of a megabit per second, rounded down.
    pub mbps_milli: u128,
    /// Bytes moved during the phase.
    pub bytes_transferred: u64,
    /// Length of the phase in nanoseconds.
    pub duration_nanos: i64,
}

impl ThroughputResult {
    /// Throughput of `bytes` moved in `duration_nanos`; a duration that is
    /// not positive gives a rate of zero whatever the byte count.
    pub fn new(bytes: u64, duration_nanos: i64) -> (r: Self)
        ensures
            r.bps == bps_of(bytes, duration_nanos),
            r.mbps_milli == r.bps / 1000,
            r.bytes_transferred == bytes,
            r.duration_nanos == duration_nanos,
            duration_nanos <= 0 ==> r.bps == 0 && r.mbps_milli == 0,
    {
        let bps = throughput_bps(bytes, duration_nanos);
        ThroughputResult {
            bps,
            mbps_milli: bps / 1000,
            bytes_transferred: bytes,
            duration_nanos,
        }
    }
}

/// Relies on chrono::Utc::now, read through DateTime::timestamp_micros: the
/// current time as microseconds since the Unix epoch. Nothing is promised of
/// the value, which depends on the clock.
#[verifier::external_body]
fn now_unix_micros() -> (r: i64) {
    chrono::Utc::now().timestamp_micros()
}

/// Everything one run measured. A field stays empty for a phase that was
/// skipped or that yielded nothing.
#[derive(Debug, Clone)]
pub struct SpeedTestResult {
    /// When the run started, in microseconds since the Unix epoch.
    pub timestamp_micros: i64,
    /// Short code of the server location that answered.
    pub server_location: Option<String>,
    pub latency: Option<LatencyResult>,
    pub download: Option<ThroughputResult>,
    pub upload: Option<ThroughputResult>,
    /// Share of probes lost, in basis points (10000 is every probe).
    pub packet_loss_bp: Option<u64>,
}

impl SpeedTestResult {
    /// An empty result stamped with the current time.
    pub fn new() -> (r: Self)
        ensures
            r.server_location is None,
            r.latency is None,
            r.download is None,
            r.upload is None,
            r.packet_loss_bp is None,
    {
        SpeedTestResult {
            timestamp_micros: now_unix_micros(),
            server_location: None,
            latency: None,
            download: None,
            upload: None,
            packet_loss_bp: None,
        }
    }
}

impl Default for SpeedTestResult {
    fn default() -> (r: Self)
        ensures
            r.server_location is None,
            r.latency is None,
            r.download is None,
            r.upload is None,
            r.packet_loss_bp is None,
    {
        Self::new()
    }
}

} // verus!

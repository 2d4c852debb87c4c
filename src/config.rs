use vstd::prelude::*;

verus! {

/// Largest number of parallel transfer connections a run may use.
pub const MAX_CONNECTIONS: usize = 32;

/// Parameters of one measurement run; read-only once built.
#[derive(Debug, Clone)]
pub struct TestConfig {
    pub download_url: String,
    pub upload_url: String,
    pub latency_url: String,
    /// Transfers run side by side in each transfer phase.
    pub parallel_connections: usize,
    /// Candidate download sizes in bytes, ascending; the first is the warmup size.
    pub download_sizes: Vec<usize>,
    /// Bytes sent by each upload connection.
    pub upload_size: usize,
    /// Round trips taken in the latency phase, warmup included.
    pub latency_samples: usize,
    /// Leading round trips discarded before the statistics.
    pub latency_warmup: usize,
    /// Deadline of each request, in milliseconds.
    pub timeout_ms: u64,
    /// Probes sent in the packet-loss phase.
    pub packet_loss_count: usize,
    /// Deadline of each packet-loss probe, in milliseconds.
    pub packet_loss_timeout_ms: u64,
    pub skip_download: bool,
    pub skip_upload: bool,
}

impl TestConfig {
    /// A configuration a run can use: fewer warmup samples than samples,
    /// a connection count in `1..=32`, and a positive warmup download size.
    pub open spec fn is_valid(&self) -> bool {
        &&& self.latency_warmup < self.latency_samples
        &&& 1 <= self.parallel_connections <= MAX_CONNECTIONS
        &&& self.download_sizes@.len() > 0
        &&& self.download_sizes@[0] > 0
    }

    /// Sets the number of parallel connections. A count outside `1..=32` is
    /// refused with a message, and the configuration is left as it was.
    pub fn set_parallel_connections(&mut self, connections: usize) -> (r: Result<(), String>)
        ensures
            r is Ok <==> 1 <= connections <= MAX_CONNECTIONS,
            r is Ok ==> *final(self) == (TestConfig {
                parallel_connections: connections,
                ..*old(self)
            }),
            r is Err ==> *final(self) == *old(self),
            old(self).is_valid() ==> final(self).is_valid(),
    {
        if connections == 0 || connections > MAX_CONNECTIONS {
            return Err("connections must be between 1 and 32".to_owned());
        }
        self.parallel_connections = connections;
        Ok(())
    }
}

impl Default for TestConfig {
    fn default() -> (r: Self)
        ensures
            r.is_valid(),
            r.download_url@ == "https://speed.cloudflare.com/__down"@,
            r.upload_url@ == "https://speed.cloudflare.com/__up"@,
            r.latency_url@ == "https://speed.cloudflare.com/__down"@,
            r.parallel_connections == 6,
            r.download_sizes@ == seq![100_000usize, 1_000_000, 10_000_000, 25_000_000],
            r.upload_size == 10_000_000,
            r.latency_samples == 20,
            r.latency_warmup == 3,
            r.timeout_ms == 30_000,
            r.packet_loss_count == 20,
            r.packet_loss_timeout_ms == 2_000,
            !r.skip_download,
            !r.skip_upload,
    {
        let mut download_sizes: Vec<usize> = Vec::new();
        download_sizes.push(100_000);
        download_sizes.push(1_000_000);
        download_sizes.push(10_000_000);
        download_sizes.push(25_000_000);
        assert(download_sizes@ =~= seq![100_000usize, 1_000_000, 10_000_000, 25_000_000]);
        TestConfig {
            download_url: "https://speed.cloudflare.com/__down".to_owned(),
            upload_url: "https://speed.cloudflare.com/__up".to_owned(),
            latency_url: "https://speed.cloudflare.com/__down".to_owned(),
            parallel_connections: 6,
            download_sizes,
            upload_size: 10_000_000,
            latency_samples: 20,
            latency_warmup: 3,
            timeout_ms: 30_000,
            packet_loss_count: 20,
            packet_loss_timeout_ms: 2_000,
            skip_download: false,
            skip_upload: false,
        }
    }
}

} // verus!

use vstd::prelude::*;
use crate::config::TestConfig;
use crate::progress::{ProgressUpdate, TestPhase, PROGRESS_COMPLETE};
use crate::results::{LatencyResult, SpeedTestResult, ThroughputResult};

verus! {

/// The phase that follows `phase`: latency first, then download and upload
/// unless skipped, then packet loss, then done.
pub open spec fn phase_after(phase: TestPhase, skip_download: bool, skip_upload: bool) -> TestPhase {
    match phase {
        TestPhase::Latency => if !skip_download {
            TestPhase::Download
        } else if !skip_upload {
            TestPhase::Upload
        } else {
            TestPhase::PacketLoss
        },
        TestPhase::Download => if !skip_upload {
            TestPhase::Upload
        } else {
            TestPhase::PacketLoss
        },
        TestPhase::Upload => TestPhase::PacketLoss,
        TestPhase::PacketLoss => TestPhase::Done,
        TestPhase::Done => TestPhase::Done,
    }
}

/// The phase that follows `phase` under `config`.
pub fn next_phase(phase: TestPhase, config: &TestConfig) -> (r: TestPhase)
    ensures
        r == phase_after(phase, config.skip_download, config.skip_upload),
{
    match phase {
        TestPhase::Latency => if !config.skip_download {
            TestPhase::Download
        } else if !config.skip_upload {
            TestPhase::Upload
        } else {
            TestPhase::PacketLoss
        },
        TestPhase::Download => if !config.skip_upload {
            TestPhase::Upload
        } else {
            TestPhase::PacketLoss
        },
        TestPhase::Upload => TestPhase::PacketLoss,
        TestPhase::PacketLoss => TestPhase::Done,
        TestPhase::Done => TestPhase::Done,
    }
}

/// A run in progress: the phase to run next and the result built so far,
/// one field filled per finished phase.
pub struct SpeedTestRun {
    pub phase: TestPhase,
    pub skip_download: bool,
    pub skip_upload: bool,
    pub result: SpeedTestResult,
}

impl SpeedTestRun {
    /// The result holds exactly what the phases before `phase` produced, and
    /// `phase` is never a skipped one.
    pub open spec fn is_consistent(&self) -> bool {
        &&& (self.phase == TestPhase::Download ==> !self.skip_download)
        &&& (self.phase == TestPhase::Upload ==> !self.skip_upload)
        &&& (self.result.latency is Some <==> self.phase != TestPhase::Latency)
        &&& (self.result.download is Some <==> (self.phase != TestPhase::Latency
            && self.phase != TestPhase::Download && !self.skip_download))
        &&& (self.result.upload is Some <==> ((self.phase == TestPhase::PacketLoss || self.phase
            == TestPhase::Done) && !self.skip_upload))
        &&& (self.result.packet_loss_bp is Some <==> self.phase == TestPhase::Done)
    }

    /// A run about to measure latency, with an empty result.
    pub fn start(config: &TestConfig) -> (r: Self)
        ensures
            r.phase == TestPhase::Latency,
            r.skip_download == config.skip_download,
            r.skip_upload == config.skip_upload,
            r.result.server_location is None,
            r.is_consistent(),
    {
        SpeedTestRun {
            phase: TestPhase::Latency,
            skip_download: config.skip_download,
            skip_upload: config.skip_upload,
            result: SpeedTestResult::new(),
        }
    }

    /// Stores the latency phase's statistics and location hint, and moves on.
    pub fn record_latency(&mut self, latency: LatencyResult, server_location: Option<String>)
        requires
            old(self).phase == TestPhase::Latency,
            old(self).is_consistent(),
        ensures
            final(self).phase == phase_after(TestPhase::Latency, old(self).skip_download, old(self).skip_upload),
            final(self).result == (SpeedTestResult {
                latency: Some(latency),
                server_location,
                ..old(self).result
            }),
            final(self).skip_download == old(self).skip_download,
            final(self).skip_upload == old(self).skip_upload,
            final(self).is_consistent(),
    {
        self.result.latency = Some(latency);
        self.result.server_location = server_location;
        self.phase = if !self.skip_download {
            TestPhase::Download
        } else if !self.skip_upload {
            TestPhase::Upload
        } else {
            TestPhase::PacketLoss
        };
    }

    /// Stores the download phase's throughput, and moves on.
    pub fn record_download(&mut self, download: ThroughputResult)
        requires
            old(self).phase == TestPhase::Download,
            old(self).is_consistent(),
        ensures
            final(self).phase == phase_after(TestPhase::Download, old(self).skip_download, old(self).skip_upload),
            final(self).result == (SpeedTestResult { download: Some(download), ..old(self).result }),
            final(self).skip_download == old(self).skip_download,
            final(self).skip_upload == old(self).skip_upload,
            final(self).is_consistent(),
    {
        self.result.download = Some(download);
        self.phase = if !self.skip_upload {
            TestPhase::Upload
        } else {
            TestPhase::PacketLoss
        };
    }

    /// Stores the upload phase's throughput, and moves on.
    pub fn record_upload(&mut self, upload: ThroughputResult)
        requires
            old(self).phase == TestPhase::Upload,
            old(self).is_consistent(),
        ensures
            final(self).phase == TestPhase::PacketLoss,
            final(self).result == (SpeedTestResult { upload: Some(upload), ..old(self).result }),
            final(self).skip_download == old(self).skip_download,
            final(self).skip_upload == old(self).skip_upload,
            final(self).is_consistent(),
    {
        self.result.upload = Some(upload);
        self.phase = TestPhase::PacketLoss;
    }

    /// Stores the packet-loss share, ends the run, and returns the closing
    /// event (phase done, complete, no rate and no round trip).
    pub fn record_packet_loss(&mut self, loss_bp: u64) -> (r: ProgressUpdate)
        requires
            old(self).phase == TestPhase::PacketLoss,
            old(self).is_consistent(),
        ensures
            final(self).phase == TestPhase::Done,
            final(self).result == (SpeedTestResult { packet_loss_bp: Some(loss_bp), ..old(self).result }),
            final(self).skip_download == old(self).skip_download,
            final(self).skip_upload == old(self).skip_upload,
            final(self).is_consistent(),
            r.phase == TestPhase::Done,
            r.progress_ppm == PROGRESS_COMPLETE,
            r.speed_bps is None,
            r.latency_us is None,
    {
        self.result.packet_loss_bp = Some(loss_bp);
        self.phase = TestPhase::Done;
        ProgressUpdate::done()
    }
}

/// Every finished run holds a latency result and a packet-loss share, a
/// download result exactly when download was not skipped, and an upload
/// result exactly when upload was not skipped.
pub proof fn lemma_finished_run_complete(run: SpeedTestRun)
    requires
        run.is_consistent(),
        run.phase == TestPhase::Done,
    ensures
        run.result.latency is Some,
        run.result.packet_loss_bp is Some,
        run.result.download is Some <==> !run.skip_download,
        run.result.upload is Some <==> !run.skip_upload,
{
}

} // verus!

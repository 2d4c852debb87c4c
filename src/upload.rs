use vstd::prelude::*;
use crate::progress::{ProgressUpdate, TestPhase, fraction_ppm};
use crate::results::bps_of;

verus! {

/// Event of the upload reporter after `elapsed_nanos` with `bytes` confirmed
/// sent out of `expected`; none before any time has passed.
pub fn upload_tick(bytes: u64, elapsed_nanos: i64, expected: u128) -> (r: Option<ProgressUpdate>)
    ensures
        r is None <==> elapsed_nanos <= 0,
        r is Some ==> ({
            let u = r->Some_0;
            &&& u.phase == TestPhase::Upload
            &&& u.speed_bps == Some(bps_of(bytes, elapsed_nanos) as u128)
            &&& u.progress_ppm == fraction_ppm(bytes as nat, expected as nat)
            &&& u.is_well_formed()
        }),
{
    if elapsed_nanos > 0 {
        Some(ProgressUpdate::transfer(TestPhase::Upload, bytes, elapsed_nanos, expected))
    } else {
        None
    }
}

} // verus!

use vstd::prelude::*;

verus! {

/// Why a measurement run failed.
#[derive(Debug, Clone)]
pub enum SpeedTestError {
    /// The HTTP transport failed (connect, send or receive); carries its message.
    Http(String),
    /// An explicit deadline passed; carries the deadline in milliseconds.
    Timeout(u64),
    /// The server answered, but the answer cannot be used.
    InvalidResponse(String),
    /// The run was stopped from outside.
    Cancelled,
    /// A local input/output failure; carries its message.
    Io(String),
    /// Any other failure, such as a transfer task that could not be joined.
    Other(String),
}

} // verus!

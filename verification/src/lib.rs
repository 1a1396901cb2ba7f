use vstd::prelude::*;

pub mod client;
pub mod codec;
pub mod errors;
pub mod outcome;

verus! {

/// Every store operation waits at most this many milliseconds for the
/// store's answer before giving up with a timeout. The value is a
/// process-wide default; callers that race a command against a clock
/// must use exactly this bound.
pub const REDIS_TIMEOUT_MILLISECS: u64 = 10;

} // verus!

use vstd::prelude::*;

verus! {

/// The closed set of failures a store operation can produce. Callers
/// branch on the variant to decide whether to propagate, default or
/// retry; this library itself never retries.
#[derive(Debug)]
pub enum CustomRedisError {
    /// The key or hash field is absent from the store.
    NotFound,
    /// The stored byte envelope could not be encoded or decoded;
    /// the codec's message is preserved.
    PickleError(String),
    /// Any other failure reported by the store, message preserved.
    Other(String),
    /// The store did not answer within the configured bound.
    Timeout,
}

} // verus!

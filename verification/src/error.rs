//! Errors reported by the share consumer surface.

use vstd::prelude::*;

verus! {

/// Errors of the share consumer surface.
#[derive(Debug, PartialEq, Eq)]
pub enum KafkaError {
    /// Creating a client failed; the message says why.
    ClientCreation(String),
    /// The operation is not available; the message says why.
    Unsupported(&'static str),
}

/// Result type of the consumer operations.
pub type KafkaResult<T> = Result<T, KafkaError>;

/// Why the runtime operations of the share consumer are not available.
pub const UNSUPPORTED_REASON: &'static str = "KIP-932 share consumer support is not yet available in librdkafka; see https://github.com/confluentinc/librdkafka/issues/5441";

/// The error every runtime operation of the share consumer reports.
pub open spec fn unsupported_error() -> KafkaError {
    KafkaError::Unsupported(UNSUPPORTED_REASON)
}

/// Reports that the operation is not available.
pub fn unsupported<T>() -> (r: KafkaResult<T>)
    ensures
        r == Err::<T, KafkaError>(unsupported_error()),
{
    Err(KafkaError::Unsupported(UNSUPPORTED_REASON))
}

impl Clone for KafkaError {
    fn clone(&self) -> (r: Self)
        ensures
            r == *self,
    {
        match self {
            KafkaError::ClientCreation(m) => KafkaError::ClientCreation(m.clone()),
            KafkaError::Unsupported(reason) => KafkaError::Unsupported(reason),
        }
    }
}

} // verus!

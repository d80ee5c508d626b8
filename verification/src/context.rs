//! The share consumer context: callbacks through which the application
//! observes asynchronous events without owning the poll loop.

use vstd::prelude::*;

use crate::acknowledge::AcknowledgementCommitResult;
use crate::client::ClientContext;

verus! {

/// Per-consumer callback surface for share consumers.
///
/// The default implementations are empty so that implementors override
/// only what they need.
pub trait ShareConsumerContext: ClientContext + Sized {
    /// Called when an asynchronous acknowledgement commit returns, with one
    /// entry per acknowledged record of the associated `commit_async` call.
    fn acknowledgement_commit(&self, results: &[AcknowledgementCommitResult]) {
    }
}

/// Inert [`ShareConsumerContext`] for callers that need no callbacks.
#[derive(Clone, Copy, Debug, Default)]
pub struct DefaultShareConsumerContext;

impl ClientContext for DefaultShareConsumerContext {
}

impl ShareConsumerContext for DefaultShareConsumerContext {
}

} // verus!

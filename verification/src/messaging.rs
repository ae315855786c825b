//! Core messaging contracts: what qualifies as a message, and the
//! capabilities a batch source and a batch sink must offer.

use vstd::prelude::*;

verus! {

/// Marker trait for pipeline message types: a payload must be transferable
/// across the source/processor boundary and duplicable.
pub trait Message: Send + Sync + Clone + 'static {}

/// Batch of messages transported and dispatched together.
pub type MessageBatch<M> = Vec<M>;

/// Typed failure reported by a sink for a single batch.
pub struct SinkError {
    pub message: String,
}

/// Typed failure that ends a source's run.
pub struct SourceError {
    pub message: String,
}

/// Capability of a destination that handles one batch at a time.
///
/// `attempts` is the abstract record of every batch that has been presented
/// to the sink, in presentation order; `handle_batch` extends it by exactly
/// the given batch, whether or not the attempt succeeds.
pub trait MessageSink<M: Message>: Sized {
    /// All batches presented to this sink so far, oldest first.
    spec fn attempts(&self) -> Seq<Seq<M>>;

    /// Diagnostic name used to attribute failures.
    fn name(&self) -> &'static str;

    /// Attempts to handle one batch; the batch is recorded as attempted
    /// even when the sink reports a failure.
    fn handle_batch(&mut self, batch: MessageBatch<M>) -> (r: Result<(), SinkError>)
        ensures
            final(self).attempts() == old(self).attempts().push(batch@),
    ;
}

/// The next thing a source produces when it is driven one step further.
pub enum SourceEvent<M> {
    /// One more batch to deliver.
    Batch(MessageBatch<M>),
    /// The source naturally exhausted its work.
    Done,
    /// An unrecoverable error ended the source's run.
    Failed(SourceError),
}

/// Capability of a producer that yields batches until it either exhausts
/// its work or fails. The pipeline drives it step by step; delivery of each
/// produced batch (including suspension on a full channel) is the
/// pipeline's job, so no contract constrains what a source yields.
pub trait MessageSource<M: Message>: Sized {
    /// Produces the next event of this source's run.
    fn next_batch(&mut self) -> (ev: SourceEvent<M>);
}

} // verus!

//! Processor: bridges the channel's read end to repeated sink invocations,
//! without letting one bad batch halt the stream.

use vstd::prelude::*;

use crate::channel::{Channel, RecvOutcome};
use crate::messaging::{Message, MessageSink};

verus! {

/// Wraps a sink and drives it with batches pulled from a channel. A batch
/// the sink rejects is counted and skipped; the stream goes on.
pub struct MessageProcessor<M: Message, S: MessageSink<M>> {
    sink: S,
    errors: u64,
    _message: std::marker::PhantomData<M>,
}

impl<M: Message, S: MessageSink<M>> MessageProcessor<M, S> {
    /// Every batch this processor has presented to its sink, oldest first.
    pub closed spec fn attempted(self) -> Seq<Seq<M>> {
        self.sink.attempts()
    }

    /// How many of those attempts the sink rejected.
    pub closed spec fn error_count(self) -> u64 {
        self.errors
    }

    /// Creates a processor for the given sink.
    pub fn new(sink: S) -> (p: Self)
        ensures
            p.attempted() == sink.attempts(),
            p.error_count() == 0,
    {
        MessageProcessor { sink, errors: 0, _message: std::marker::PhantomData }
    }

    /// How many batch attempts the sink has rejected so far; each one was
    /// absorbed and the stream went on.
    pub fn errors_absorbed(&self) -> (r: u64)
        ensures
            r == self.error_count(),
    {
        self.errors
    }

    /// Read access to the wrapped sink.
    pub fn sink(&self) -> (r: &S)
        ensures
            r.attempts() == self.attempted(),
    {
        &self.sink
    }

    /// Advances the consumer side by one step: takes the oldest queued
    /// batch, if any, and presents it to the sink, whole and in arrival
    /// order; a sink failure is absorbed (the loop is not stopped, the
    /// batch is not requeued). Returns true exactly when the channel has
    /// reached end-of-stream.
    pub fn step(&mut self, channel: &mut Channel<M>) -> (done: bool)
        requires
            old(channel).wf(),
            old(channel).receiver_open(),
        ensures
            final(channel).wf(),
            final(channel).cap() == old(channel).cap(),
            final(channel).sender_open() == old(channel).sender_open(),
            final(channel).receiver_open(),
            final(self).error_count() >= old(self).error_count(),
            old(channel).contents().len() > 0 ==> {
                &&& final(self).attempted() == old(self).attempted().push(old(channel).contents()[0])
                &&& final(channel).contents() == old(channel).contents().drop_first()
                &&& !done
                &&& final(self).error_count() <= old(self).error_count() + 1
            },
            old(channel).contents().len() == 0 ==> {
                &&& final(self).attempted() == old(self).attempted()
                &&& final(channel).contents() == old(channel).contents()
                &&& done == old(channel).at_end_of_stream()
                &&& final(self).error_count() == old(self).error_count()
            },
    {
        match channel.recv() {
            RecvOutcome::Batch(batch) => {
                let r = self.sink.handle_batch(batch);
                if r.is_err() {
                    if self.errors < u64::MAX {
                        self.errors = self.errors + 1;
                    }
                }
                false
            },
            RecvOutcome::Empty => false,
            RecvOutcome::EndOfStream => true,
        }
    }

    /// Consumes the remainder of a stream whose producer side is already
    /// closed: every queued batch is presented to the sink, in order, and
    /// the processor terminates normally once the queue is drained,
    /// whatever the sink answered along the way.
    pub fn process_messages(&mut self, channel: &mut Channel<M>)
        requires
            old(channel).wf(),
            old(channel).receiver_open(),
            !old(channel).sender_open(),
        ensures
            final(self).attempted() == old(self).attempted() + old(channel).contents(),
            final(channel).wf(),
            final(channel).at_end_of_stream(),
            // failures are absorbed, never amplified: at most one per
            // attempted batch
            final(self).error_count() >= old(self).error_count(),
            final(self).error_count() - old(self).error_count() <= old(channel).contents().len(),
    {
        let ghost init_attempted = self.attempted();
        let ghost init_contents = channel.contents();
        let ghost init_errors = self.error_count();
        loop
            invariant
                channel.wf(),
                channel.receiver_open(),
                !channel.sender_open(),
                init_attempted == old(self).attempted(),
                init_contents == old(channel).contents(),
                init_errors == old(self).error_count(),
                self.attempted() + channel.contents() == init_attempted + init_contents,
                channel.contents().len() <= init_contents.len(),
                self.error_count() >= init_errors,
                self.error_count() - init_errors <= init_contents.len() - channel.contents().len(),
            decreases channel.contents().len(),
        {
            let ghost before_attempted = self.attempted();
            let ghost before_contents = channel.contents();
            let done = self.step(channel);
            proof {
                if before_contents.len() > 0 {
                    assert(self.attempted() + channel.contents() =~= before_attempted
                        + before_contents);
                }
            }
            if done {
                proof {
                    assert(channel.contents().len() == 0);
                    assert(self.attempted() + channel.contents() =~= self.attempted());
                    assert(self.attempted() =~= init_attempted + init_contents);
                }
                return ;
            }
        }
    }
}

} // verus!

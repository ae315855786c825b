//! Pipeline orchestration: wiring one source to one sink through a bounded
//! channel, and the delivery guarantees of the combined system.
//!
//! A started pipeline is an explicit state machine ([`PipelineRun`]) with
//! one step per side. The two sides may be advanced in any order, which
//! models the two concurrently scheduled tasks: every property proved of
//! the steps holds for every interleaving. The well-formedness invariant
//! ties the run together: the batches accepted by the channel so far are
//! exactly the batches already presented to the sink followed by the
//! batches still queued — which is the ordering and batch-integrity
//! guarantee, made inductive.

use vstd::prelude::*;

use crate::channel::{Channel, SendOutcome};
use crate::messaging::{Message, MessageSink, MessageSource, SourceEvent};
use crate::processor::MessageProcessor;

verus! {

/// Channel capacity used when the builder is not told otherwise.
pub const DEFAULT_CHANNEL_CAPACITY: usize = 1000;

/// How a source's run ended, if it has.
pub enum SourceStatus {
    /// Still producing.
    Running,
    /// Naturally exhausted its work.
    Done,
    /// Ended by an unrecoverable error; batches already accepted by the
    /// channel stay accepted.
    Failed,
}

/// Fluent builder for constructing and launching an [`SPSCDataFeed`].
pub struct TickflowBuilder<M: Message, Src: MessageSource<M>, S: MessageSink<M>> {
    source: Src,
    sink: S,
    channel_capacity: usize,
    _message: std::marker::PhantomData<M>,
}

impl<M: Message, Src: MessageSource<M>, S: MessageSink<M>> TickflowBuilder<M, Src, S> {
    /// The capacity the built feed's channel will have.
    pub closed spec fn capacity(self) -> usize {
        self.channel_capacity
    }

    /// The sink's record of already-attempted batches.
    pub closed spec fn sink_attempts(self) -> Seq<Seq<M>> {
        self.sink.attempts()
    }

    /// Creates a builder with the default channel capacity.
    pub fn new(source: Src, sink: S) -> (b: Self)
        ensures
            b.capacity() == DEFAULT_CHANNEL_CAPACITY,
            b.sink_attempts() == sink.attempts(),
    {
        TickflowBuilder {
            source,
            sink,
            channel_capacity: DEFAULT_CHANNEL_CAPACITY,
            _message: std::marker::PhantomData,
        }
    }

    /// Overrides the bounded channel capacity between the two stages.
    pub fn channel_capacity(self, capacity: usize) -> (b: Self)
        ensures
            b.capacity() == capacity,
            b.sink_attempts() == self.sink_attempts(),
    {
        TickflowBuilder { channel_capacity: capacity, ..self }
    }

    /// Builds an [`SPSCDataFeed`] without starting it: no side effects.
    pub fn build(self) -> (feed: SPSCDataFeed<M, Src, S>)
        ensures
            feed.capacity() == self.capacity(),
            feed.sink_attempts() == self.sink_attempts(),
            feed.absorbed_errors() == 0,
    {
        let TickflowBuilder { source, sink, channel_capacity, .. } = self;
        SPSCDataFeed::new(source, sink, channel_capacity)
    }

    /// Builds and starts the feed.
    pub fn start(self) -> (run: PipelineRun<M, Src, S>)
        requires
            self.capacity() >= 1,
        ensures
            run.wf(),
            !run.done(),
            run.status() is Running,
            run.pending_batch() is None,
            run.cap() == self.capacity(),
            run.sent_batches() == Seq::<Seq<M>>::empty(),
            run.delivered() == Seq::<Seq<M>>::empty(),
            run.queued() == Seq::<Seq<M>>::empty(),
            run.absorbed_errors() == 0,
    {
        self.build().start()
    }
}

/// Connects a message source to a message processor via a bounded channel.
/// Built but not yet started: no channel exists and nothing runs.
pub struct SPSCDataFeed<M: Message, Src: MessageSource<M>, S: MessageSink<M>> {
    source: Src,
    processor: MessageProcessor<M, S>,
    channel_capacity: usize,
}

impl<M: Message, Src: MessageSource<M>, S: MessageSink<M>> SPSCDataFeed<M, Src, S> {
    /// The capacity the channel will be created with.
    pub closed spec fn capacity(self) -> usize {
        self.channel_capacity
    }

    /// The sink's record of already-attempted batches.
    pub closed spec fn sink_attempts(self) -> Seq<Seq<M>> {
        self.processor.attempted()
    }

    /// How many attempts the wrapped processor has seen rejected so far.
    pub closed spec fn absorbed_errors(self) -> u64 {
        self.processor.error_count()
    }

    /// Returns a builder for configuring and launching the data feed.
    pub fn builder(source: Src, sink: S) -> (b: TickflowBuilder<M, Src, S>)
        ensures
            b.capacity() == DEFAULT_CHANNEL_CAPACITY,
            b.sink_attempts() == sink.attempts(),
    {
        TickflowBuilder::new(source, sink)
    }

    /// Creates a feed with an explicit channel capacity.
    pub fn new(source: Src, sink: S, channel_capacity: usize) -> (feed: Self)
        ensures
            feed.capacity() == channel_capacity,
            feed.sink_attempts() == sink.attempts(),
            feed.absorbed_errors() == 0,
    {
        SPSCDataFeed { source, processor: MessageProcessor::new(sink), channel_capacity }
    }

    /// The capacity the channel will be created with.
    pub fn channel_capacity(&self) -> (r: usize)
        ensures
            r == self.capacity(),
    {
        self.channel_capacity
    }

    /// Starts the feed: creates the bounded channel and hands the write
    /// end to the source side and the read end to the processor side.
    /// Nothing has been produced or delivered yet.
    pub fn start(self) -> (run: PipelineRun<M, Src, S>)
        requires
            self.capacity() >= 1,
        ensures
            run.wf(),
            !run.done(),
            run.status() is Running,
            run.pending_batch() is None,
            run.cap() == self.capacity(),
            run.sent_batches() == Seq::<Seq<M>>::empty(),
            run.delivered() == Seq::<Seq<M>>::empty(),
            run.queued() == Seq::<Seq<M>>::empty(),
            run.absorbed_errors() == self.absorbed_errors(),
    {
        let ghost base = self.processor.attempted();
        let run = PipelineRun {
            source: self.source,
            source_status: SourceStatus::Running,
            pending: None,
            channel: Channel::new(self.channel_capacity),
            processor: self.processor,
            processor_done: false,
            base: Ghost(base),
            sent: Ghost(Seq::empty()),
        };
        proof {
            assert(run.delivered() =~= Seq::<Seq<M>>::empty());
            assert(run.sent_batches() =~= run.delivered() + run.queued());
            assert(run.base@.is_prefix_of(run.processor.attempted()));
        }
        run
    }
}

/// A started pipeline: the source side (source, its pending batch and the
/// channel's write end) and the processor side (the channel's read end and
/// the sink), advanced step by step in any interleaving.
pub struct PipelineRun<M: Message, Src: MessageSource<M>, S: MessageSink<M>> {
    source: Src,
    source_status: SourceStatus,
    pending: Option<Vec<M>>,
    channel: Channel<M>,
    processor: MessageProcessor<M, S>,
    processor_done: bool,
    base: Ghost<Seq<Seq<M>>>,
    sent: Ghost<Seq<Seq<M>>>,
}

impl<M: Message, Src: MessageSource<M>, S: MessageSink<M>> PipelineRun<M, Src, S> {
    /// Every batch the channel has accepted from the source in this run,
    /// in acceptance order.
    pub closed spec fn sent_batches(self) -> Seq<Seq<M>> {
        self.sent@
    }

    /// Every batch presented to the sink in this run, oldest first.
    pub closed spec fn delivered(self) -> Seq<Seq<M>> {
        self.processor.attempted().skip(self.base@.len() as int)
    }

    /// The batches accepted but not yet presented to the sink.
    pub closed spec fn queued(self) -> Seq<Seq<M>> {
        self.channel.contents()
    }

    /// The channel's fixed capacity.
    pub closed spec fn cap(self) -> usize {
        self.channel.cap()
    }

    /// A batch the source has produced that the channel has not yet
    /// accepted (the source is suspended in its send).
    pub closed spec fn pending_batch(self) -> Option<Seq<M>> {
        match self.pending {
            Some(b) => Some(b@),
            None => None,
        }
    }

    /// How the source side stands.
    pub closed spec fn status(self) -> SourceStatus {
        self.source_status
    }

    /// Whether the processor side has terminated (end-of-stream reached).
    pub closed spec fn done(self) -> bool {
        self.processor_done
    }

    /// How many batch attempts the sink has rejected in this run; each one
    /// was absorbed and the stream went on.
    pub closed spec fn absorbed_errors(self) -> u64 {
        self.processor.error_count()
    }

    /// The run's invariant. Its heart: what was sent is exactly what was
    /// delivered followed by what is still queued.
    pub closed spec fn wf(self) -> bool {
        &&& self.channel.wf()
        &&& self.channel.receiver_open()
        &&& (self.channel.sender_open() <==> self.source_status is Running)
        &&& (self.pending_batch() is Some ==> self.source_status is Running)
        &&& self.base@.is_prefix_of(self.processor.attempted())
        &&& self.sent_batches() == self.delivered() + self.queued()
        &&& (self.processor_done ==> self.channel.at_end_of_stream())
    }

    /// Whether the processor side has terminated.
    pub fn is_done(&self) -> (r: bool)
        ensures
            r == self.done(),
    {
        self.processor_done
    }

    /// Whether the source side's run ended in a failure.
    pub fn source_failed(&self) -> (r: bool)
        ensures
            r == (self.status() is Failed),
    {
        matches!(self.source_status, SourceStatus::Failed)
    }

    /// Whether the source side is still running.
    pub fn source_running(&self) -> (r: bool)
        ensures
            r == (self.status() is Running),
    {
        matches!(self.source_status, SourceStatus::Running)
    }

    /// Whether a produced batch is waiting for the channel to accept it.
    pub fn has_pending_batch(&self) -> (r: bool)
        ensures
            r == (self.pending_batch() is Some),
    {
        self.pending.is_some()
    }

    /// How many batch attempts the sink has rejected in this run.
    pub fn errors_absorbed(&self) -> (r: u64)
        ensures
            r == self.absorbed_errors(),
    {
        self.processor.errors_absorbed()
    }

    /// Read access to the sink.
    pub fn sink(&self) -> (r: &S)
        ensures
            r.attempts().skip(self.base_len() as int) == self.delivered(),
    {
        self.processor.sink()
    }

    /// How many batches the sink had already been given before this run.
    pub closed spec fn base_len(self) -> nat {
        self.base@.len()
    }

    /// Applies one event of the source's run to the pipeline, as the
    /// source side's driving loop does after fetching it: a produced batch
    /// becomes the pending batch, to be offered to the channel; exhaustion
    /// or failure ends the source side and closes the channel's write end.
    /// Nothing already accepted, queued or delivered moves.
    pub fn apply_source_event(&mut self, ev: SourceEvent<M>)
        requires
            old(self).wf(),
            old(self).pending_batch() is None,
            old(self).status() is Running,
        ensures
            final(self).wf(),
            final(self).cap() == old(self).cap(),
            final(self).done() == old(self).done(),
            final(self).base_len() == old(self).base_len(),
            final(self).delivered() == old(self).delivered(),
            final(self).sent_batches() == old(self).sent_batches(),
            final(self).queued() == old(self).queued(),
            final(self).absorbed_errors() == old(self).absorbed_errors(),
            (ev matches SourceEvent::Batch(b) ==> {
                &&& final(self).pending_batch() == Some(b@)
                &&& final(self).status() is Running
            }),
            ev is Done ==> final(self).pending_batch() is None && final(self).status() is Done,
            ev is Failed ==> final(self).pending_batch() is None && final(self).status() is Failed,
    {
        match ev {
            SourceEvent::Batch(b) => {
                self.pending = Some(b);
            },
            SourceEvent::Done => {
                self.source_status = SourceStatus::Done;
                self.channel.close_sender();
            },
            SourceEvent::Failed(_) => {
                self.source_status = SourceStatus::Failed;
                self.channel.close_sender();
            },
        }
    }

    /// Advances the source side by one step. One step either produces the
    /// source's next event, or offers the produced batch to the channel:
    /// the batch is accepted exactly when the channel is below capacity
    /// (backpressure suspends the send, losing and reordering nothing),
    /// and when the source ends — exhausted or failed — the channel's
    /// write end is closed and everything already accepted stays.
    pub fn step_source(&mut self)
        requires
            old(self).wf(),
        ensures
            final(self).wf(),
            final(self).cap() == old(self).cap(),
            final(self).done() == old(self).done(),
            final(self).base_len() == old(self).base_len(),
            final(self).delivered() == old(self).delivered(),
            final(self).queued().len() >= old(self).queued().len(),
            old(self).sent_batches().is_prefix_of(final(self).sent_batches()),
            // backpressure: a full channel suspends the send; nothing moves
            old(self).pending_batch() is Some && old(self).queued().len() == old(self).cap()
                ==> *final(self) == *old(self),
            // a send below capacity is accepted, in order, batch intact
            (old(self).pending_batch() matches Some(b) && old(self).queued().len() < old(
                self,
            ).cap()) ==> {
                &&& final(self).sent_batches() == old(self).sent_batches().push(
                    old(self).pending_batch()->0,
                )
                &&& final(self).queued() == old(self).queued().push(old(self).pending_batch()->0)
                &&& final(self).pending_batch() is None
                &&& final(self).status() == old(self).status()
            },
            // producing a new event sends nothing by itself
            old(self).pending_batch() is None ==> {
                &&& final(self).sent_batches() == old(self).sent_batches()
                &&& final(self).queued() == old(self).queued()
                &&& final(self).delivered() == old(self).delivered()
            },
            // consulting the source makes progress: either its next batch
            // is now pending, or its run has ended (the event was applied
            // as `apply_source_event` states)
            old(self).pending_batch() is None && old(self).status() is Running ==> (
            final(self).pending_batch() is Some || !(final(self).status() is Running)),
            // a finished source stays finished and changes nothing
            old(self).pending_batch() is None && !(old(self).status() is Running) ==> *final(self)
                == *old(self),
    {
        let pending = self.pending.take();
        match pending {
            Some(batch) => {
                let ghost bv = batch@;
                match self.channel.send(batch) {
                    SendOutcome::Accepted => {
                        self.sent = Ghost(self.sent@.push(bv));
                        proof {
                            assert(self.sent_batches() =~= self.delivered() + self.queued());
                        }
                    },
                    SendOutcome::Full(batch) => {
                        self.pending = Some(batch);
                    },
                    SendOutcome::Disconnected(batch) => {
                        // unreachable while the invariant holds: the
                        // pipeline's receiver side is never dropped
                        self.source_status = SourceStatus::Failed;
                        self.channel.close_sender();
                        let _ = batch;
                    },
                }
            },
            None => {
                match self.source_status {
                    SourceStatus::Running => {
                        let ev = self.source.next_batch();
                        self.apply_source_event(ev);
                    },
                    _ => {},
                }
            },
        }
    }

    /// Advances the processor side by one step: takes the oldest queued
    /// batch, if any, and presents it to the sink, whole and in arrival
    /// order; a sink failure is absorbed and the stream goes on. The side
    /// terminates exactly when the channel reports end-of-stream.
    pub fn step_processor(&mut self)
        requires
            old(self).wf(),
        ensures
            final(self).wf(),
            final(self).cap() == old(self).cap(),
            final(self).status() == old(self).status(),
            final(self).pending_batch() == old(self).pending_batch(),
            final(self).sent_batches() == old(self).sent_batches(),
            final(self).base_len() == old(self).base_len(),
            final(self).absorbed_errors() >= old(self).absorbed_errors(),
            // a queued batch is delivered to the sink, front first, intact;
            // at most the one attempt can have been rejected and absorbed
            !old(self).done() && old(self).queued().len() > 0 ==> {
                &&& final(self).delivered() == old(self).delivered().push(old(self).queued()[0])
                &&& final(self).queued() == old(self).queued().drop_first()
                &&& !final(self).done()
                &&& final(self).absorbed_errors() <= old(self).absorbed_errors() + 1
            },
            // an empty queue delivers nothing and absorbs nothing; the side
            // terminates exactly at end-of-stream
            !old(self).done() && old(self).queued().len() == 0 ==> {
                &&& final(self).delivered() == old(self).delivered()
                &&& final(self).queued() == old(self).queued()
                &&& final(self).done() == !(old(self).status() is Running)
                &&& final(self).absorbed_errors() == old(self).absorbed_errors()
            },
            old(self).done() ==> *final(self) == *old(self),
    {
        if self.processor_done {
            return ;
        }
        let done = self.processor.step(&mut self.channel);
        self.processor_done = done;
        proof {
            if old(self).queued().len() > 0 {
                assert(self.delivered() =~= old(self).delivered().push(old(self).queued()[0]));
                assert(self.sent_batches() =~= self.delivered() + self.queued());
            }
        }
    }

    /// Drives both sides alternately for at most `max_steps` rounds,
    /// stopping early when the processor side terminates. Returns whether
    /// it did; the guarantees of the individual steps hold regardless, so
    /// a too-small budget loses nothing — driving on resumes the run.
    pub fn run_to_completion(&mut self, max_steps: usize) -> (done: bool)
        requires
            old(self).wf(),
        ensures
            final(self).wf(),
            done == final(self).done(),
            old(self).sent_batches().is_prefix_of(final(self).sent_batches()),
            final(self).base_len() == old(self).base_len(),
            done ==> final(self).delivered() == final(self).sent_batches(),
            // a source that has ended sends nothing more: driving on only
            // drains what was already accepted
            !(old(self).status() is Running) && old(self).pending_batch() is None ==> {
                &&& final(self).sent_batches() == old(self).sent_batches()
                &&& final(self).status() == old(self).status()
            },
    {
        let mut steps_left = max_steps;
        loop
            invariant
                self.wf(),
                old(self).sent_batches().is_prefix_of(self.sent_batches()),
                self.base_len() == old(self).base_len(),
                !(old(self).status() is Running) && old(self).pending_batch() is None ==> {
                    &&& self.sent_batches() == old(self).sent_batches()
                    &&& self.status() == old(self).status()
                    &&& self.pending_batch() is None
                },
            decreases steps_left,
        {
            if self.processor_done {
                proof {
                    lemma_completion_delivers_everything(*self);
                }
                return true;
            }
            if steps_left == 0 {
                return false;
            }
            steps_left = steps_left - 1;
            let ghost before_sent = self.sent_batches();
            self.step_source();
            proof {
                assert(old(self).sent_batches().is_prefix_of(self.sent_batches())) by {
                    lemma_prefix_transitive(
                        old(self).sent_batches(),
                        before_sent,
                        self.sent_batches(),
                    );
                }
            }
            self.step_processor();
        }
    }
}

/// Prefixes compose: if `a` is a prefix of `b` and `b` of `c`, then `a` is
/// a prefix of `c`.
proof fn lemma_prefix_transitive<T>(a: Seq<T>, b: Seq<T>, c: Seq<T>)
    requires
        a.is_prefix_of(b),
        b.is_prefix_of(c),
    ensures
        a.is_prefix_of(c),
{
    assert(a =~= c.take(a.len() as int));
}

/// Backpressure: a well-formed run never holds more than the channel's
/// fixed capacity in queued batches — a producer that runs ahead of the
/// consumer is suspended on its send (see `step_source`) rather than
/// allowed to queue past the bound, and resumes as soon as the processor
/// removes a batch (see `Channel::recv`).
pub proof fn lemma_bounded_in_flight<M: Message, Src: MessageSource<M>, S: MessageSink<M>>(
    p: PipelineRun<M, Src, S>,
)
    requires
        p.wf(),
    ensures
        p.queued().len() <= p.cap(),
        p.cap() >= 1,
{
}

/// Ordering and batch integrity: at every well-formed point of a run, the
/// batches presented to the sink are exactly the first ones the source
/// sent — same batches, same order, none split, merged, lost or repeated.
pub proof fn lemma_sink_sees_sent_prefix<M: Message, Src: MessageSource<M>, S: MessageSink<M>>(
    p: PipelineRun<M, Src, S>,
)
    requires
        p.wf(),
    ensures
        p.delivered().is_prefix_of(p.sent_batches()),
        forall|i: int| 0 <= i < p.delivered().len() ==> p.delivered()[i] == p.sent_batches()[i],
{
    assert(p.delivered() =~= p.sent_batches().take(p.delivered().len() as int));
}

/// End-of-stream, fault isolation and containment: once the processor side
/// has terminated — which it does exactly when the source side has ended,
/// by exhaustion or by failure, and the queue has drained — every batch
/// the channel accepted was presented to the sink, in order, no matter
/// which per-batch attempts the sink rejected and no matter whether the
/// source failed.
pub proof fn lemma_completion_delivers_everything<
    M: Message,
    Src: MessageSource<M>,
    S: MessageSink<M>,
>(p: PipelineRun<M, Src, S>)
    requires
        p.wf(),
        p.done(),
    ensures
        p.delivered() == p.sent_batches(),
{
    assert(p.delivered() =~= p.sent_batches());
}

} // verus!

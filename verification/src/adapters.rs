//! Concrete source and sink adapters used to exercise the pipeline.
//!
//! `ScriptedSource` replays a fixed script of batches and can be told to
//! fail midway; `RecordingSink` records every batch presented to it and can
//! be told to reject a number of leading attempts. Together they make the
//! pipeline's delivery guarantees observable.

use vstd::prelude::*;

use crate::messaging::{Message, MessageBatch, MessageSink, MessageSource, SinkError, SourceError, SourceEvent};

verus! {

/// A source that yields a fixed sequence of batches, optionally failing
/// just before the batch at a chosen index would be produced.
pub struct ScriptedSource<M> {
    batches: Vec<Vec<M>>,
    fail_after: Option<usize>,
    finished: bool,
}

impl<M> ScriptedSource<M> {
    /// The batches not yet produced, next first.
    pub closed spec fn remaining(self) -> Seq<Seq<M>> {
        self.batches@.map_values(|b: Vec<M>| b@)
    }

    /// How many more batches will be produced before the source fails,
    /// if it is scripted to fail at all.
    pub closed spec fn fail_countdown(self) -> Option<usize> {
        self.fail_after
    }

    /// Whether the run has ended, by exhaustion or by failure.
    pub closed spec fn finished(self) -> bool {
        self.finished
    }

    /// A source that produces the given batches in order, then ends.
    pub fn new(batches: Vec<Vec<M>>) -> (s: Self)
        ensures
            s.remaining() == batches@.map_values(|b: Vec<M>| b@),
            s.fail_countdown() is None,
            !s.finished(),
    {
        ScriptedSource { batches, fail_after: None, finished: false }
    }

    /// Makes the source fail just before producing the batch at `index`,
    /// so only the batches before `index` are ever produced.
    pub fn fail_at(self, index: usize) -> (s: Self)
        ensures
            s.remaining() == self.remaining(),
            s.fail_countdown() == Some(index),
            s.finished() == self.finished(),
    {
        ScriptedSource { fail_after: Some(index), ..self }
    }
}

impl<M: Message> MessageSource<M> for ScriptedSource<M> {
    fn next_batch(&mut self) -> (ev: SourceEvent<M>)
        ensures
            old(self).finished() ==> {
                &&& ev is Done
                &&& *final(self) == *old(self)
            },
            !old(self).finished() && old(self).remaining().len() > 0 && old(self).fail_countdown()
                == Some(0usize) ==> {
                &&& ev is Failed
                &&& final(self).finished()
                &&& final(self).remaining() == old(self).remaining()
            },
            !old(self).finished() && old(self).remaining().len() > 0 && old(self).fail_countdown()
                != Some(0usize) ==> {
                &&& ev matches SourceEvent::Batch(b) && b@ == old(self).remaining()[0]
                &&& final(self).remaining() == old(self).remaining().drop_first()
                &&& final(self).fail_countdown() == match old(self).fail_countdown() {
                    Some(k) => Some((k - 1) as usize),
                    None => None::<usize>,
                }
                &&& !final(self).finished()
            },
            !old(self).finished() && old(self).remaining().len() == 0 ==> {
                &&& ev is Done
                &&& final(self).finished()
                &&& final(self).remaining() == old(self).remaining()
            },
    {
        if self.finished {
            SourceEvent::Done
        } else if self.batches.len() == 0 {
            self.finished = true;
            SourceEvent::Done
        } else {
            let fails_now = match self.fail_after {
                Some(k) => k == 0,
                None => false,
            };
            if fails_now {
                self.finished = true;
                SourceEvent::Failed(SourceError { message: "scripted source failure".to_string() })
            } else {
                let b = self.batches.remove(0);
                self.fail_after = match self.fail_after {
                    Some(k) => Some(k - 1),
                    None => None,
                };
                proof {
                    assert(self.remaining() =~= old(self).remaining().drop_first());
                }
                SourceEvent::Batch(b)
            }
        }
    }
}

/// A sink that records every batch presented to it, in order, and reports
/// a failure for a configurable number of leading attempts.
pub struct RecordingSink<M> {
    name: &'static str,
    handled: Vec<Vec<M>>,
    failures_remaining: usize,
}

impl<M> RecordingSink<M> {
    /// A sink with the given diagnostic name that never fails.
    pub fn new(name: &'static str) -> (s: Self)
        ensures
            s.batches() == Seq::<Seq<M>>::empty(),
            s.failures_left() == 0,
            s.name_spec() == name@,
    {
        let s = RecordingSink { name, handled: Vec::new(), failures_remaining: 0 };
        proof {
            assert(s.batches() =~= Seq::<Seq<M>>::empty());
        }
        s
    }

    /// A sink that rejects its first `failures` attempts and succeeds
    /// thereafter; the rejected batches are still recorded as attempted.
    pub fn with_failures(name: &'static str, failures: usize) -> (s: Self)
        ensures
            s.batches() == Seq::<Seq<M>>::empty(),
            s.failures_left() == failures,
            s.name_spec() == name@,
    {
        let s = RecordingSink { name, handled: Vec::new(), failures_remaining: failures };
        proof {
            assert(s.batches() =~= Seq::<Seq<M>>::empty());
        }
        s
    }

    /// Every batch presented so far, oldest first.
    pub closed spec fn batches(self) -> Seq<Seq<M>> {
        self.handled@.map_values(|b: Vec<M>| b@)
    }

    /// How many leading attempts are still to be rejected.
    pub closed spec fn failures_left(self) -> usize {
        self.failures_remaining
    }

    /// The diagnostic name.
    pub closed spec fn name_spec(self) -> Seq<char> {
        self.name@
    }

    /// Read access to the record of presented batches.
    pub fn handled_batches(&self) -> (r: &Vec<Vec<M>>)
        ensures
            r@.map_values(|b: Vec<M>| b@) == self.batches(),
    {
        &self.handled
    }
}

impl<M: Message> MessageSink<M> for RecordingSink<M> {
    open spec fn attempts(&self) -> Seq<Seq<M>> {
        self.batches()
    }

    fn name(&self) -> (r: &'static str)
        ensures
            r@ == self.name_spec(),
    {
        self.name
    }

    fn handle_batch(&mut self, batch: MessageBatch<M>) -> (r: Result<(), SinkError>)
        ensures
            r is Err <==> old(self).failures_left() > 0,
            final(self).failures_left() == if old(self).failures_left() > 0 {
                (old(self).failures_left() - 1) as usize
            } else {
                0usize
            },
    {
        self.handled.push(batch);
        proof {
            assert(self.batches() =~= old(self).batches().push(batch@));
        }
        if self.failures_remaining > 0 {
            self.failures_remaining = self.failures_remaining - 1;
            Err(SinkError { message: "recording sink failure".to_string() })
        } else {
            Ok(())
        }
    }
}

} // verus!

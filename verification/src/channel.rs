//! Bounded, ordered, single-producer/single-consumer channel of batches.
//!
//! The channel is the only resource shared between the source side and the
//! processor side. Capacity is fixed at construction; batches come out in
//! exactly the order they went in; once the sender side is closed and the
//! queue is drained, the receiver observes end-of-stream.

use vstd::prelude::*;

verus! {

/// Outcome of offering one batch to the channel. A rejected batch is
/// handed back to the producer untouched.
pub enum SendOutcome<M> {
    /// The batch was queued.
    Accepted,
    /// The queue is at capacity; the producer must wait for the consumer
    /// to remove an item and offer the same batch again (backpressure).
    Full(Vec<M>),
    /// The receiver side is gone; no batch will ever be accepted again.
    Disconnected(Vec<M>),
}

/// Outcome of asking the channel for the next batch.
pub enum RecvOutcome<M> {
    /// The oldest queued batch, removed from the queue.
    Batch(Vec<M>),
    /// The queue is empty but the sender side is still open; the consumer
    /// must wait and ask again.
    Empty,
    /// The sender side is closed and the queue is drained: end-of-stream.
    EndOfStream,
}

/// Bounded FIFO queue of batches with one producer and one consumer.
pub struct Channel<M> {
    queue: Vec<Vec<M>>,
    capacity: usize,
    sender_open: bool,
    receiver_open: bool,
}

impl<M> Channel<M> {
    /// The queued batches, oldest first.
    pub closed spec fn contents(self) -> Seq<Seq<M>> {
        self.queue@.map_values(|b: Vec<M>| b@)
    }

    /// The fixed bound on in-flight batches.
    pub closed spec fn cap(self) -> usize {
        self.capacity
    }

    /// Whether the producer side is still open.
    pub closed spec fn sender_open(self) -> bool {
        self.sender_open
    }

    /// Whether the consumer side is still open.
    pub closed spec fn receiver_open(self) -> bool {
        self.receiver_open
    }

    /// Structural invariant: positive capacity, never over capacity.
    pub open spec fn wf(self) -> bool {
        &&& self.cap() >= 1
        &&& self.contents().len() <= self.cap()
    }

    /// Whether an offered batch would be queued right now.
    pub open spec fn can_send(self) -> bool {
        self.receiver_open() && self.contents().len() < self.cap()
    }

    /// Whether the consumer would observe end-of-stream right now.
    pub open spec fn at_end_of_stream(self) -> bool {
        !self.sender_open() && self.contents().len() == 0
    }

    /// Creates an empty channel with the given capacity, both sides open.
    pub fn new(capacity: usize) -> (c: Self)
        requires
            capacity >= 1,
        ensures
            c.wf(),
            c.contents() == Seq::<Seq<M>>::empty(),
            c.cap() == capacity,
            c.sender_open(),
            c.receiver_open(),
    {
        let c = Channel { queue: Vec::new(), capacity, sender_open: true, receiver_open: true };
        proof {
            assert(c.contents() =~= Seq::<Seq<M>>::empty());
        }
        c
    }

    /// Producer side: offers one batch. The batch is queued exactly when
    /// the receiver is still there and the queue is below capacity; a full
    /// queue rejects the batch without losing or reordering anything.
    pub fn send(&mut self, batch: Vec<M>) -> (r: SendOutcome<M>)
        requires
            old(self).wf(),
            old(self).sender_open(),
        ensures
            final(self).wf(),
            final(self).cap() == old(self).cap(),
            final(self).sender_open() == old(self).sender_open(),
            final(self).receiver_open() == old(self).receiver_open(),
            old(self).can_send() ==> {
                &&& r is Accepted
                &&& final(self).contents() == old(self).contents().push(batch@)
            },
            !old(self).receiver_open() ==> (r matches SendOutcome::Disconnected(b) && b == batch),
            old(self).receiver_open() && old(self).contents().len() == old(self).cap() ==> (
            r matches SendOutcome::Full(b) && b == batch),
            !(r is Accepted) ==> *final(self) == *old(self),
    {
        if !self.receiver_open {
            SendOutcome::Disconnected(batch)
        } else if self.queue.len() < self.capacity {
            self.queue.push(batch);
            proof {
                assert(self.contents() =~= old(self).contents().push(batch@));
            }
            SendOutcome::Accepted
        } else {
            SendOutcome::Full(batch)
        }
    }

    /// Consumer side: takes the oldest queued batch, whole and unaltered.
    /// Reports end-of-stream exactly when the sender is gone and the queue
    /// is drained; never loses or reorders what remains queued.
    pub fn recv(&mut self) -> (r: RecvOutcome<M>)
        requires
            old(self).wf(),
            old(self).receiver_open(),
        ensures
            final(self).wf(),
            final(self).cap() == old(self).cap(),
            final(self).sender_open() == old(self).sender_open(),
            final(self).receiver_open() == old(self).receiver_open(),
            old(self).contents().len() > 0 ==> {
                &&& r matches RecvOutcome::Batch(b) && b@ == old(self).contents()[0]
                &&& final(self).contents() == old(self).contents().drop_first()
                &&& final(self).can_send()
            },
            old(self).contents().len() == 0 ==> final(self).contents() == old(self).contents(),
            old(self).at_end_of_stream() ==> r is EndOfStream,
            old(self).contents().len() == 0 && old(self).sender_open() ==> r is Empty,
    {
        if self.queue.len() > 0 {
            let b = self.queue.remove(0);
            proof {
                assert(self.contents() =~= old(self).contents().drop_first());
            }
            RecvOutcome::Batch(b)
        } else if self.sender_open {
            RecvOutcome::Empty
        } else {
            RecvOutcome::EndOfStream
        }
    }

    /// Producer side: drops the sender. After the queue drains the
    /// consumer observes end-of-stream.
    pub fn close_sender(&mut self)
        requires
            old(self).wf(),
        ensures
            final(self).wf(),
            final(self).cap() == old(self).cap(),
            final(self).contents() == old(self).contents(),
            !final(self).sender_open(),
            final(self).receiver_open() == old(self).receiver_open(),
    {
        self.sender_open = false;
    }

    /// Consumer side: drops the receiver. Every later send is rejected as
    /// disconnected.
    pub fn close_receiver(&mut self)
        requires
            old(self).wf(),
        ensures
            final(self).wf(),
            final(self).cap() == old(self).cap(),
            final(self).contents() == old(self).contents(),
            final(self).sender_open() == old(self).sender_open(),
            !final(self).receiver_open(),
    {
        self.receiver_open = false;
    }
}

/// Backpressure law: a live channel accepts a batch exactly when fewer
/// than `cap` batches are in flight, so a producer that has filled the
/// channel is suspended, and one `recv` of a batch (see `recv`'s contract)
/// makes room for exactly one more send.
pub proof fn lemma_backpressure<M>(c: Channel<M>)
    requires
        c.wf(),
        c.receiver_open(),
    ensures
        c.can_send() <==> c.contents().len() < c.cap(),
        c.contents().len() == c.cap() ==> !c.can_send(),
{
}

} // verus!

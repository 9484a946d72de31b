//! A first-class bounded FIFO conduit carrying messages from the producer
//! flow to the consumer flow of one session, with explicit close-and-drain
//! semantics.
//!
//! Enqueueing onto a full queue is refused rather than dropping anything:
//! the rejected message is handed back to the producer, which is how a slow
//! consumer throttles a fast producer (backpressure). Closing the queue
//! refuses new writes but keeps the buffered messages deliverable.

use vstd::prelude::*;

use crate::message::{models_of, Message, MessageModel};

verus! {

/// The queue capacity a session gets unless configured otherwise.
pub const DEFAULT_CAPACITY: usize = 128;

/// The outcome of an enqueue attempt. A refused message travels back to the
/// caller inside the outcome, so no message is ever dropped.
#[derive(Debug, PartialEq, Eq)]
pub enum Enqueued {
    /// The message was appended to the buffer.
    Accepted,
    /// The buffer already held `capacity` messages; the message is returned.
    Full(Message),
    /// The queue was closed for writes; the message is returned.
    Closed(Message),
}

/// A fixed-capacity FIFO queue of [`Message`]s with a close flag.
pub struct BoundedQueue {
    items: Vec<Message>,
    capacity: usize,
    closed: bool,
}

impl BoundedQueue {
    /// The abstract values of the buffered messages, oldest first.
    pub closed spec fn contents(&self) -> Seq<MessageModel> {
        models_of(self.items@)
    }

    /// The fixed capacity the queue was created with.
    pub closed spec fn cap(&self) -> nat {
        self.capacity as nat
    }

    /// Whether the queue has been closed for new writes.
    pub closed spec fn is_closed(&self) -> bool {
        self.closed
    }

    /// Well-formedness: the buffer never exceeds the capacity, and the
    /// capacity is positive.
    pub open spec fn wf(&self) -> bool {
        &&& self.contents().len() <= self.cap()
        &&& self.cap() >= 1
    }

    /// A fresh, open, empty queue of the given capacity.
    pub fn new(capacity: usize) -> (q: BoundedQueue)
        requires
            capacity >= 1,
        ensures
            q.wf(),
            q.contents() == Seq::<MessageModel>::empty(),
            q.cap() == capacity,
            !q.is_closed(),
    {
        let q = BoundedQueue { items: Vec::new(), capacity, closed: false };
        proof {
            assert(q.contents() =~= Seq::<MessageModel>::empty());
        }
        q
    }

    /// Attempt to append a message. Refused (with the message handed back)
    /// when the queue is closed or full; otherwise the message becomes the
    /// newest buffered item and nothing else changes.
    pub fn try_enqueue(&mut self, m: Message) -> (r: Enqueued)
        requires
            old(self).wf(),
        ensures
            final(self).wf(),
            final(self).cap() == old(self).cap(),
            final(self).is_closed() == old(self).is_closed(),
            old(self).is_closed() ==> {
                &&& final(self).contents() == old(self).contents()
                &&& (r matches Enqueued::Closed(b) && b@ == m@)
            },
            !old(self).is_closed() && old(self).contents().len() == old(self).cap() ==> {
                &&& final(self).contents() == old(self).contents()
                &&& (r matches Enqueued::Full(b) && b@ == m@)
            },
            !old(self).is_closed() && old(self).contents().len() < old(self).cap() ==> {
                &&& final(self).contents() == old(self).contents().push(m@)
                &&& r == Enqueued::Accepted
            },
    {
        if self.closed {
            Enqueued::Closed(m)
        } else if self.items.len() == self.capacity {
            Enqueued::Full(m)
        } else {
            let ghost pre = self.items@;
            self.items.push(m);
            proof {
                assert(self.contents() =~= models_of(pre).push(self.items@.last()@));
            }
            Enqueued::Accepted
        }
    }

    /// Remove and return the oldest buffered message, if any. An empty queue
    /// yields nothing and is left unchanged.
    pub fn dequeue(&mut self) -> (r: Option<Message>)
        requires
            old(self).wf(),
        ensures
            final(self).wf(),
            final(self).cap() == old(self).cap(),
            final(self).is_closed() == old(self).is_closed(),
            old(self).contents().len() == 0 ==> {
                &&& r is None
                &&& final(self).contents() == old(self).contents()
            },
            old(self).contents().len() > 0 ==> {
                &&& (r matches Some(m) && m@ == old(self).contents()[0])
                &&& final(self).contents() == old(self).contents().drop_first()
            },
    {
        if self.items.len() == 0 {
            None
        } else {
            let ghost pre = self.items@;
            let m = self.items.remove(0);
            proof {
                assert(self.contents() =~= models_of(pre).drop_first());
            }
            Some(m)
        }
    }

    /// Close the queue for new writes. The buffered messages stay
    /// deliverable; closing an already closed queue changes nothing.
    pub fn close(&mut self)
        requires
            old(self).wf(),
        ensures
            final(self).wf(),
            final(self).cap() == old(self).cap(),
            final(self).is_closed(),
            final(self).contents() == old(self).contents(),
    {
        self.closed = true;
    }

    /// The number of buffered messages.
    pub fn len(&self) -> (n: usize)
        ensures
            n == self.contents().len(),
    {
        self.items.len()
    }

    /// Whether the buffer is empty.
    pub fn is_empty(&self) -> (b: bool)
        ensures
            b == (self.contents().len() == 0),
    {
        self.items.len() == 0
    }

    /// Whether the buffer holds `capacity` messages.
    pub fn is_full(&self) -> (b: bool)
        ensures
            b == (self.contents().len() == self.cap()),
    {
        self.items.len() == self.capacity
    }

    /// Whether the queue has been closed for writes.
    pub fn closed(&self) -> (b: bool)
        ensures
            b == self.is_closed(),
    {
        self.closed
    }

    /// The fixed capacity.
    pub fn capacity(&self) -> (n: usize)
        ensures
            n == self.cap(),
    {
        self.capacity
    }
}

} // verus!

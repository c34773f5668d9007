//! The bounded FIFO hand-off queue between producers and the single writer.
//!
//! The queue carries tagged messages: a log payload, or a flush request with
//! the identifier of its one-shot completion handle.  Capacity is fixed for
//! the queue's lifetime and an enqueue beyond capacity is rejected, never
//! silently reordered.  (The threaded pipeline built around this library
//! prefers blocking the producer over rejection; this model exposes the
//! rejection so that a sequential caller is never suspended.)

use vstd::prelude::*;

use crate::errors::NonBlockingLoggerError;

verus! {

/// One message on the hand-off queue.  Created by the logger facade, consumed
/// exactly once by the writer, never mutated in between.
pub enum WorkerMessage {
    /// The bytes of one formatted log line.
    Log(Vec<u8>),
    /// A flush request; the value identifies the one-shot completion handle
    /// to signal once all earlier bytes have reached the destination.
    Flush(u64),
}

impl WorkerMessage {
    /// The bytes this message contributes to the destination stream.
    pub open spec fn payload(self) -> Seq<u8> {
        match self {
            WorkerMessage::Log(p) => p@,
            WorkerMessage::Flush(_) => Seq::<u8>::empty(),
        }
    }
}

/// A bounded multi-producer/single-consumer FIFO of pending messages.
pub struct HandoffQueue {
    items: Vec<WorkerMessage>,
    capacity: usize,
}

impl HandoffQueue {
    /// The messages now pending, oldest first.
    pub closed spec fn contents(self) -> Seq<WorkerMessage> {
        self.items@
    }

    /// The fixed capacity this queue was created with.
    pub closed spec fn cap(self) -> int {
        self.capacity as int
    }

    /// Well-formedness: a nonzero capacity bounds the pending count.
    pub open spec fn wf(self) -> bool {
        1 <= self.cap() && self.contents().len() <= self.cap()
    }

    /// Creates an empty queue of the given capacity; a zero capacity is an
    /// invalid configuration and is rejected before anything can be enqueued.
    pub fn new(capacity: usize) -> (r: Result<HandoffQueue, NonBlockingLoggerError>)
        ensures
            capacity == 0 ==> (r matches Err(e) && e is InvalidConfiguration),
            capacity > 0 ==> (r matches Ok(q) && q.wf() && q.contents().len() == 0 && q.cap()
                == capacity as int),
    {
        if capacity == 0 {
            Err(NonBlockingLoggerError::InvalidConfiguration)
        } else {
            Ok(HandoffQueue { items: Vec::new(), capacity })
        }
    }

    /// How many messages are pending.
    pub fn len(&self) -> (n: usize)
        ensures
            n as int == self.contents().len(),
    {
        self.items.len()
    }

    /// The capacity this queue was created with.
    pub fn capacity(&self) -> (n: usize)
        ensures
            n as int == self.cap(),
    {
        self.capacity
    }

    /// Appends `m` when there is room, keeping arrival order; rejects it (and
    /// hands it back unchanged) when the queue is full.
    pub fn try_enqueue(&mut self, m: WorkerMessage) -> (r: Result<(), WorkerMessage>)
        requires
            old(self).wf(),
        ensures
            final(self).wf(),
            final(self).cap() == old(self).cap(),
            old(self).contents().len() < old(self).cap() ==> (r is Ok && final(self).contents()
                == old(self).contents().push(m)),
            old(self).contents().len() >= old(self).cap() ==> (r == Err::<(), WorkerMessage>(m)
                && final(self).contents() == old(self).contents()),
    {
        if self.items.len() < self.capacity {
            self.items.push(m);
            Ok(())
        } else {
            Err(m)
        }
    }

    /// Removes and returns the oldest pending message, if any.
    pub fn try_dequeue(&mut self) -> (r: Option<WorkerMessage>)
        requires
            old(self).wf(),
        ensures
            final(self).wf(),
            final(self).cap() == old(self).cap(),
            old(self).contents().len() == 0 ==> (r is None && final(self).contents() == old(self).contents()),
            old(self).contents().len() > 0 ==> (r == Some(old(self).contents()[0])
                && final(self).contents() == old(self).contents().drop_first()),
    {
        if self.items.len() > 0 {
            let m = self.items.remove(0);
            assert(self.contents() =~= old(self).contents().drop_first());
            Some(m)
        } else {
            None
        }
    }
}

} // verus!

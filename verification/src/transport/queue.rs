use vstd::prelude::*;

use crate::transport::error::{IoErrorKind, TransportError};

verus! {

/// A single-producer/single-consumer, unbounded, first-in/first-out
/// queue of messages — the only state the reader loop shares with the
/// caller, and the caller with the writer loop.
///
/// Each end can be released independently. A release is observable by
/// the peer: the producer sees a broken-pipe failure on the next
/// enqueue, the consumer sees the queue drain to nothing forever.
/// Messages are delivered in the exact order they were enqueued, and
/// none is duplicated or dropped.
pub struct MessageQueue {
    /// The messages enqueued and not yet dequeued, oldest first.
    pub items: Vec<String>,
    /// Whether the producer end is still held.
    pub producer_open: bool,
    /// Whether the consumer end is still held.
    pub consumer_open: bool,
}

impl View for MessageQueue {
    type V = Seq<Seq<char>>;

    open spec fn view(&self) -> Seq<Seq<char>> {
        self.items.deep_view()
    }
}

impl MessageQueue {
    /// An empty queue with both ends held.
    pub fn new() -> (q: Self)
        ensures
            q@ == Seq::<Seq<char>>::empty(),
            q.producer_open,
            q.consumer_open,
    {
        let q = MessageQueue { items: Vec::new(), producer_open: true, consumer_open: true };
        proof {
            assert(q@ =~= Seq::<Seq<char>>::empty());
        }
        q
    }

    /// How many messages are waiting.
    pub fn len(&self) -> (n: usize)
        ensures
            n == self@.len(),
    {
        self.items.len()
    }

    /// Appends one message at the back.
    ///
    /// Fails with a broken-pipe classified error, leaving the queue
    /// unchanged, exactly when the consumer end has been released —
    /// nothing would ever deliver the message.
    pub fn enqueue(&mut self, message: String) -> (r: Result<(), TransportError>)
        requires
            old(self).producer_open,
        ensures
            final(self).producer_open,
            final(self).consumer_open == old(self).consumer_open,
            r is Ok <==> old(self).consumer_open,
            old(self).consumer_open ==> final(self)@ == old(self)@.push(message@),
            !old(self).consumer_open ==> final(self)@ == old(self)@ && (r matches Err(e) && e
                == TransportError::Io(IoErrorKind::BrokenPipe)),
    {
        if !self.consumer_open {
            return Err(TransportError::Io(IoErrorKind::BrokenPipe));
        }
        self.items.push(message);
        proof {
            assert(self@ =~= old(self)@.push(message@));
        }
        Ok(())
    }

    /// Takes the oldest waiting message, or reports that none will ever
    /// come again (`None`): the queue is empty and the producer end has
    /// been released.
    ///
    /// A consumer blocks rather than observing "empty but still open",
    /// so taking from an empty queue requires the producer end gone.
    pub fn dequeue(&mut self) -> (r: Option<String>)
        requires
            old(self).consumer_open,
            old(self)@.len() > 0 || !old(self).producer_open,
        ensures
            final(self).producer_open == old(self).producer_open,
            final(self).consumer_open,
            old(self)@.len() > 0 ==> (r matches Some(m) && m@ == old(self)@[0] && final(self)@
                == old(self)@.subrange(1, old(self)@.len() as int)),
            old(self)@.len() == 0 ==> r is None && final(self)@ == old(self)@,
    {
        if self.items.len() > 0 {
            let m = self.items.remove(0);
            proof {
                assert(self@ =~= old(self)@.subrange(1, old(self)@.len() as int));
            }
            Some(m)
        } else {
            None
        }
    }

    /// Releases the producer end: no message will ever be enqueued
    /// again. Releasing twice changes nothing.
    pub fn close_producer(&mut self)
        ensures
            !final(self).producer_open,
            final(self).consumer_open == old(self).consumer_open,
            final(self)@ == old(self)@,
    {
        self.producer_open = false;
    }

    /// Releases the consumer end: every further enqueue fails with a
    /// broken-pipe classified error. Releasing twice changes nothing.
    pub fn close_consumer(&mut self)
        ensures
            !final(self).consumer_open,
            final(self).producer_open == old(self).producer_open,
            final(self)@ == old(self)@,
    {
        self.consumer_open = false;
    }
}

} // verus!

use vstd::prelude::*;

use crate::transport::error::{IoErrorKind, StdioError, TransportError, TransportResult};
use crate::transport::framing::{framed_line, invalidity_of, valid_message};
use crate::transport::queue::MessageQueue;
use crate::transport::stream::{
    lemma_line_break_props, message_at, next_line_pos, read_message, write_message, MemorySink,
    MemoryStream,
};

verus! {

/// How a background loop ended: cleanly (end-of-stream for the reader,
/// queue closure for the writer) or by surfacing one error to its owner.
#[derive(Debug, Clone, PartialEq, Eq)]
pub enum LoopOutcome {
    /// The loop ran out of work and stopped as designed.
    Clean,
    /// The loop stopped on this failure.
    Failed(TransportError),
}

/// What the reader loop does to a stream whose unread contents start at
/// `pos`, when the inbound queue's consumer end is (`consumer_open`)
/// still held: the outcome it stops with, the messages it enqueues in
/// order, and the stream position where it stops.
///
/// Line by line: a line that fails validation stops the loop with the
/// invalid-data classified error; a valid message that cannot be
/// enqueued because the consumer is gone stops it with a broken-pipe
/// classified error; otherwise the message is enqueued and the loop goes
/// on to end-of-stream, which is the clean termination.
pub open spec fn reader_run(s: Seq<char>, pos: int, consumer_open: bool) -> (
    LoopOutcome,
    Seq<Seq<char>>,
    int,
)
    recommends
        0 <= pos <= s.len(),
    decreases s.len() - pos
        when 0 <= pos <= s.len()
        via reader_run_decreases
{
    if pos >= s.len() {
        (LoopOutcome::Clean, Seq::empty(), pos)
    } else {
        let next = next_line_pos(s, pos);
        let m = message_at(s, pos);
        if !valid_message(m) {
            (
                LoopOutcome::Failed(
                    TransportError::Stdio(StdioError::from_validation(invalidity_of(m))),
                ),
                Seq::empty(),
                next,
            )
        } else if !consumer_open {
            (LoopOutcome::Failed(TransportError::Io(IoErrorKind::BrokenPipe)), Seq::empty(), next)
        } else {
            let rest = reader_run(s, next, true);
            (rest.0, seq![m] + rest.1, rest.2)
        }
    }
}

#[via_fn]
proof fn reader_run_decreases(s: Seq<char>, pos: int, consumer_open: bool) {
    if 0 <= pos < s.len() {
        lemma_line_break_props(s, pos);
    }
}

/// Dropping the consumer of the inbound queue while the reader loop is
/// active makes the loop's next enqueue attempt fail: whenever at least
/// one valid message is still arriving, the loop stops with a
/// broken-pipe classified error and delivers nothing.
pub proof fn lemma_reader_stops_on_dropped_consumer(s: Seq<char>, pos: int)
    requires
        0 <= pos < s.len(),
        valid_message(message_at(s, pos)),
    ensures
        reader_run(s, pos, false).0 == LoopOutcome::Failed(
            TransportError::Io(IoErrorKind::BrokenPipe),
        ),
        reader_run(s, pos, false).1 == Seq::<Seq<char>>::empty(),
{
}

/// The reader loop: repeatedly reads one framed message from the source
/// and enqueues it on the inbound queue.
///
/// It terminates cleanly on end-of-stream, and stops surfacing the error
/// when a line fails validation or when the inbound queue's consumer has
/// been dropped (a broken-pipe classified error on the enqueue). The
/// messages enqueued, the outcome and the final stream position are
/// exactly what [`reader_run`] says of the stream's unread contents.
#[verifier::loop_isolation(false)]
pub fn run_reader_loop(source: &mut MemoryStream, inbound: &mut MessageQueue) -> (out: LoopOutcome)
    requires
        old(source).wf(),
        old(inbound).producer_open,
    ensures
        final(source).wf(),
        final(source).data == old(source).data,
        final(inbound).producer_open,
        final(inbound).consumer_open == old(inbound).consumer_open,
        out == reader_run(
            old(source).data@,
            old(source).pos as int,
            old(inbound).consumer_open,
        ).0,
        final(inbound)@ == old(inbound)@ + reader_run(
            old(source).data@,
            old(source).pos as int,
            old(inbound).consumer_open,
        ).1,
        final(source).pos == reader_run(
            old(source).data@,
            old(source).pos as int,
            old(inbound).consumer_open,
        ).2,
{
    let ghost data0: String = old(source).data;
    let ghost s0: Seq<char> = old(source).data@;
    let ghost p0: int = old(source).pos as int;
    let ghost open0: bool = old(inbound).consumer_open;
    let ghost q0: Seq<Seq<char>> = old(inbound)@;
    loop
        invariant
            source.wf(),
            source.data == data0,
            source.data@ == s0,
            inbound.producer_open,
            inbound.consumer_open == open0,
            reader_run(s0, p0, open0).0 == reader_run(s0, source.pos as int, open0).0,
            reader_run(s0, p0, open0).2 == reader_run(s0, source.pos as int, open0).2,
            q0 + reader_run(s0, p0, open0).1 == inbound@ + reader_run(
                s0,
                source.pos as int,
                open0,
            ).1,
        decreases s0.len() - source.pos,
    {
        let ghost cur: int = source.pos as int;
        proof {
            if cur < s0.len() {
                lemma_line_break_props(s0, cur);
            }
        }
        match read_message(source) {
            Ok(None) => {
                return LoopOutcome::Clean;
            },
            Ok(Some(message)) => {
                match inbound.enqueue(message) {
                    Ok(()) => {
                        proof {
                            let rest = reader_run(s0, source.pos as int, open0);
                            assert(q0 + reader_run(s0, p0, open0).1 =~= (inbound@ + rest.1));
                        }
                    },
                    Err(e) => {
                        return LoopOutcome::Failed(e);
                    },
                }
            },
            Err(e) => {
                return LoopOutcome::Failed(TransportError::Stdio(e));
            },
        }
    }
}

/// What the writer loop does to a backlog of queued messages: the
/// outcome it stops with, the text it appends to the sink, and how many
/// messages it takes off the queue.
///
/// Message by message: a message that fails validation stops the loop
/// with the invalid-data classified error and nothing of it is written;
/// otherwise its framed line is written and flushed and the loop goes on
/// until the queue is exhausted, which is the clean termination.
pub open spec fn writer_run(msgs: Seq<Seq<char>>) -> (LoopOutcome, Seq<char>, int)
    decreases msgs.len(),
{
    if msgs.len() == 0 {
        (LoopOutcome::Clean, Seq::empty(), 0)
    } else if !valid_message(msgs[0]) {
        (
            LoopOutcome::Failed(
                TransportError::Stdio(StdioError::from_validation(invalidity_of(msgs[0]))),
            ),
            Seq::empty(),
            1,
        )
    } else {
        let rest = writer_run(msgs.subrange(1, msgs.len() as int));
        (rest.0, framed_line(msgs[0]) + rest.1, 1 + rest.2)
    }
}

/// The writer loop never takes more off the queue than it held.
pub proof fn lemma_writer_run_taken(msgs: Seq<Seq<char>>)
    ensures
        0 <= writer_run(msgs).2 <= msgs.len(),
    decreases msgs.len(),
{
    if msgs.len() > 0 && valid_message(msgs[0]) {
        lemma_writer_run_taken(msgs.subrange(1, msgs.len() as int));
    }
}

/// The writer loop: repeatedly takes the oldest message off the outbound
/// queue and writes it, framed and flushed, to the sink.
///
/// It terminates cleanly once the queue is empty and its producer end
/// has been dropped (no message will ever arrive again), and stops
/// surfacing the error when a message fails validation. What it writes,
/// the outcome and what stays on the queue are exactly what
/// [`writer_run`] says of the queue's backlog.
///
/// The loop blocks on the queue rather than polling it, so it runs once
/// the producer end has been dropped and the backlog is final.
#[verifier::loop_isolation(false)]
pub fn run_writer_loop(outbound: &mut MessageQueue, sink: &mut MemorySink) -> (out: LoopOutcome)
    requires
        old(outbound).consumer_open,
        !old(outbound).producer_open,
    ensures
        final(outbound).consumer_open,
        !final(outbound).producer_open,
        out == writer_run(old(outbound)@).0,
        final(sink).data@ == old(sink).data@ + writer_run(old(outbound)@).1,
        final(outbound)@ == old(outbound)@.subrange(
            writer_run(old(outbound)@).2,
            old(outbound)@.len() as int,
        ),
        writer_run(old(outbound)@).1.len() > 0 ==> final(sink).flushed,
        writer_run(old(outbound)@).1.len() == 0 ==> *final(sink) == *old(sink),
{
    let ghost q0: Seq<Seq<char>> = old(outbound)@;
    let ghost d0: Seq<char> = old(sink).data@;
    let ghost sink0: MemorySink = *old(sink);
    proof {
        lemma_writer_run_taken(q0);
    }
    loop
        invariant
            outbound.consumer_open,
            !outbound.producer_open,
            outbound@.len() <= q0.len(),
            outbound@ == q0.subrange(q0.len() - outbound@.len(), q0.len() as int),
            writer_run(q0).0 == writer_run(outbound@).0,
            d0 + writer_run(q0).1 == sink.data@ + writer_run(outbound@).1,
            writer_run(q0).2 == (q0.len() - outbound@.len()) + writer_run(outbound@).2,
            sink.data@.len() >= d0.len(),
            sink.data@.len() == d0.len() ==> *sink == sink0,
            sink.data@.len() > d0.len() ==> sink.flushed,
        decreases outbound@.len(),
    {
        let ghost cur: Seq<Seq<char>> = outbound@;
        match outbound.dequeue() {
            None => {
                proof {
                    assert(q0.subrange(q0.len() - 0, q0.len() as int) =~= outbound@);
                }
                return LoopOutcome::Clean;
            },
            Some(message) => {
                proof {
                    lemma_writer_run_taken(outbound@);
                    assert(outbound@ =~= q0.subrange(q0.len() - outbound@.len(), q0.len() as int));
                }
                match write_message(sink, message.as_str()) {
                    Ok(()) => {
                        proof {
                            let rest = writer_run(outbound@);
                            assert(cur[0] == message@);
                            assert(outbound@ =~= cur.subrange(1, cur.len() as int));
                            assert(d0 + writer_run(q0).1 =~= sink.data@ + rest.1);
                        }
                    },
                    Err(e) => {
                        return LoopOutcome::Failed(TransportError::Stdio(e));
                    },
                }
            },
        }
    }
}

/// The caller-facing object bound to a started duplex transport's two
/// queues. It holds the consumer end of the inbound queue and the
/// producer end of the outbound queue — never the streams themselves.
pub struct TransportHandle {
    /// Messages from the peer, already read and validated; the reader
    /// loop's producer end is gone once the handle exists.
    pub inbound: MessageQueue,
    /// Messages this side has queued for the peer.
    pub outbound: MessageQueue,
    /// The output sink the writer loop will drain the backlog into.
    pub sink: MemorySink,
    /// How the reader loop ended.
    pub reader: LoopOutcome,
}

impl TransportHandle {
    /// The handle holds exactly the two queue ends the design gives it.
    pub open spec fn wf(self) -> bool {
        &&& self.inbound.consumer_open
        &&& !self.inbound.producer_open
        &&& self.outbound.producer_open
        &&& self.outbound.consumer_open
    }

    /// The next inbound message in arrival order, or `None` once the
    /// queue is exhausted — the only way the reader loop's termination
    /// shows through the handle.
    pub fn receive(&mut self) -> (r: Option<String>)
        requires
            old(self).wf(),
        ensures
            final(self).wf(),
            final(self).outbound == old(self).outbound,
            final(self).sink == old(self).sink,
            final(self).reader == old(self).reader,
            old(self).inbound@.len() > 0 ==> (r matches Some(m) && m@ == old(self).inbound@[0]
                && final(self).inbound@ == old(self).inbound@.subrange(
                1,
                old(self).inbound@.len() as int,
            )),
            old(self).inbound@.len() == 0 ==> r is None && final(self).inbound@ == old(
                self,
            ).inbound@,
    {
        self.inbound.dequeue()
    }

    /// Queues one message for the peer, behind everything queued before
    /// it. The handle owns the producer end and the writer loop holds
    /// the consumer end, so the enqueue always succeeds.
    pub fn send(&mut self, message: String) -> (r: TransportResult<()>)
        requires
            old(self).wf(),
        ensures
            final(self).wf(),
            final(self).inbound == old(self).inbound,
            final(self).sink == old(self).sink,
            final(self).reader == old(self).reader,
            r is Ok,
            final(self).outbound@ == old(self).outbound@.push(message@),
    {
        self.outbound.enqueue(message)
    }

    /// How the reader loop ended. The minimal design surfaces loop
    /// failure to the caller only as queue closure; this accessor is the
    /// explicit join operation that also hands out the reason.
    pub fn reader_outcome(&self) -> (o: &LoopOutcome)
        ensures
            o == self.reader,
    {
        &self.reader
    }

    /// Ends the session: drops the producer end of the outbound queue —
    /// after which the writer loop's work is final — and runs the writer
    /// loop until it stops. Returns the sink and the writer loop's
    /// outcome.
    pub fn finish(self) -> (r: (MemorySink, LoopOutcome))
        requires
            self.wf(),
        ensures
            r.1 == writer_run(self.outbound@).0,
            r.0.data@ == self.sink.data@ + writer_run(self.outbound@).1,
            writer_run(self.outbound@).1.len() > 0 ==> r.0.flushed,
            writer_run(self.outbound@).1.len() == 0 ==> r.0 == self.sink,
    {
        let TransportHandle { inbound: _, mut outbound, mut sink, reader: _ } = self;
        outbound.close_producer();
        let out = run_writer_loop(&mut outbound, &mut sink);
        (sink, out)
    }
}

} // verus!

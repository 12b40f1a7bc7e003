use vstd::prelude::*;

use crate::transport::duplex::{reader_run, run_reader_loop, TransportHandle};
use crate::transport::error::{StdioError, TransportError, TransportResult};
use crate::transport::framing::{framed_line, invalidity_of, valid_message};
use crate::transport::queue::MessageQueue;
use crate::transport::stream::{
    message_at, next_line_pos, read_message, write_message, MemorySink, MemoryStream,
};
use crate::transport::Transport;

verus! {

/// A transport over in-memory buffers: the stream adapter the tests and
/// any stream-free caller use, with exactly the behaviour the stdio
/// transport has over the real standard streams.
///
/// One-shot sends and receives go straight through the framed writer and
/// reader; [`start`] switches to duplex mode instead.
///
/// [`start`]: MemoryTransport::start
pub struct MemoryTransport {
    /// What the peer has sent: the input stream.
    pub input: MemoryStream,
    /// What this side has written: the output sink.
    pub output: MemorySink,
    /// Whether the transport has been closed.
    pub closed: bool,
}

impl MemoryTransport {
    /// The input cursor stays within the input.
    pub open spec fn wf(self) -> bool {
        self.input.wf()
    }

    /// A transport whose peer will send exactly `input`, with nothing
    /// written yet.
    pub fn new(input: String) -> (t: Self)
        ensures
            t.wf(),
            t.input.data == input,
            t.input.pos == 0,
            t.output.data@ == Seq::<char>::empty(),
            t.output.flushed,
            !t.closed,
    {
        MemoryTransport { input: MemoryStream::new(input), output: MemorySink::new(), closed: false }
    }

    /// Starts duplex mode: consumes the transport, runs the reader loop
    /// over the input stream into a fresh inbound queue, and hands back
    /// the caller-facing handle bound to that queue, a fresh outbound
    /// queue, and the output sink the writer loop will drain into.
    ///
    /// Once started, the transport object is gone — all further
    /// interaction happens through the handle.
    pub fn start(self) -> (h: TransportHandle)
        requires
            self.wf(),
        ensures
            h.wf(),
            h.reader == reader_run(self.input.data@, self.input.pos as int, true).0,
            h.inbound@ == reader_run(self.input.data@, self.input.pos as int, true).1,
            h.outbound@ == Seq::<Seq<char>>::empty(),
            h.sink == self.output,
    {
        let MemoryTransport { input: mut source, output, closed: _ } = self;
        let mut inbound = MessageQueue::new();
        let reader = run_reader_loop(&mut source, &mut inbound);
        inbound.close_producer();
        let outbound = MessageQueue::new();
        TransportHandle { inbound, outbound, sink: output, reader }
    }
}

impl Transport for MemoryTransport {
    /// One blocking send: the framed writer validates the message and,
    /// on success, appends its framed line to the output and flushes.
    /// On failure nothing is written.
    fn send_message(&mut self, message: &str) -> (r: TransportResult<()>)
        ensures
            final(self).input == old(self).input,
            final(self).closed == old(self).closed,
            r is Ok <==> valid_message(message@),
            valid_message(message@) ==> final(self).output.data@ == old(self).output.data@
                + framed_line(message@) && final(self).output.flushed,
            !valid_message(message@) ==> (r matches Err(e) && e == TransportError::Stdio(
                StdioError::from_validation(invalidity_of(message@)),
            ) && final(self).output == old(self).output),
    {
        match write_message(&mut self.output, message) {
            Ok(()) => Ok(()),
            Err(e) => Err(TransportError::Stdio(e)),
        }
    }

    /// One blocking receive: the framed reader takes the next line off
    /// the input and validates it. True end-of-stream leaves the
    /// one-shot caller with no message to hand over, so it surfaces as
    /// the empty-message failure.
    fn receive_message(&mut self) -> (r: TransportResult<String>)
        ensures
            final(self).output == old(self).output,
            final(self).closed == old(self).closed,
            final(self).input.data == old(self).input.data,
            old(self).wf() ==> final(self).wf(),
            old(self).input.pos >= old(self).input.data@.len() ==> ((r matches Err(e) && e
                == TransportError::Stdio(StdioError::EmptyMessage)) && final(self).input == old(
                self,
            ).input),
            old(self).input.pos < old(self).input.data@.len() ==> final(self).input.pos
                == next_line_pos(old(self).input.data@, old(self).input.pos as int),
            old(self).input.pos < old(self).input.data@.len() && valid_message(
                message_at(old(self).input.data@, old(self).input.pos as int),
            ) ==> (r matches Ok(m) && m@ == message_at(
                old(self).input.data@,
                old(self).input.pos as int,
            )),
            old(self).input.pos < old(self).input.data@.len() && !valid_message(
                message_at(old(self).input.data@, old(self).input.pos as int),
            ) ==> (r matches Err(e) && e == TransportError::Stdio(
                StdioError::from_validation(
                    invalidity_of(message_at(old(self).input.data@, old(self).input.pos as int)),
                ),
            )),
    {
        match read_message(&mut self.input) {
            Ok(Some(m)) => Ok(m),
            Ok(None) => Err(TransportError::Stdio(StdioError::EmptyMessage)),
            Err(e) => Err(TransportError::Stdio(e)),
        }
    }

    /// Releases whatever the transport holds. Idempotent: a second call
    /// succeeds just the same, and the final state does not depend on
    /// how often it ran.
    fn close(&mut self) -> (r: TransportResult<()>)
        ensures
            r is Ok,
            final(self).closed,
            final(self).input == old(self).input,
            final(self).output == old(self).output,
    {
        self.closed = true;
        Ok(())
    }
}

} // verus!

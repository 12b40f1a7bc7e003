use vstd::prelude::*;

use crate::transport::error::{StdioError, StdioResult, TransportResult};
use crate::transport::framing::{decode_line, encode_line, spec_decode_line, spec_encode_line};

verus! {

/// The transport over the process's standard streams.
///
/// The core computes and the layer that owns the real streams carries:
/// that layer reads one physical line before calling [`read_message`]
/// and writes out (and flushes) the line [`write_message`] returns. Both
/// directions run the same validator, so the framing invariant governs
/// reads and writes alike.
///
/// [`read_message`]: StdioTransport::read_message
/// [`write_message`]: StdioTransport::write_message
pub struct StdioTransport {
    /// Whether the transport has been closed.
    pub closed: bool,
}

impl StdioTransport {
    pub fn new() -> (t: Self)
        ensures
            !t.closed,
    {
        StdioTransport { closed: false }
    }

    /// The read path's framing step. `raw_line` is one physical line
    /// exactly as the stream handed it over, terminator included; an
    /// empty `raw_line` is a read of zero characters, the true
    /// end-of-stream, and yields "no message" — the session-termination
    /// signal, not an error.
    pub fn read_message(&mut self, raw_line: &str) -> (r: StdioResult<Option<String>>)
        ensures
            *final(self) == *old(self),
            raw_line@.len() == 0 ==> r == Ok::<Option<String>, StdioError>(None),
            raw_line@.len() > 0 ==> (r is Ok <==> spec_decode_line(raw_line@) is Ok),
            raw_line@.len() > 0 ==> (r matches Ok(om) ==> om matches Some(m) && spec_decode_line(
                raw_line@,
            ) matches Ok(b) && m@ == b),
            raw_line@.len() > 0 ==> (r matches Err(e) ==> spec_decode_line(raw_line@) matches Err(
                e2,
            ) && e == e2),
    {
        if raw_line.is_empty() {
            Ok(None)
        } else {
            match decode_line(raw_line) {
                Ok(m) => Ok(Some(m)),
                Err(e) => Err(e),
            }
        }
    }

    /// The write path's framing step: validates the message and, on
    /// success, yields the full line the stream layer must write and
    /// flush — the body followed by one bare `\n`. On failure there is
    /// nothing to write, so a failed write is atomic-or-nothing.
    pub fn write_message(&mut self, message: &str) -> (r: StdioResult<String>)
        ensures
            *final(self) == *old(self),
            r is Ok <==> spec_encode_line(message@) is Ok,
            r matches Ok(l) ==> spec_encode_line(message@) matches Ok(b) && l@ == b,
            r matches Err(e) ==> spec_encode_line(message@) matches Err(e2) && e == e2,
    {
        encode_line(message)
    }

    /// Releases whatever the transport holds. Idempotent: a second call
    /// succeeds just the same, and the final state does not depend on
    /// how often it ran.
    pub fn close(&mut self) -> (r: TransportResult<()>)
        ensures
            r is Ok,
            final(self).closed,
    {
        self.closed = true;
        Ok(())
    }
}

impl Default for StdioTransport {
    fn default() -> (t: Self)
        ensures
            !t.closed,
    {
        StdioTransport::new()
    }
}

} // verus!

pub mod duplex;
pub mod error;
pub mod framing;
pub mod memory;
pub mod queue;
pub mod stdio;
pub mod stream;

pub use duplex::{run_reader_loop, run_writer_loop, LoopOutcome, TransportHandle};
pub use error::{IoErrorKind, StdioError, StdioResult, TransportError, TransportResult,
    ValidationError};
pub use framing::{decode_line, encode_line, strip_line, validate};
pub use memory::MemoryTransport;
pub use queue::MessageQueue;
pub use stdio::StdioTransport;
pub use stream::{read_message, write_message, MemorySink, MemoryStream};

use vstd::prelude::*;

verus! {

/// The capability surface a caller uses to exchange whole validated
/// messages, independent of what carries them.
///
/// `send_message` transmits one message; `receive_message` blocks for the
/// next inbound message; `close` releases whatever the transport holds
/// and is idempotent. An implementation decides how the messages travel.
pub trait Transport {
    fn send_message(&mut self, message: &str) -> TransportResult<()>;

    fn receive_message(&mut self) -> TransportResult<String>;

    fn close(&mut self) -> TransportResult<()>;
}

} // verus!

//! A minimal line-delimited message transport over standard input and
//! output, suitable as the substrate for a request/response protocol.
//!
//! The crate provides the wire-level framing rule (one message per line),
//! the message validation contract (non-empty, no embedded newline), the
//! framed reader and writer, and the producer/consumer loop architecture
//! that decouples stream handling from message processing via two
//! unidirectional first-in/first-out queues.

mod config;
mod error;
mod transport;

pub use config::ServerConfig;
pub use error::{ServerError, ServerResult};
pub use transport::{decode_line, encode_line, read_message, run_reader_loop, run_writer_loop,
    strip_line, validate, write_message, IoErrorKind, LoopOutcome, MemorySink, MemoryStream,
    MemoryTransport, MessageQueue, StdioError, StdioResult, StdioTransport, Transport,
    TransportError, TransportHandle, TransportResult, ValidationError};

use vstd::prelude::*;
use vstd::string::StringExecFns;

verus! {

/// The class of an underlying stream or queue failure.
///
/// The transport core never touches the operating system itself; the
/// layer that drives the real streams converts whatever failure it saw
/// into one of these classes before handing it to the core, and the core
/// produces them itself where the failure is its own (a message that
/// fails validation on the read path, a queue whose peer end is gone).
#[derive(Debug, Clone, Copy, PartialEq, Eq)]
pub enum IoErrorKind {
    /// Data read from the stream violated the framing invariant.
    InvalidData,
    /// The peer end of a queue (or of a stream) has been released.
    BrokenPipe,
    /// Any other stream failure.
    Other,
}

/// Why a candidate message body was rejected by the validator.
#[derive(Debug, Clone, Copy, PartialEq, Eq)]
pub enum ValidationError {
    /// The body has zero length.
    Empty,
    /// The body contains an embedded line terminator.
    ContainsNewline,
}

/// A failure on the framed read or write path: either a validation
/// failure translated to an invalid-data classification, or an
/// underlying stream failure.
#[derive(Debug, Clone, Copy, PartialEq, Eq)]
pub enum StdioError {
    /// The message body was empty after terminator stripping.
    EmptyMessage,
    /// The message body contained an embedded line terminator.
    ContainsNewline,
    /// The underlying stream failed.
    Io(IoErrorKind),
}

/// Any failure a transport can report to its caller.
#[derive(Debug, Clone, PartialEq, Eq)]
pub enum TransportError {
    /// A message was rejected before it touched the wire.
    InvalidMessage(String),
    /// The framed read or write path failed.
    Stdio(StdioError),
    /// A raw stream or queue failure outside the framed paths.
    Io(IoErrorKind),
}

pub type TransportResult<T> = Result<T, TransportError>;

pub type StdioResult<T> = Result<T, StdioError>;

/// The descriptive text of an [`IoErrorKind`].
pub open spec fn io_error_kind_text(kind: IoErrorKind) -> Seq<char> {
    match kind {
        IoErrorKind::InvalidData => "invalid data"@,
        IoErrorKind::BrokenPipe => "broken pipe"@,
        IoErrorKind::Other => "other error"@,
    }
}

/// The descriptive text of a [`ValidationError`].
pub open spec fn validation_error_text(e: ValidationError) -> Seq<char> {
    match e {
        ValidationError::Empty => "message cannot be empty"@,
        ValidationError::ContainsNewline => "message contains newline character"@,
    }
}

/// The descriptive text of a [`StdioError`].
pub open spec fn stdio_error_text(e: StdioError) -> Seq<char> {
    match e {
        StdioError::EmptyMessage => "message cannot be empty"@,
        StdioError::ContainsNewline => "message contains newline character"@,
        StdioError::Io(kind) => "io error: "@ + io_error_kind_text(kind),
    }
}

/// The descriptive text of a [`TransportError`].
pub open spec fn transport_error_text(e: TransportError) -> Seq<char> {
    match e {
        TransportError::InvalidMessage(msg) => "invalid message: "@ + msg@,
        TransportError::Stdio(inner) => "stdio error: "@ + stdio_error_text(inner),
        TransportError::Io(kind) => "io error: "@ + io_error_kind_text(kind),
    }
}

impl IoErrorKind {
    /// A human-readable description of the failure class.
    pub fn describe(&self) -> (r: String)
        ensures
            r@ == io_error_kind_text(*self),
    {
        match self {
            IoErrorKind::InvalidData => String::from_str("invalid data"),
            IoErrorKind::BrokenPipe => String::from_str("broken pipe"),
            IoErrorKind::Other => String::from_str("other error"),
        }
    }
}

impl ValidationError {
    /// A human-readable description of the rejection.
    pub fn describe(&self) -> (r: String)
        ensures
            r@ == validation_error_text(*self),
    {
        match self {
            ValidationError::Empty => String::from_str("message cannot be empty"),
            ValidationError::ContainsNewline => String::from_str(
                "message contains newline character",
            ),
        }
    }
}

impl StdioError {
    /// A human-readable description of the failure.
    pub fn describe(&self) -> (r: String)
        ensures
            r@ == stdio_error_text(*self),
    {
        match self {
            StdioError::EmptyMessage => String::from_str("message cannot be empty"),
            StdioError::ContainsNewline => String::from_str("message contains newline character"),
            StdioError::Io(kind) => String::from_str("io error: ").concat(
                kind.describe().as_str(),
            ),
        }
    }
}

impl TransportError {
    /// A human-readable description of the failure.
    pub fn describe(&self) -> (r: String)
        ensures
            r@ == transport_error_text(*self),
    {
        match self {
            TransportError::InvalidMessage(msg) => String::from_str("invalid message: ").concat(
                msg.as_str(),
            ),
            TransportError::Stdio(inner) => String::from_str("stdio error: ").concat(
                inner.describe().as_str(),
            ),
            TransportError::Io(kind) => String::from_str("io error: ").concat(
                kind.describe().as_str(),
            ),
        }
    }
}

impl From<StdioError> for TransportError {
    fn from(error: StdioError) -> (r: Self)
        ensures
            r == TransportError::Stdio(error),
    {
        TransportError::Stdio(error)
    }
}

impl vstd::std_specs::convert::FromSpecImpl<StdioError> for TransportError {
    open spec fn obeys_from_spec() -> bool {
        true
    }

    open spec fn from_spec(error: StdioError) -> Self {
        TransportError::Stdio(error)
    }
}

impl From<IoErrorKind> for TransportError {
    fn from(error: IoErrorKind) -> (r: Self)
        ensures
            r == TransportError::Io(error),
    {
        TransportError::Io(error)
    }
}

impl vstd::std_specs::convert::FromSpecImpl<IoErrorKind> for TransportError {
    open spec fn obeys_from_spec() -> bool {
        true
    }

    open spec fn from_spec(error: IoErrorKind) -> Self {
        TransportError::Io(error)
    }
}

impl From<IoErrorKind> for StdioError {
    fn from(error: IoErrorKind) -> (r: Self)
        ensures
            r == StdioError::Io(error),
    {
        StdioError::Io(error)
    }
}

impl vstd::std_specs::convert::FromSpecImpl<IoErrorKind> for StdioError {
    open spec fn obeys_from_spec() -> bool {
        true
    }

    open spec fn from_spec(error: IoErrorKind) -> Self {
        StdioError::Io(error)
    }
}

impl From<ValidationError> for StdioError {
    fn from(error: ValidationError) -> (r: Self)
        ensures
            r == StdioError::from_validation(error),
    {
        match error {
            ValidationError::Empty => StdioError::EmptyMessage,
            ValidationError::ContainsNewline => StdioError::ContainsNewline,
        }
    }
}

impl StdioError {
    /// How a validation failure surfaces on the framed read and write
    /// paths: translated to the matching invalid-data classification.
    pub open spec fn from_validation(error: ValidationError) -> StdioError {
        match error {
            ValidationError::Empty => StdioError::EmptyMessage,
            ValidationError::ContainsNewline => StdioError::ContainsNewline,
        }
    }
}

impl vstd::std_specs::convert::FromSpecImpl<ValidationError> for StdioError {
    open spec fn obeys_from_spec() -> bool {
        true
    }

    open spec fn from_spec(error: ValidationError) -> Self {
        StdioError::from_validation(error)
    }
}

} // verus!

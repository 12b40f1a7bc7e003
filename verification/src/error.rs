use vstd::prelude::*;
use vstd::string::StringExecFns;

use crate::transport::error::{io_error_kind_text, transport_error_text, IoErrorKind};
use crate::transport::TransportError;

verus! {

/// Any failure a server built on the transport can report.
#[derive(Debug, Clone, PartialEq, Eq)]
pub enum ServerError {
    /// The transport layer failed.
    Transport(TransportError),
    /// A stream failed outside the transport layer.
    Io(IoErrorKind),
}

pub type ServerResult<T> = Result<T, ServerError>;

/// The descriptive text of a [`ServerError`].
pub open spec fn server_error_text(e: ServerError) -> Seq<char> {
    match e {
        ServerError::Transport(inner) => "transport error: "@ + transport_error_text(inner),
        ServerError::Io(kind) => "io error: "@ + io_error_kind_text(kind),
    }
}

impl ServerError {
    /// A human-readable description of the failure.
    pub fn describe(&self) -> (r: String)
        ensures
            r@ == server_error_text(*self),
    {
        match self {
            ServerError::Transport(inner) => String::from_str("transport error: ").concat(
                inner.describe().as_str(),
            ),
            ServerError::Io(kind) => String::from_str("io error: ").concat(
                kind.describe().as_str(),
            ),
        }
    }
}

impl From<TransportError> for ServerError {
    fn from(error: TransportError) -> (r: Self)
        ensures
            r == ServerError::Transport(error),
    {
        ServerError::Transport(error)
    }
}

impl vstd::std_specs::convert::FromSpecImpl<TransportError> for ServerError {
    open spec fn obeys_from_spec() -> bool {
        true
    }

    open spec fn from_spec(error: TransportError) -> Self {
        ServerError::Transport(error)
    }
}

impl From<IoErrorKind> for ServerError {
    fn from(error: IoErrorKind) -> (r: Self)
        ensures
            r == ServerError::Io(error),
    {
        ServerError::Io(error)
    }
}

impl vstd::std_specs::convert::FromSpecImpl<IoErrorKind> for ServerError {
    open spec fn obeys_from_spec() -> bool {
        true
    }

    open spec fn from_spec(error: IoErrorKind) -> Self {
        ServerError::Io(error)
    }
}

} // verus!

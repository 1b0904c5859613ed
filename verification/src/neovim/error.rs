//! Failures of a session with an editor instance.

use vstd::prelude::*;
use vstd::string::*;
use crate::text::{i32_to_decimal, signed_decimal};

verus! {

/// A failure reported by a session or by a call made through it.
#[derive(Debug, Clone)]
pub enum NeovimError {
    /// The target could not be reached, or the transport failed.
    Connection(String),
    /// A call into the editor failed, or its answer could not be decoded.
    Api(String),
    /// The language server itself answered with an error.
    Lsp { code: i32, message: String },
    /// There is no session to act on.
    NotConnected,
    /// A session with the named target is already open.
    AlreadyConnected(String),
}

/// The class of a failure, by where it arose.
#[derive(Debug, Clone, Copy, PartialEq, Eq, Structural)]
pub enum ErrorKind {
    /// The transport: unreachable target, already or not connected.
    Connection,
    /// The editor's API, or decoding what it returned.
    Api,
    /// The language server, with its numeric error code.
    Lsp,
}

impl NeovimError {
    /// The class this failure belongs to.
    pub open spec fn kind_spec(self) -> ErrorKind {
        match self {
            NeovimError::Connection(_) => ErrorKind::Connection,
            NeovimError::NotConnected => ErrorKind::Connection,
            NeovimError::AlreadyConnected(_) => ErrorKind::Connection,
            NeovimError::Api(_) => ErrorKind::Api,
            NeovimError::Lsp { .. } => ErrorKind::Lsp,
        }
    }

    /// The class this failure belongs to.
    pub fn kind(&self) -> (kind: ErrorKind)
        ensures
            kind == self.kind_spec(),
    {
        match self {
            NeovimError::Connection(_) => ErrorKind::Connection,
            NeovimError::NotConnected => ErrorKind::Connection,
            NeovimError::AlreadyConnected(_) => ErrorKind::Connection,
            NeovimError::Api(_) => ErrorKind::Api,
            NeovimError::Lsp { .. } => ErrorKind::Lsp,
        }
    }

    /// The text shown to a user for this failure.
    pub open spec fn message_spec(self) -> Seq<char> {
        match self {
            NeovimError::Connection(detail) => "Connection error: "@ + detail@,
            NeovimError::Api(detail) => "API error: "@ + detail@,
            NeovimError::Lsp { code, message } => "LSP Error: "@ + signed_decimal(code as int)
                + ", "@ + message@,
            NeovimError::NotConnected => "No active connection"@,
            NeovimError::AlreadyConnected(target) => "Already connected to "@ + target@,
        }
    }

    /// The text shown to a user for this failure.
    pub fn message(&self) -> (text: String)
        ensures
            text@ == self.message_spec(),
    {
        match self {
            NeovimError::Connection(detail) => String::from_str("Connection error: ").concat(
                detail.as_str(),
            ),
            NeovimError::Api(detail) => String::from_str("API error: ").concat(detail.as_str()),
            NeovimError::Lsp { code, message } => {
                let mut text = String::from_str("LSP Error: ");
                text.append(i32_to_decimal(*code).as_str());
                text.append(", ");
                text.append(message.as_str());
                text
            },
            NeovimError::NotConnected => String::from_str("No active connection"),
            NeovimError::AlreadyConnected(target) => String::from_str(
                "Already connected to ",
            ).concat(target.as_str()),
        }
    }
}

} // verus!

//! The editor side: sessions, errors, the protocol's data shapes and the
//! requests built from them.

pub mod client;
pub mod connection;
pub mod error;
pub mod lsp;

pub use client::{
    CodeAction, DocumentIdentifier, NeovimClient, NeovimHandler, Position, Range, WorkspaceEdit,
};
pub use error::NeovimError;

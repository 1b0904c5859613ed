//! The connection registry, connection identity, target discovery, and the
//! resources and tools built on them.

pub mod registry;
pub mod resources;
pub mod targets;
pub mod tools;

pub use registry::NeovimMcpServer;

//! Bridge between tool callers and running Neovim instances: connection
//! identity and registry, target discovery, document resolution and the
//! request/response shapes of the language-intelligence calls.

use vstd::prelude::*;
use vstd::string::*;

pub mod config;
pub mod neovim;
pub mod server;
pub mod text;

pub use config::{ConfigError, ServerConfig};
pub use server::NeovimMcpServer;

verus! {

/// A failure of the server as a whole.
#[derive(Debug, Clone)]
pub enum ServerError {
    /// The tool protocol failed; the text of the failure.
    Mcp(String),
    /// Input or output failed; the text of the failure.
    Io(String),
    /// The server itself failed.
    Server(String),
}

impl ServerError {
    /// The text shown to a user for this failure.
    pub open spec fn message_spec(self) -> Seq<char> {
        match self {
            ServerError::Mcp(detail) => "MCP protocol error: "@ + detail@,
            ServerError::Io(detail) => "IO error: "@ + detail@,
            ServerError::Server(detail) => "Server error: "@ + detail@,
        }
    }

    /// The text shown to a user for this failure.
    pub fn message(&self) -> (text: String)
        ensures
            text@ == self.message_spec(),
    {
        match self {
            ServerError::Mcp(detail) => String::from_str("MCP protocol error: ").concat(
                detail.as_str(),
            ),
            ServerError::Io(detail) => String::from_str("IO error: ").concat(detail.as_str()),
            ServerError::Server(detail) => String::from_str("Server error: ").concat(
                detail.as_str(),
            ),
        }
    }
}

/// The form in which `Debug` writes a string: in double quotes, with the
/// characters that need it escaped.
pub uninterp spec fn debug_text(s: Seq<char>) -> Seq<char>;

/// The `Debug` formatting of `str`, through `format!`: the result depends
/// on the string alone.
#[verifier::external_body]
fn debug_quoted(s: &str) -> (quoted: String)
    ensures
        quoted@ == debug_text(s@),
{
    format!("{:?}", s)
}

/// The long version text of a build: the version, then the commit and the
/// build time in `Debug` form, then a mark where the work tree was dirty.
pub open spec fn long_version_spec(
    version: Seq<char>,
    commit_sha: Seq<char>,
    build_time: Seq<char>,
    git_dirty: Seq<char>,
) -> Seq<char> {
    long_version_text(version, debug_text(commit_sha), debug_text(build_time), git_dirty)
}

/// The long version text, from the commit and the build time as they are
/// to be shown.
pub open spec fn long_version_text(
    version: Seq<char>,
    commit_shown: Seq<char>,
    build_time_shown: Seq<char>,
    git_dirty: Seq<char>,
) -> Seq<char> {
    version + " (sha:"@ + commit_shown + ", build_time:"@ + build_time_shown + ")"@
        + if git_dirty == "true"@ {
        "[dirty]"@
    } else {
        Seq::empty()
    }
}

/// Puts the long version text together from the commit and the build time
/// as they are to be shown. `git_dirty` is `true` for a work tree with
/// changes that were not committed.
pub fn compose_long_version(
    version: &str,
    commit_shown: &str,
    build_time_shown: &str,
    git_dirty: &str,
) -> (text: String)
    ensures
        text@ == long_version_text(version@, commit_shown@, build_time_shown@, git_dirty@),
{
    let mut text = String::from_str(version);
    text.append(" (sha:");
    text.append(commit_shown);
    text.append(", build_time:");
    text.append(build_time_shown);
    text.append(")");
    if crate::text::str_equal(git_dirty, "true") {
        text.append("[dirty]");
    } else {
        assert(text@ + Seq::<char>::empty() =~= text@);
    }
    text
}

/// The long version text of a build. `git_dirty` is `true` for a work tree
/// with changes that were not committed.
pub fn long_version(version: &str, commit_sha: &str, build_time: &str, git_dirty: &str) -> (text:
    String)
    ensures
        text@ == long_version_spec(version@, commit_sha@, build_time@, git_dirty@),
{
    let commit_shown = debug_quoted(commit_sha);
    let build_time_shown = debug_quoted(build_time);
    compose_long_version(version, commit_shown.as_str(), build_time_shown.as_str(), git_dirty)
}

} // verus!

//! The resources that the server offers: the list of connections and the
//! diagnostics of a connection, addressed by URI.

use vstd::prelude::*;
use vstd::string::*;
use crate::server::registry::{lists_sessions, NeovimMcpServer, ToolError, ToolErrorKind};
use crate::text::{is_prefix, parse_u64, parse_u64_spec, starts_with, str_equal};

verus! {

/// What matching a text against a regular expression gives: `None` where
/// the pattern does not compile; `Some(None)` where nothing matches;
/// otherwise the capture groups of the leftmost match, the whole match
/// first, each with its text or `None` where the group took no part.
pub uninterp spec fn regex_captures(pattern: Seq<char>, text: Seq<char>) -> Option<
    Option<Seq<Option<Seq<char>>>>,
>;

/// The capture groups as character sequences.
pub open spec fn groups_view(groups: Seq<Option<String>>) -> Seq<Option<Seq<char>>> {
    Seq::new(
        groups.len(),
        |i: int|
            match groups[i] {
                Some(text) => Some(text@),
                None => None,
            },
    )
}

/// What a matching attempt gave, as character sequences.
pub open spec fn captures_view(found: Result<Option<Vec<Option<String>>>, String>) -> Option<
    Option<Seq<Option<Seq<char>>>>,
> {
    match found {
        Err(_) => None,
        Ok(None) => Some(None),
        Ok(Some(groups)) => Some(Some(groups_view(groups@))),
    }
}

/// `regex::Regex::new` and, on the compiled expression,
/// `Regex::captures`: the compile error as text, or the capture groups of
/// the leftmost match in `text`, if there is a match. The answer depends
/// on the pattern and the text alone.
#[verifier::external_body]
fn match_captures(pattern: &str, text: &str) -> (found: Result<Option<Vec<Option<String>>>, String>)
    ensures
        captures_view(found) == regex_captures(pattern@, text@),
{
    match regex::Regex::new(pattern) {
        Ok(re) => Ok(
            re.captures(text).map(
                |found| found.iter().map(|group| group.map(|m| m.as_str().to_string())).collect(),
            ),
        ),
        Err(e) => Err(e.to_string()),
    }
}

/// A resource that the server lists.
#[derive(Debug, Clone)]
pub struct ResourceEntry {
    pub uri: String,
    pub name: String,
    pub description: String,
    pub mime_type: String,
}

/// What a resource URI asks for.
#[derive(Debug, Clone)]
pub enum ResourceRequest {
    /// The list of the registered connections.
    Connections,
    /// The diagnostics of the whole workspace of a connection.
    WorkspaceDiagnostics { connection_id: String },
    /// The diagnostics of one buffer of a connection.
    BufferDiagnostics { connection_id: String, buffer_id: u64 },
}

/// The URI of the list of connections.
pub open spec fn connections_uri() -> Seq<char> {
    "nvim-connections://"@
}

/// The scheme of the diagnostics resources.
pub open spec fn diagnostics_scheme() -> Seq<char> {
    "nvim-diagnostics://"@
}

/// The shape of a diagnostics URI: the scheme, a connection id without a
/// slash, a slash, and the rest.
pub open spec fn diagnostics_pattern() -> Seq<char> {
    "nvim-diagnostics://([^/]+)/(.+)"@
}

/// Whether `outcome` is a failure of the given class and message.
pub open spec fn is_fault<T>(outcome: Result<T, ToolError>, kind: ToolErrorKind, message: Seq<char>) -> bool {
    outcome matches Err(fault) && fault.has(kind, message)
}

/// Whether `outcome` answers that there is no such resource.
pub open spec fn is_unknown_resource<T>(outcome: Result<T, ToolError>) -> bool {
    is_fault(outcome, ToolErrorKind::ResourceNotFound, "resource_not_found"@)
}

/// Whether `outcome` is what the part of a diagnostics URI behind the
/// connection id asks for: `workspace` for the workspace, `buffer/` and a
/// number for a buffer, invalid parameters where the number is malformed,
/// and no resource for anything else.
pub open spec fn is_diagnostics_request(
    id: Seq<char>,
    kind: Seq<char>,
    outcome: Result<ResourceRequest, ToolError>,
) -> bool {
    if kind == "workspace"@ {
        outcome matches Ok(ResourceRequest::WorkspaceDiagnostics { connection_id })
            && connection_id@ == id
    } else if is_prefix("buffer/"@, kind) {
        match parse_u64_spec(kind.subrange("buffer/"@.len() as int, kind.len() as int)) {
            Some(number) => outcome matches Ok(
                ResourceRequest::BufferDiagnostics { connection_id, buffer_id },
            ) && connection_id@ == id && buffer_id == number,
            None => is_fault(outcome, ToolErrorKind::InvalidParams, "Invalid buffer ID"@),
        }
    } else {
        is_unknown_resource(outcome)
    }
}

/// Whether `outcome` is what the URI asks for, given what matching it
/// against the diagnostics pattern gave and which sessions are registered.
///
/// The connections URI asks for the list of connections. A URI of the
/// diagnostics scheme that matches the pattern names a connection, which
/// must be registered, and then asks as `is_diagnostics_request` says. A
/// pattern that does not compile is an internal error. Everything else is
/// no resource.
pub open spec fn is_resource_request(
    uri: Seq<char>,
    captures: Option<Option<Seq<Option<Seq<char>>>>>,
    sessions: Map<Seq<char>, Option<Seq<char>>>,
    outcome: Result<ResourceRequest, ToolError>,
) -> bool {
    if uri == connections_uri() {
        outcome matches Ok(ResourceRequest::Connections)
    } else if !is_prefix(diagnostics_scheme(), uri) {
        is_unknown_resource(outcome)
    } else {
        match captures {
            None => is_fault(outcome, ToolErrorKind::InternalError, "Failed to compile regex"@),
            Some(None) => is_unknown_resource(outcome),
            Some(Some(groups)) => {
                if groups.len() < 3 || groups[1].is_none() || groups[2].is_none() {
                    is_unknown_resource(outcome)
                } else if !sessions.contains_key(groups[1]->0) {
                    is_fault(
                        outcome,
                        ToolErrorKind::InvalidRequest,
                        ToolError::not_found_message(groups[1]->0),
                    )
                } else {
                    is_diagnostics_request(groups[1]->0, groups[2]->0, outcome)
                }
            },
        }
    }
}

/// The answer that there is no such resource.
fn unknown_resource<T>() -> (outcome: Result<T, ToolError>)
    ensures
        is_unknown_resource(outcome),
{
    Err(
        ToolError {
            kind: ToolErrorKind::ResourceNotFound,
            message: String::from_str("resource_not_found"),
        },
    )
}

/// Reads the part of a diagnostics URI behind the connection id.
pub fn diagnostics_request(connection_id: &str, kind: &str) -> (outcome: Result<
    ResourceRequest,
    ToolError,
>)
    ensures
        is_diagnostics_request(connection_id@, kind@, outcome),
{
    if str_equal(kind, "workspace") {
        Ok(ResourceRequest::WorkspaceDiagnostics { connection_id: String::from_str(connection_id) })
    } else if starts_with(kind, "buffer/") {
        proof {
            reveal_strlit("buffer/");
        }
        let number = kind.substring_char(7, kind.unicode_len());
        match parse_u64(number) {
            Some(buffer_id) => Ok(
                ResourceRequest::BufferDiagnostics {
                    connection_id: String::from_str(connection_id),
                    buffer_id,
                },
            ),
            None => Err(
                ToolError {
                    kind: ToolErrorKind::InvalidParams,
                    message: String::from_str("Invalid buffer ID"),
                },
            ),
        }
    } else {
        unknown_resource()
    }
}

impl NeovimMcpServer {
    /// Says what a resource URI asks for, given what matching the URI
    /// against the diagnostics pattern gave.
    pub fn plan_resource(
        &self,
        uri: &str,
        captures: Result<Option<Vec<Option<String>>>, String>,
    ) -> (outcome: Result<ResourceRequest, ToolError>)
        ensures
            is_resource_request(uri@, captures_view(captures), self.sessions(), outcome),
    {
        if str_equal(uri, "nvim-connections://") {
            return Ok(ResourceRequest::Connections);
        }
        if !starts_with(uri, "nvim-diagnostics://") {
            return unknown_resource();
        }
        match captures {
            Err(_) => Err(
                ToolError {
                    kind: ToolErrorKind::InternalError,
                    message: String::from_str("Failed to compile regex"),
                },
            ),
            Ok(None) => unknown_resource(),
            Ok(Some(groups)) => {
                if groups.len() < 3 {
                    return unknown_resource();
                }
                match (&groups[1], &groups[2]) {
                    (Some(connection_id), Some(kind)) => {
                        match self.get_connection(connection_id.as_str()) {
                            Err(fault) => Err(fault),
                            Ok(_) => diagnostics_request(connection_id.as_str(), kind.as_str()),
                        }
                    },
                    _ => unknown_resource(),
                }
            },
        }
    }

    /// Says what a resource URI asks for.
    pub fn read_resource(&self, uri: &str) -> (outcome: Result<ResourceRequest, ToolError>)
        ensures
            is_resource_request(
                uri@,
                regex_captures(diagnostics_pattern(), uri@),
                self.sessions(),
                outcome,
            ),
    {
        if str_equal(uri, "nvim-connections://") || !starts_with(uri, "nvim-diagnostics://") {
            self.plan_resource(uri, Ok(None))
        } else {
            let captures = match_captures("nvim-diagnostics://([^/]+)/(.+)", uri);
            self.plan_resource(uri, captures)
        }
    }
}

/// A registered connection as it is shown to callers.
#[derive(Debug, Clone)]
pub struct ConnectionInfo {
    pub id: String,
    /// The target of the session, or `Unknown` for a closed session.
    pub target: String,
}

/// Whether `entry` is the resource that lists the connections.
pub open spec fn is_connections_entry(entry: ResourceEntry) -> bool {
    &&& entry.uri@ == connections_uri()
    &&& entry.name@ == "Active Neovim Connections"@
    &&& entry.description@ == "List of active Neovim connections"@
    &&& entry.mime_type@ == "application/json"@
}

/// Whether `entry` is the resource of the workspace diagnostics of the
/// connection `id`.
pub open spec fn is_workspace_entry(entry: ResourceEntry, id: Seq<char>) -> bool {
    &&& entry.uri@ == diagnostics_scheme() + id + "/workspace"@
    &&& entry.name@ == "Workspace Diagnostics ("@ + id + ")"@
    &&& entry.description@ == "Diagnostic messages for connection "@ + id
    &&& entry.mime_type@ == "application/json"@
}

/// Whether `resources` is the list of resources for the listed sessions:
/// the list of connections first, then the workspace diagnostics of each
/// session in the order of the listing.
pub open spec fn is_resource_list(
    resources: Seq<ResourceEntry>,
    all: Seq<(String, Option<String>)>,
) -> bool {
    &&& resources.len() == all.len() + 1
    &&& is_connections_entry(resources[0])
    &&& forall|i: int|
        0 <= i < all.len() ==> is_workspace_entry(#[trigger] resources[i + 1], all[i].0@)
}

/// Whether `shown` describes the listed sessions, one for one: the id, and
/// the target or `Unknown`.
pub open spec fn describes(shown: Seq<ConnectionInfo>, all: Seq<(String, Option<String>)>) -> bool {
    &&& shown.len() == all.len()
    &&& forall|i: int|
        0 <= i < all.len() ==> (#[trigger] shown[i]).id@ == all[i].0@ && shown[i].target@
            == match all[i].1 {
            Some(target) => target@,
            None => "Unknown"@,
        }
}

/// The resources for a listing of the sessions.
pub fn resources_for(all: &Vec<(String, Option<String>)>) -> (resources: Vec<ResourceEntry>)
    ensures
        is_resource_list(resources@, all@),
{
    let mut resources: Vec<ResourceEntry> = Vec::new();
    resources.push(
        ResourceEntry {
            uri: String::from_str("nvim-connections://"),
            name: String::from_str("Active Neovim Connections"),
            description: String::from_str("List of active Neovim connections"),
            mime_type: String::from_str("application/json"),
        },
    );
    let mut i: usize = 0;
    while i < all.len()
        invariant
            i <= all@.len(),
            resources@.len() == i + 1,
            is_connections_entry(resources@[0]),
            forall|k: int| 0 <= k < i ==> is_workspace_entry(#[trigger] resources@[k + 1], all@[k].0@),
        decreases all@.len() - i,
    {
        let id = all[i].0.as_str();
        let mut uri = String::from_str("nvim-diagnostics://");
        uri.append(id);
        uri.append("/workspace");
        let mut name = String::from_str("Workspace Diagnostics (");
        name.append(id);
        name.append(")");
        let description = String::from_str("Diagnostic messages for connection ").concat(id);
        resources.push(
            ResourceEntry { uri, name, description, mime_type: String::from_str("application/json") },
        );
        i += 1;
    }
    resources
}

/// Describes a listing of the sessions for callers.
pub fn describe_connections(all: &Vec<(String, Option<String>)>) -> (shown: Vec<ConnectionInfo>)
    ensures
        describes(shown@, all@),
{
    let mut shown: Vec<ConnectionInfo> = Vec::new();
    let mut i: usize = 0;
    while i < all.len()
        invariant
            i <= all@.len(),
            describes(shown@, all@.subrange(0, i as int)),
        decreases all@.len() - i,
    {
        let target = match &all[i].1 {
            Some(target) => target.clone(),
            None => String::from_str("Unknown"),
        };
        shown.push(ConnectionInfo { id: all[i].0.clone(), target });
        i += 1;
    }
    assert(all@.subrange(0, i as int) =~= all@);
    shown
}

impl NeovimMcpServer {
    /// The resources that the server offers at this moment: the list of
    /// connections, and the workspace diagnostics of each registered
    /// session.
    pub fn list_resources(&self) -> (resources: Vec<ResourceEntry>)
        ensures
            exists|all: Seq<(String, Option<String>)>|
                lists_sessions(all, self.sessions()) && is_resource_list(resources@, all),
    {
        let all = self.connections();
        resources_for(&all)
    }

    /// The registered connections as they are shown to callers, in no
    /// particular order.
    pub fn list_connections(&self) -> (shown: Vec<ConnectionInfo>)
        ensures
            exists|all: Seq<(String, Option<String>)>|
                lists_sessions(all, self.sessions()) && describes(shown@, all),
    {
        let all = self.connections();
        describe_connections(&all)
    }
}

} // verus!

//! Connection identity: the content hash of a target address, its
//! hexadecimal form, and the short ids cut from it.

use vstd::prelude::*;
use vstd::string::*;
use vstd::utf8::encode_utf8;
use dashmap::DashMap;
use crate::config::SocketGlobMode;
use crate::neovim::error::NeovimError;
use crate::text::{replace_char, replace_char_spec, trim, trim_spec};

verus! {

/// The 32 bytes of the BLAKE3 hash of a byte string.
pub uninterp spec fn blake3_digest(input: Seq<u8>) -> Seq<u8>;

/// `blake3::hash`, with the hash handed back as its 32 bytes
/// (`Hash::as_bytes`). The digest is a function of the input alone; nothing
/// more is claimed of it.
#[verifier::external_body]
fn blake3_hash(input: &[u8]) -> (digest: [u8; 32])
    ensures
        digest@ == blake3_digest(input@),
{
    *blake3::hash(input).as_bytes()
}

/// The lower-case hexadecimal digit for `n`, where `0 <= n < 16`.
pub open spec fn hex_char(n: int) -> char {
    if n < 10 {
        crate::text::digit_char(n)
    } else if n == 10 {
        'a'
    } else if n == 11 {
        'b'
    } else if n == 12 {
        'c'
    } else if n == 13 {
        'd'
    } else if n == 14 {
        'e'
    } else {
        'f'
    }
}

/// Whether `c` is a lower-case hexadecimal digit.
pub open spec fn is_hex_char(c: char) -> bool {
    ('0' <= c && c <= '9') || ('a' <= c && c <= 'f')
}

/// Lower-case hexadecimal: two digits for each byte, the high half first.
pub open spec fn hex_encode(bytes: Seq<u8>) -> Seq<char> {
    Seq::new(
        2 * bytes.len(),
        |i: int|
            if i % 2 == 0 {
                hex_char(bytes[i / 2] as int / 16)
            } else {
                hex_char(bytes[i / 2] as int % 16)
            },
    )
}

/// The full hash of a target address, as the 64 hexadecimal digits from
/// which connection ids are cut.
pub open spec fn b3sum_spec(input: Seq<char>) -> Seq<char> {
    hex_encode(blake3_digest(encode_utf8(input)))
}

/// The lower-case hexadecimal digit for `n`.
fn hex_digit(n: u8) -> (c: char)
    requires
        n < 16,
    ensures
        c == hex_char(n as int),
        is_hex_char(c),
{
    if n == 0 {
        '0'
    } else if n == 1 {
        '1'
    } else if n == 2 {
        '2'
    } else if n == 3 {
        '3'
    } else if n == 4 {
        '4'
    } else if n == 5 {
        '5'
    } else if n == 6 {
        '6'
    } else if n == 7 {
        '7'
    } else if n == 8 {
        '8'
    } else if n == 9 {
        '9'
    } else if n == 10 {
        'a'
    } else if n == 11 {
        'b'
    } else if n == 12 {
        'c'
    } else if n == 13 {
        'd'
    } else if n == 14 {
        'e'
    } else {
        'f'
    }
}

/// Writes bytes in lower-case hexadecimal.
pub fn to_hex(bytes: &[u8]) -> (hex: String)
    ensures
        hex@ == hex_encode(bytes@),
{
    let mut hex = String::new();
    let mut i: usize = 0;
    while i < bytes.len()
        invariant
            i <= bytes@.len(),
            hex@.len() == 2 * i,
            forall|k: int| 0 <= k < 2 * i ==> hex@[k] == #[trigger] hex_encode(bytes@)[k],
        decreases bytes@.len() - i,
    {
        let b = bytes[i];
        hex.push(hex_digit(b / 16));
        hex.push(hex_digit(b % 16));
        i += 1;
    }
    assert(hex@ =~= hex_encode(bytes@));
    hex
}

/// Every character of a hexadecimal encoding is a hexadecimal digit, and
/// there are two of them for each byte.
pub proof fn lemma_hex_encode_shape(bytes: Seq<u8>)
    ensures
        hex_encode(bytes).len() == 2 * bytes.len(),
        forall|k: int| 0 <= k < 2 * bytes.len() ==> is_hex_char(#[trigger] hex_encode(bytes)[k]),
{
}

/// The BLAKE3 hash of a string's UTF-8 bytes, in lower-case hexadecimal.
pub fn b3sum(input: &str) -> (hex: String)
    ensures
        hex@ == b3sum_spec(input@),
        hex@.len() == 64,
{
    let digest = blake3_hash(input.as_bytes());
    to_hex(digest.as_slice())
}

/// Makes a path fit for use inside a file name: the white space around it
/// is dropped and every `/` becomes `%`.
pub fn escape_path(path: &str) -> (escaped: String)
    ensures
        escaped@ == replace_char_spec(trim_spec(path@), '/', '%'),
{
    replace_char(trim(path), '/', '%')
}

/// The root of the work tree, from what `git rev-parse --show-toplevel`
/// gave: the text that it printed, without the white space around it, where
/// the command succeeded and printed text; nothing otherwise.
pub fn git_root_from_output(succeeded: bool, stdout: Option<String>) -> (root: Option<String>)
    ensures
        match stdout {
            Some(text) => if succeeded {
                root matches Some(r) && r@ == trim_spec(text@)
            } else {
                root.is_none()
            },
            None => root.is_none(),
        },
{
    if !succeeded {
        return None;
    }
    match stdout {
        Some(text) => Some(String::from_str(trim(text.as_str()))),
        None => None,
    }
}

/// How a failed tool call is classed towards the caller.
#[derive(Debug, Clone, Copy, PartialEq, Eq, Structural)]
pub enum ToolErrorKind {
    /// The request cannot be served as it stands.
    InvalidRequest,
    /// The server failed while serving it.
    InternalError,
    /// A parameter of the request is malformed.
    InvalidParams,
    /// The resource that was asked for does not exist.
    ResourceNotFound,
}

/// A failed tool call: its class and the message for the caller.
#[derive(Debug, Clone)]
pub struct ToolError {
    pub kind: ToolErrorKind,
    pub message: String,
}

impl ToolError {
    /// How a session's failure is reported to a tool caller: transport and
    /// language-server failures as invalid requests, the latter with the
    /// server's code in the message; failures of the editor's API as
    /// internal errors.
    pub open spec fn from_neovim_spec(err: NeovimError) -> (ToolErrorKind, Seq<char>) {
        match err {
            NeovimError::Connection(detail) => (ToolErrorKind::InvalidRequest, detail@),
            NeovimError::Api(detail) => (ToolErrorKind::InternalError, detail@),
            NeovimError::Lsp { .. } => (ToolErrorKind::InvalidRequest, err.message_spec()),
            NeovimError::NotConnected => (ToolErrorKind::InvalidRequest, err.message_spec()),
            NeovimError::AlreadyConnected(_) => (ToolErrorKind::InvalidRequest, err.message_spec()),
        }
    }

    /// Whether this error has the given class and message.
    pub open spec fn has(self, kind: ToolErrorKind, message: Seq<char>) -> bool {
        self.kind == kind && self.message@ == message
    }

    /// Reports a session's failure to a tool caller.
    pub fn from_neovim(err: NeovimError) -> (fault: ToolError)
        ensures
            fault.has(Self::from_neovim_spec(err).0, Self::from_neovim_spec(err).1),
    {
        match err {
            NeovimError::Connection(detail) => ToolError {
                kind: ToolErrorKind::InvalidRequest,
                message: detail,
            },
            NeovimError::Api(detail) => ToolError {
                kind: ToolErrorKind::InternalError,
                message: detail,
            },
            other => ToolError { kind: ToolErrorKind::InvalidRequest, message: other.message() },
        }
    }

    /// The message for a connection id that the registry does not hold.
    pub open spec fn not_found_message(id: Seq<char>) -> Seq<char> {
        "No Neovim connection found for ID: "@ + id
    }

    /// The error for a connection id that the registry does not hold.
    pub fn not_found(id: &str) -> (fault: ToolError)
        ensures
            fault.has(ToolErrorKind::InvalidRequest, Self::not_found_message(id@)),
    {
        ToolError {
            kind: ToolErrorKind::InvalidRequest,
            message: String::from_str("No Neovim connection found for ID: ").concat(id),
        }
    }
}

/// `dashmap::DashMap`, the concurrent map that holds the sessions; nothing
/// of its inside is known here.
#[verifier::external_type_specification]
#[verifier::external_body]
#[verifier::reject_recursive_types(K)]
#[verifier::reject_recursive_types(V)]
#[verifier::reject_recursive_types(S)]
pub struct ExDashMap<K, V, S>(dashmap::DashMap<K, V, S>);

/// What a concurrent map of sessions holds: for each connection id, the
/// target of its session, or `None` for a session that has been closed
/// and not yet replaced.
pub uninterp spec fn session_targets(
    clients: DashMap<String, Option<String>>,
) -> Map<Seq<char>, Option<Seq<char>>>;

/// The registry without any session.
pub open spec fn no_sessions() -> Map<Seq<char>, Option<Seq<char>>> {
    Map::empty()
}

/// The character sequence of an optional string.
pub open spec fn target_view(target: Option<String>) -> Option<Seq<char>> {
    match target {
        Some(t) => Some(t@),
        None => None,
    }
}

/// `DashMap::new`: a map without entries.
#[verifier::external_body]
fn clients_new() -> (fresh: DashMap<String, Option<String>>)
    ensures
        session_targets(fresh) == no_sessions(),
{
    DashMap::new()
}

/// `DashMap::get`, with a copy of the value in place of the guard: the
/// value stored under `id`, or `None` where the map has no such key.
#[verifier::external_body]
fn clients_get(clients: &DashMap<String, Option<String>>, id: &str) -> (found: Option<
    Option<String>,
>)
    ensures
        match found {
            Some(target) => session_targets(*clients).contains_key(id@) && session_targets(
                *clients,
            )[id@] == target_view(target),
            None => !session_targets(*clients).contains_key(id@),
        },
{
    clients.get(id).map(|entry| entry.value().clone())
}

/// `DashMap::insert`: afterwards the map holds `target` under `id` and is
/// otherwise unchanged; the value that was stored under `id` before, if
/// any, is returned. The map is taken by unique reference, so that no other
/// handle changes it during the call.
#[verifier::external_body]
fn clients_insert(
    clients: &mut DashMap<String, Option<String>>,
    id: String,
    target: Option<String>,
) -> (previous: Option<Option<String>>)
    ensures
        session_targets(*final(clients)) == session_targets(*old(clients)).insert(
            id@,
            target_view(target),
        ),
        match previous {
            Some(before) => session_targets(*old(clients)).contains_key(id@) && session_targets(
                *old(clients),
            )[id@] == target_view(before),
            None => !session_targets(*old(clients)).contains_key(id@),
        },
{
    clients.insert(id, target)
}

/// `DashMap::remove`: afterwards the map has no entry under `id` and is
/// otherwise unchanged; the key and value that were removed, if any, are
/// returned.
#[verifier::external_body]
fn clients_remove(clients: &mut DashMap<String, Option<String>>, id: &str) -> (removed:
    Option<(String, Option<String>)>)
    ensures
        session_targets(*final(clients)) == session_targets(*old(clients)).remove(id@),
        match removed {
            Some(entry) => session_targets(*old(clients)).contains_key(id@) && entry.0@ == id@
                && session_targets(*old(clients))[id@] == target_view(entry.1),
            None => !session_targets(*old(clients)).contains_key(id@),
        },
{
    clients.remove(id)
}

/// `DashMap::iter`, run to the end, with a copy of each key and value: every
/// entry of the map once, in no particular order.
#[verifier::external_body]
fn clients_entries(clients: &DashMap<String, Option<String>>) -> (all: Vec<(String, Option<String>)>)
    ensures
        lists_sessions(all@, session_targets(*clients)),
{
    clients.iter().map(|entry| (entry.key().clone(), entry.value().clone())).collect()
}

/// Whether `all` lists the sessions of a registry: each item is a session
/// of the registry, no id comes twice, and no session is left out.
pub open spec fn lists_sessions(
    all: Seq<(String, Option<String>)>,
    sessions: Map<Seq<char>, Option<Seq<char>>>,
) -> bool {
    &&& forall|i: int|
        0 <= i < all.len() ==> sessions.contains_key(#[trigger] all[i].0@) && sessions[all[i].0@]
            == target_view(all[i].1)
    &&& forall|i: int, j: int| 0 <= i < j < all.len() ==> all[i].0@ != all[j].0@
    &&& forall|id: Seq<char>| #[trigger]
        sessions.contains_key(id) ==> exists|i: int| 0 <= i < all.len() && all[i].0@ == id
}

/// The number of characters in a connection id.
pub const ID_LENGTH: usize = 7;

/// The piece of `hash` that is `ID_LENGTH` characters long and begins at
/// `start`.
pub open spec fn window(hash: Seq<char>, start: int) -> Seq<char> {
    hash.subrange(start, start + ID_LENGTH as int)
}

/// Whether `candidate` can serve as the id of `target`: no session is
/// registered under it, or the session registered under it is open to this
/// very target.
pub open spec fn usable(
    sessions: Map<Seq<char>, Option<Seq<char>>>,
    candidate: Seq<char>,
    target: Seq<char>,
) -> bool {
    !sessions.contains_key(candidate) || sessions[candidate] == Some(target)
}

/// The first usable window of `hash` at or after `start`, or the whole hash
/// where none is left.
pub open spec fn first_usable_window(
    hash: Seq<char>,
    sessions: Map<Seq<char>, Option<Seq<char>>>,
    target: Seq<char>,
    start: int,
) -> Seq<char>
    decreases hash.len() - start,
{
    if start < 0 || start + ID_LENGTH > hash.len() {
        hash
    } else if usable(sessions, window(hash, start), target) {
        window(hash, start)
    } else {
        first_usable_window(hash, sessions, target, start + 1)
    }
}

/// The connection id of `target` against the registered sessions: the
/// first window of its hash that is usable, from the left; the full hash if
/// every window is taken by another target.
pub open spec fn connection_id(
    sessions: Map<Seq<char>, Option<Seq<char>>>,
    target: Seq<char>,
) -> Seq<char> {
    first_usable_window(b3sum_spec(target), sessions, target, 0)
}

/// Whether `id` is cut from the hash of `target`: it is one of the windows
/// of the hash, or the hash itself.
pub open spec fn cut_from_hash(id: Seq<char>, target: Seq<char>) -> bool {
    is_window_of(b3sum_spec(target), id) || id == b3sum_spec(target)
}

/// The invariant of the registry: the id of every open session is cut from
/// the hash of the session's target.
pub open spec fn ids_match_targets(sessions: Map<Seq<char>, Option<Seq<char>>>) -> bool {
    forall|id: Seq<char>|
        #![trigger sessions.contains_key(id)]
        sessions.contains_key(id) && sessions[id].is_some() ==> cut_from_hash(id, sessions[id]->0)
}

/// The server's state: the registry of sessions and the configured
/// addressing.
pub struct NeovimMcpServer {
    nvim_clients: DashMap<String, Option<String>>,
    socket_path: String,
    socket_mode: SocketGlobMode,
}

impl NeovimMcpServer {
    /// The registered sessions: connection id to target.
    pub closed spec fn sessions(&self) -> Map<Seq<char>, Option<Seq<char>>> {
        session_targets(self.nvim_clients)
    }

    /// The configured socket path.
    pub closed spec fn path(&self) -> Seq<char> {
        self.socket_path@
    }

    /// The addressing mode of the configured socket path.
    pub closed spec fn mode(&self) -> SocketGlobMode {
        self.socket_mode
    }

    /// Whether the registry is well formed: the id of every open session is
    /// cut from the hash of the session's target.
    pub open spec fn wf(&self) -> bool {
        ids_match_targets(self.sessions())
    }

    /// A server without sessions.
    pub fn new(socket_path: String, socket_mode: SocketGlobMode) -> (server: Self)
        ensures
            server.wf(),
            server.sessions() == no_sessions(),
            server.path() == socket_path@,
            server.mode() == socket_mode,
    {
        NeovimMcpServer { nvim_clients: clients_new(), socket_path, socket_mode }
    }

    /// The configured socket path.
    pub fn socket_path(&self) -> (path: &str)
        ensures
            path@ == self.path(),
    {
        self.socket_path.as_str()
    }

    /// The addressing mode of the configured socket path.
    pub fn socket_mode(&self) -> (mode: SocketGlobMode)
        ensures
            mode == self.mode(),
    {
        self.socket_mode
    }

    /// Whether the server is locked to the single target that its socket
    /// path names.
    pub fn is_locked_mode(&self) -> (locked: bool)
        ensures
            locked == (self.mode() == SocketGlobMode::SingleFile),
    {
        self.socket_mode == SocketGlobMode::SingleFile
    }

    /// The target to connect to at startup: the socket path in locked mode,
    /// none otherwise.
    pub fn get_auto_connection_target(&self) -> (target: Option<String>)
        ensures
            target_view(target) == if self.mode() == SocketGlobMode::SingleFile {
                Some(self.path())
            } else {
                None
            },
    {
        if self.is_locked_mode() {
            Some(self.socket_path.clone())
        } else {
            None
        }
    }

    /// Generates the short connection id for `target`, avoiding the ids of
    /// sessions to other targets: the id that `id_from_hash` cuts from the
    /// hash of the target.
    pub fn generate_shorter_connection_id(&self, target: &str) -> (id: String)
        ensures
            id@ == connection_id(self.sessions(), target@),
    {
        let full_hash = b3sum(target);
        self.id_from_hash(full_hash.as_str(), target)
    }

    /// Cuts the connection id for `target` from its hash: the first piece of
    /// `ID_LENGTH` characters, from the left, under which no session is
    /// registered or the session to this very target is; the whole hash
    /// where every piece is taken, or the hash is too short for one.
    pub fn id_from_hash(&self, full_hash: &str, target: &str) -> (id: String)
        ensures
            id@ == first_usable_window(full_hash@, self.sessions(), target@, 0),
    {
        let length = full_hash.unicode_len();
        let wanted = String::from_str(target);
        let mut start: usize = 0;
        while start < length && length - start >= ID_LENGTH
            invariant
                length == full_hash@.len(),
                wanted@ == target@,
                start <= length,
                first_usable_window(full_hash@, self.sessions(), target@, start as int)
                    == first_usable_window(full_hash@, self.sessions(), target@, 0),
            decreases length - start,
        {
            let candidate = full_hash.substring_char(start, start + ID_LENGTH);
            let free = match clients_get(&self.nvim_clients, candidate) {
                None => true,
                Some(Some(existing)) => existing == wanted,
                Some(None) => false,
            };
            if free {
                return String::from_str(candidate);
            }
            start += 1;
        }
        String::from_str(full_hash)
    }

    /// The registered sessions, each with its id and target, in no
    /// particular order.
    pub fn connections(&self) -> (all: Vec<(String, Option<String>)>)
        ensures
            lists_sessions(all@, self.sessions()),
    {
        clients_entries(&self.nvim_clients)
    }

    /// Looks up the session registered under `connection_id` and returns its
    /// target, `None` for a session that has been closed. Fails, as an
    /// invalid request, exactly when no session is registered under the id.
    pub fn get_connection(&self, connection_id: &str) -> (found: Result<Option<String>, ToolError>)
        ensures
            match found {
                Ok(target) => self.sessions().contains_key(connection_id@) && self.sessions()[connection_id@]
                    == target_view(target),
                Err(fault) => !self.sessions().contains_key(connection_id@) && fault.has(
                    ToolErrorKind::InvalidRequest,
                    ToolError::not_found_message(connection_id@),
                ),
            },
    {
        match clients_get(&self.nvim_clients, connection_id) {
            Some(target) => Ok(target),
            None => Err(ToolError::not_found(connection_id)),
        }
    }

    /// Registers the session to `target` once the transport has answered.
    ///
    /// The id is the one that `generate_shorter_connection_id` gives. Any
    /// session under that id is closed first. Where the transport succeeded,
    /// the new session takes the id and the id is returned; where it failed,
    /// the failure is reported and a session that was under the id stays
    /// registered as closed.
    pub fn connect_or_replace(&mut self, target: &str, transport: Result<(), NeovimError>) -> (outcome:
        Result<String, ToolError>)
        ensures
            old(self).wf() ==> final(self).wf(),
            final(self).path() == old(self).path(),
            final(self).mode() == old(self).mode(),
            match transport {
                Ok(_) => outcome matches Ok(id) && id@ == connection_id(old(self).sessions(), target@)
                    && final(self).sessions() == old(self).sessions().insert(id@, Some(target@)),
                Err(why) => outcome matches Err(fault) && fault.has(
                    ToolError::from_neovim_spec(why).0,
                    ToolError::from_neovim_spec(why).1,
                ) && final(self).sessions() == closed_under(
                    old(self).sessions(),
                    connection_id(old(self).sessions(), target@),
                ),
            },
    {
        let id = self.generate_shorter_connection_id(target);
        proof {
            lemma_registering_keeps_ids_matching(self.sessions(), target@);
        }
        match transport {
            Ok(_) => {
                clients_insert(&mut self.nvim_clients, id.clone(), Some(String::from_str(target)));
                Ok(id)
            },
            Err(why) => {
                if clients_get(&self.nvim_clients, id.as_str()).is_some() {
                    clients_insert(&mut self.nvim_clients, id, None);
                }
                Err(ToolError::from_neovim(why))
            },
        }
    }

    /// Connects to the configured target at startup, in locked mode only.
    ///
    /// Outside locked mode nothing happens and `None` is returned. In locked
    /// mode the socket path is the target and the call behaves as
    /// `connect_or_replace` does.
    pub fn initialize_auto_connection(&mut self, transport: Result<(), NeovimError>) -> (outcome:
        Result<Option<String>, ToolError>)
        ensures
            old(self).wf() ==> final(self).wf(),
            final(self).path() == old(self).path(),
            final(self).mode() == old(self).mode(),
            if old(self).mode() == SocketGlobMode::SingleFile {
                match transport {
                    Ok(_) => outcome matches Ok(Some(id)) && id@ == connection_id(
                        old(self).sessions(),
                        old(self).path(),
                    ) && final(self).sessions() == old(self).sessions().insert(
                        id@,
                        Some(old(self).path()),
                    ),
                    Err(why) => outcome matches Err(fault) && fault.has(
                        ToolError::from_neovim_spec(why).0,
                        ToolError::from_neovim_spec(why).1,
                    ) && final(self).sessions() == closed_under(
                        old(self).sessions(),
                        connection_id(old(self).sessions(), old(self).path()),
                    ),
                }
            } else {
                outcome matches Ok(None) && final(self).sessions() == old(self).sessions()
            },
    {
        match self.get_auto_connection_target() {
            Some(target) => match self.connect_or_replace(target.as_str(), transport) {
                Ok(id) => Ok(Some(id)),
                Err(fault) => Err(fault),
            },
            None => Ok(None),
        }
    }

    /// Removes the session registered under `connection_id` and closes it.
    ///
    /// Fails as an invalid request, and changes nothing, exactly when no
    /// session is registered under the id. Otherwise the entry is dropped:
    /// the target of an open session is returned, and a session that was
    /// already closed is reported as an internal error.
    pub fn remove(&mut self, connection_id: &str) -> (outcome: Result<String, ToolError>)
        ensures
            old(self).wf() ==> final(self).wf(),
            final(self).path() == old(self).path(),
            final(self).mode() == old(self).mode(),
            final(self).sessions() == old(self).sessions().remove(connection_id@),
            is_removal(old(self).sessions(), connection_id@, outcome),
    {
        proof {
            lemma_registering_keeps_ids_matching(self.sessions(), connection_id@);
        }
        match clients_remove(&mut self.nvim_clients, connection_id) {
            Some((_id, Some(target))) => Ok(target),
            Some((_id, None)) => Err(
                ToolError {
                    kind: ToolErrorKind::InternalError,
                    message: String::from_str("Failed to disconnect: ").concat(
                        NeovimError::NotConnected.message().as_str(),
                    ),
                },
            ),
            None => Err(ToolError::not_found(connection_id)),
        }
    }
}

/// Whether `outcome` is what removing the session under `id` gives: the
/// target of an open session; an internal error for a session that was
/// closed before; an invalid request where no session is registered under
/// the id.
pub open spec fn is_removal(
    sessions: Map<Seq<char>, Option<Seq<char>>>,
    id: Seq<char>,
    outcome: Result<String, ToolError>,
) -> bool {
    if !sessions.contains_key(id) {
        outcome matches Err(fault) && fault.has(
            ToolErrorKind::InvalidRequest,
            ToolError::not_found_message(id),
        )
    } else {
        match sessions[id] {
            Some(target) => outcome matches Ok(t) && t@ == target,
            None => outcome matches Err(fault) && fault.has(
                ToolErrorKind::InternalError,
                "Failed to disconnect: "@ + NeovimError::NotConnected.message_spec(),
            ),
        }
    }
}

/// The registry after the session under `id`, if there is one, has been
/// closed: the entry stays, without a target.
pub open spec fn closed_under(
    sessions: Map<Seq<char>, Option<Seq<char>>>,
    id: Seq<char>,
) -> Map<Seq<char>, Option<Seq<char>>> {
    if sessions.contains_key(id) {
        sessions.insert(id, None)
    } else {
        sessions
    }
}

/// The id generated for a target is usable for it, unless every window of
/// its hash is taken by other sessions; then it is the full hash.
pub proof fn lemma_connection_id_usable_or_full_hash(
    sessions: Map<Seq<char>, Option<Seq<char>>>,
    target: Seq<char>,
)
    ensures
        usable(sessions, connection_id(sessions, target), target) || connection_id(sessions, target)
            == b3sum_spec(target),
{
    lemma_first_usable_window(b3sum_spec(target), sessions, target, 0);
}

/// What the scan from `start` returns: a usable window at or after `start`
/// with no usable window between `start` and it, or the whole hash where no
/// window at or after `start` is usable.
pub proof fn lemma_first_usable_window(
    hash: Seq<char>,
    sessions: Map<Seq<char>, Option<Seq<char>>>,
    target: Seq<char>,
    start: int,
)
    requires
        0 <= start,
    ensures
        ({
            let found = first_usable_window(hash, sessions, target, start);
            ||| (exists|at: int|
                start <= at && at + ID_LENGTH <= hash.len() && found == #[trigger] window(hash, at)
                    && usable(sessions, found, target) && forall|before: int|
                    start <= before < at ==> !usable(
                        sessions,
                        #[trigger] window(hash, before),
                        target,
                    ))
            ||| (found == hash && forall|at: int|
                start <= at && at + ID_LENGTH <= hash.len() ==> !usable(
                    sessions,
                    #[trigger] window(hash, at),
                    target,
                ))
        }),
    decreases hash.len() - start,
{
    if start + ID_LENGTH > hash.len() {
    } else if usable(sessions, window(hash, start), target) {
        assert(first_usable_window(hash, sessions, target, start) == window(hash, start));
    } else {
        lemma_first_usable_window(hash, sessions, target, start + 1);
        let found = first_usable_window(hash, sessions, target, start);
        assert(found == first_usable_window(hash, sessions, target, start + 1));
        if exists|at: int|
            start + 1 <= at && at + ID_LENGTH <= hash.len() && found == #[trigger] window(hash, at)
                && usable(sessions, found, target) && forall|before: int|
                start + 1 <= before < at ==> !usable(
                    sessions,
                    #[trigger] window(hash, before),
                    target,
                ) {
            let at = choose|at: int|
                start + 1 <= at && at + ID_LENGTH <= hash.len() && found == #[trigger] window(
                    hash,
                    at,
                ) && usable(sessions, found, target) && forall|before: int|
                    start + 1 <= before < at ==> !usable(
                        sessions,
                        #[trigger] window(hash, before),
                        target,
                    );
            assert(start <= at && at + ID_LENGTH <= hash.len() && found == window(hash, at)
                && usable(sessions, found, target) && forall|before: int|
                start <= before < at ==> !usable(
                    sessions,
                    #[trigger] window(hash, before),
                    target,
                ));
        } else {
            assert forall|at: int| start <= at && at + ID_LENGTH <= hash.len() implies !usable(
                sessions,
                #[trigger] window(hash, at),
                target,
            ) by {
                if at > start {
                    assert(start + 1 <= at);
                }
            }
        }
    }
}

/// Connecting to the same target again yields the same id: once the
/// session is registered under the id generated for its target, generating
/// an id for that target gives this id again.
pub proof fn lemma_reconnect_keeps_id(
    sessions: Map<Seq<char>, Option<Seq<char>>>,
    target: Seq<char>,
)
    ensures
        connection_id(
            sessions.insert(connection_id(sessions, target), Some(target)),
            target,
        ) == connection_id(sessions, target),
{
    lemma_rescan_after_insert(b3sum_spec(target), sessions, target, 0);
}

/// The scan from `start` finds the same id again after that id has been
/// registered for the target.
pub proof fn lemma_rescan_after_insert(
    hash: Seq<char>,
    sessions: Map<Seq<char>, Option<Seq<char>>>,
    target: Seq<char>,
    start: int,
)
    requires
        0 <= start,
    ensures
        first_usable_window(
            hash,
            sessions.insert(first_usable_window(hash, sessions, target, start), Some(target)),
            target,
            start,
        ) == first_usable_window(hash, sessions, target, start),
    decreases hash.len() - start,
{
    let found = first_usable_window(hash, sessions, target, start);
    let after = sessions.insert(found, Some(target));
    if start + ID_LENGTH > hash.len() {
    } else if usable(sessions, window(hash, start), target) {
        assert(usable(after, window(hash, start), target));
    } else {
        lemma_rescan_after_insert(hash, sessions, target, start + 1);
        if window(hash, start) == found {
            assert(usable(after, window(hash, start), target));
        } else {
            assert(!usable(after, window(hash, start), target));
        }
    }
}

/// A live session's id is not handed to another target: while a session
/// to `other` is registered under `id`, the id generated for a different
/// target is not `id`, unless every window of that target's hash is taken
/// and its full hash is `id`.
pub proof fn lemma_live_id_not_reused(
    sessions: Map<Seq<char>, Option<Seq<char>>>,
    id: Seq<char>,
    other: Seq<char>,
    target: Seq<char>,
)
    requires
        sessions.contains_key(id),
        sessions[id] == Some(other),
        other != target,
    ensures
        connection_id(sessions, target) != id || id == b3sum_spec(target),
{
    lemma_connection_id_usable_or_full_hash(sessions, target);
}

/// Whether two hashes share a candidate id: a window of one is a window of
/// the other.
pub open spec fn share_a_window(first: Seq<char>, second: Seq<char>) -> bool {
    exists|i: int, j: int|
        0 <= i && i + ID_LENGTH <= first.len() && 0 <= j && j + ID_LENGTH <= second.len()
            && #[trigger] window(first, i) == #[trigger] window(second, j)
}

/// Targets whose hashes differ and share no window get different ids,
/// whatever sessions are registered when each id is generated.
pub proof fn lemma_ids_differ_without_collision(
    first_sessions: Map<Seq<char>, Option<Seq<char>>>,
    second_sessions: Map<Seq<char>, Option<Seq<char>>>,
    first: Seq<char>,
    second: Seq<char>,
)
    requires
        b3sum_spec(first) != b3sum_spec(second),
        !share_a_window(b3sum_spec(first), b3sum_spec(second)),
    ensures
        connection_id(first_sessions, first) != connection_id(second_sessions, second),
{
    let h1 = b3sum_spec(first);
    let h2 = b3sum_spec(second);
    let id1 = connection_id(first_sessions, first);
    let id2 = connection_id(second_sessions, second);
    lemma_first_usable_window(h1, first_sessions, first, 0);
    lemma_first_usable_window(h2, second_sessions, second, 0);
    lemma_id_is_window_or_hash(h1, first_sessions, first);
    lemma_id_is_window_or_hash(h2, second_sessions, second);
    if id1 == id2 {
        if is_window_of(h1, id1) && is_window_of(h2, id2) {
            let i = choose|i: int| 0 <= i && i + ID_LENGTH <= h1.len() && id1 == window(h1, i);
            let j = choose|j: int| 0 <= j && j + ID_LENGTH <= h2.len() && id2 == window(h2, j);
            assert(window(h1, i) == window(h2, j));
            assert(share_a_window(h1, h2));
        } else if is_window_of(h1, id1) {
            assert(id2 == h2);
            assert(h2.len() == ID_LENGTH);
            assert(window(h2, 0) =~= h2);
            let i = choose|i: int| 0 <= i && i + ID_LENGTH <= h1.len() && id1 == window(h1, i);
            assert(window(h1, i) == window(h2, 0));
            assert(share_a_window(h1, h2));
        } else if is_window_of(h2, id2) {
            assert(id1 == h1);
            assert(h1.len() == ID_LENGTH);
            assert(window(h1, 0) =~= h1);
            let j = choose|j: int| 0 <= j && j + ID_LENGTH <= h2.len() && id2 == window(h2, j);
            assert(window(h1, 0) == window(h2, j));
            assert(share_a_window(h1, h2));
        } else {
            assert(id1 == h1 && id2 == h2);
        }
    }
}

/// Whether `id` is one of the windows of `hash`.
pub open spec fn is_window_of(hash: Seq<char>, id: Seq<char>) -> bool {
    exists|at: int| 0 <= at && at + ID_LENGTH <= hash.len() && id == window(hash, at)
}

/// A generated id is a window of the target's hash or the hash itself.
pub proof fn lemma_id_is_window_or_hash(
    hash: Seq<char>,
    sessions: Map<Seq<char>, Option<Seq<char>>>,
    target: Seq<char>,
)
    ensures
        is_window_of(hash, first_usable_window(hash, sessions, target, 0))
            || first_usable_window(hash, sessions, target, 0) == hash,
{
    lemma_first_usable_window(hash, sessions, target, 0);
}

/// A generated id has exactly `ID_LENGTH` characters unless it is the full
/// hash.
pub proof fn lemma_id_length(sessions: Map<Seq<char>, Option<Seq<char>>>, target: Seq<char>)
    ensures
        connection_id(sessions, target).len() == ID_LENGTH || connection_id(sessions, target)
            == b3sum_spec(target),
{
    lemma_first_usable_window(b3sum_spec(target), sessions, target, 0);
}

/// The invariant of the registry holds of the empty registry and is kept
/// when the session to a target is registered under the id generated for
/// it, when the session under an id is closed, and when it is removed.
pub proof fn lemma_registering_keeps_ids_matching(
    sessions: Map<Seq<char>, Option<Seq<char>>>,
    target: Seq<char>,
)
    ensures
        ids_match_targets(no_sessions()),
        ids_match_targets(sessions) ==> ids_match_targets(
            sessions.insert(connection_id(sessions, target), Some(target)),
        ),
        forall|id: Seq<char>|
            ids_match_targets(sessions) ==> ids_match_targets(#[trigger] closed_under(sessions, id)),
        forall|id: Seq<char>|
            ids_match_targets(sessions) ==> ids_match_targets(#[trigger] sessions.remove(id)),
{
    lemma_id_is_window_or_hash(b3sum_spec(target), sessions, target);
    if ids_match_targets(sessions) {
        let id = connection_id(sessions, target);
        let after = sessions.insert(id, Some(target));
        assert forall|other: Seq<char>|
            #![trigger after.contains_key(other)]
            after.contains_key(other) && after[other].is_some() implies cut_from_hash(
            other,
            after[other]->0,
        ) by {
            if other != id {
                assert(sessions.contains_key(other));
            }
        }
        assert forall|closed: Seq<char>| ids_match_targets(#[trigger] closed_under(sessions, closed)) by {
            let after = closed_under(sessions, closed);
            assert forall|other: Seq<char>|
                #![trigger after.contains_key(other)]
                after.contains_key(other) && after[other].is_some() implies cut_from_hash(
                other,
                after[other]->0,
            ) by {
                assert(sessions.contains_key(other));
            }
        }
        assert forall|gone: Seq<char>| ids_match_targets(#[trigger] sessions.remove(gone)) by {
            let after = sessions.remove(gone);
            assert forall|other: Seq<char>|
                #![trigger after.contains_key(other)]
                after.contains_key(other) && after[other].is_some() implies cut_from_hash(
                other,
                after[other]->0,
            ) by {
                assert(sessions.contains_key(other));
            }
        }
    }
}

/// A generated id consists of lower-case hexadecimal digits.
pub proof fn lemma_connection_id_is_hex(
    sessions: Map<Seq<char>, Option<Seq<char>>>,
    target: Seq<char>,
)
    ensures
        forall|k: int|
            0 <= k < connection_id(sessions, target).len() ==> is_hex_char(
                #[trigger] connection_id(sessions, target)[k],
            ),
{
    let hash = b3sum_spec(target);
    let id = connection_id(sessions, target);
    lemma_hex_encode_shape(blake3_digest(encode_utf8(target)));
    lemma_id_is_window_or_hash(hash, sessions, target);
    if is_window_of(hash, id) {
        let at = choose|at: int| 0 <= at && at + ID_LENGTH <= hash.len() && id == window(hash, at);
        assert forall|k: int| 0 <= k < id.len() implies is_hex_char(#[trigger] id[k]) by {
            assert(id[k] == hash[at + k]);
        }
    }
}

/// Removing a session that is not registered fails as not found; removing
/// an open session succeeds, and removing it once more then fails as not
/// found.
pub proof fn lemma_remove_twice(
    sessions: Map<Seq<char>, Option<Seq<char>>>,
    id: Seq<char>,
    first: Result<String, ToolError>,
    second: Result<String, ToolError>,
)
    requires
        is_removal(sessions, id, first),
        is_removal(sessions.remove(id), id, second),
    ensures
        !sessions.contains_key(id) ==> first is Err && first->Err_0.has(
            ToolErrorKind::InvalidRequest,
            ToolError::not_found_message(id),
        ),
        sessions.contains_key(id) && sessions[id].is_some() ==> first is Ok,
        second is Err && second->Err_0.has(
            ToolErrorKind::InvalidRequest,
            ToolError::not_found_message(id),
        ),
{
}

} // verus!

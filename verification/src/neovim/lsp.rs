//! The language bridge: how a document reference is resolved, which
//! request each language-intelligence call sends into the editor, and what
//! the editor's reply means.

use vstd::prelude::*;
use vstd::string::*;
use crate::config::{join_path, join_path_spec};
use crate::neovim::client::{
    api_error, envelope_reply_outcome, is_api_error, is_not_connected,
    make_text_document_identifier_from_path, open_envelope_reply, open_plain_reply,
    plain_reply_outcome, BufferInfo, CodeAction, CodeActionContext, CodeActionKind,
    CodeActionParams, CodeActionResult, Diagnostic, DocumentFormattingParams,
    DocumentIdentifier, DocumentLookup, DocumentRangeFormattingParams, DocumentSymbolParams,
    DocumentSymbolResult, EditorReply, FormattingOptions, HoverResult, LocateResult, Location,
    LspClient, LSPDiagnostic, NeovimClient, NvimExecuteLuaResult, Position,
    PrepareRenameResult, Range, ReferenceContext, ReferenceParams, RenameParams,
    TextDocumentIdentifier, TextDocumentPositionParams, TextEdit, WorkspaceEdit,
    WorkspaceSymbolParams, WorkspaceSymbolResult,
};
use crate::neovim::error::NeovimError;
use crate::text::{is_blank, is_prefix, trim_spec};

verus! {

/// Whether `outcome` is a document identifier made from the path `path`: a
/// `file://` URI without a version, or an API failure that names the path.
pub open spec fn is_path_document(
    path: Seq<char>,
    outcome: Result<TextDocumentIdentifier, NeovimError>,
) -> bool {
    match outcome {
        Ok(doc) => is_prefix("file://"@, doc.uri@) && doc.version.is_none(),
        Err(e) => e matches NeovimError::Api(msg) && is_prefix(
            "Failed to resolve path "@ + path + ": "@,
            msg@,
        ),
    }
}

/// Whether `outcome` is what the editor's answer on a buffer's document
/// stands for.
pub open spec fn is_buffer_document(
    connected: bool,
    reply: EditorReply<TextDocumentIdentifier>,
    outcome: Result<TextDocumentIdentifier, NeovimError>,
) -> bool {
    if connected {
        plain_reply_outcome(
            reply,
            "Failed to make text document params: "@,
            "Failed to parse text document params: "@,
            outcome,
        )
    } else {
        is_not_connected(outcome)
    }
}

/// Whether `outcome` is what the editor's answer on its working directory
/// stands for: the directory, or an API failure where the call failed or
/// did not return text.
pub open spec fn is_project_root(
    connected: bool,
    reply: EditorReply<String>,
    outcome: Result<String, NeovimError>,
) -> bool {
    if connected {
        match reply {
            EditorReply::Failed(why) => is_api_error(
                outcome,
                "Failed to get working directory: "@,
                why@,
            ),
            EditorReply::Malformed(_) => is_api_error(
                outcome,
                "Invalid working directory format"@,
                Seq::empty(),
            ),
            EditorReply::Decoded(cwd) => outcome == Ok::<String, NeovimError>(cwd),
        }
    } else {
        is_not_connected(outcome)
    }
}

impl NeovimClient {
    /// Whether a session is open.
    pub open spec fn connected(&self) -> bool {
        self.target_spec().is_some()
    }

    /// The wire-level identifier of a buffer's document, from the editor's
    /// answer.
    pub fn lsp_make_text_document_params(
        &self,
        buffer_id: u64,
        reply: EditorReply<TextDocumentIdentifier>,
    ) -> (outcome: Result<TextDocumentIdentifier, NeovimError>)
        ensures
            is_buffer_document(self.connected(), reply, outcome),
    {
        match self.require_session() {
            Err(e) => Err(e),
            Ok(_) => open_plain_reply(
                reply,
                "Failed to make text document params: ",
                "Failed to parse text document params: ",
            ),
        }
    }

    /// The project root, from the editor's answer on its working directory.
    pub fn get_project_root(&self, reply: EditorReply<String>) -> (outcome: Result<
        String,
        NeovimError,
    >)
        ensures
            is_project_root(self.connected(), reply, outcome),
    {
        match self.require_session() {
            Err(e) => Err(e),
            Ok(_) => match reply {
                EditorReply::Failed(why) => api_error(
                    "Failed to get working directory: ",
                    why.as_str(),
                ),
                EditorReply::Malformed(_) => {
                    let outcome = api_error("Invalid working directory format", "");
                    proof {
                        reveal_strlit("");
                        assert(""@ =~= Seq::<char>::empty());
                    }
                    outcome
                },
                EditorReply::Decoded(cwd) => Ok(cwd),
            },
        }
    }

    /// Resolves a document reference to the identifier that the language
    /// client expects.
    ///
    /// A buffer is resolved by the editor's answer. A project-relative
    /// path is joined to the editor's working directory and then treated as
    /// an absolute path. An absolute path is canonicalized on the
    /// filesystem of this process and becomes a `file://` URI without a
    /// version.
    pub fn resolve_text_document_identifier(&self, lookup: DocumentLookup) -> (outcome: Result<
        TextDocumentIdentifier,
        NeovimError,
    >)
        ensures
            match lookup {
                DocumentLookup::Buffer { buffer_id, reply } => is_buffer_document(
                    self.connected(),
                    reply,
                    outcome,
                ),
                DocumentLookup::ProjectRelative { path, working_directory } => {
                    if self.connected() && working_directory is Decoded {
                        is_path_document(
                            join_path_spec(working_directory->Decoded_0@, path@),
                            outcome,
                        )
                    } else {
                        outcome is Err && is_project_root(
                            self.connected(),
                            working_directory,
                            Err::<String, NeovimError>(outcome->Err_0),
                        )
                    }
                },
                DocumentLookup::Absolute { path } => is_path_document(path@, outcome),
            },
    {
        match lookup {
            DocumentLookup::Buffer { buffer_id, reply } => self.lsp_make_text_document_params(
                buffer_id,
                reply,
            ),
            DocumentLookup::ProjectRelative { path, working_directory } => {
                match self.get_project_root(working_directory) {
                    Ok(root) => {
                        let absolute = join_path(root.as_str(), path.as_str());
                        make_text_document_identifier_from_path(absolute.as_str())
                    },
                    Err(e) => Err(e),
                }
            },
            DocumentLookup::Absolute { path } => make_text_document_identifier_from_path(
                path.as_str(),
            ),
        }
    }
}

/// The in-editor scripts, by what they do.
#[derive(Debug, Clone, Copy, PartialEq, Eq, Structural)]
pub enum Script {
    CodeActions,
    Hover,
    DocumentSymbols,
    WorkspaceSymbols,
    References,
    Definition,
    TypeDefinition,
    Implementation,
    Declaration,
    ResolveCodeAction,
    ApplyWorkspaceEdit,
    PrepareRename,
    Rename,
    Formatting,
    RangeFormatting,
}

/// The time, in milliseconds, that the editor waits for a language server.
pub const REQUEST_TIMEOUT_MS: u64 = 1000;

/// The time, in milliseconds, that the editor waits for a code action to be
/// resolved.
pub const RESOLVE_TIMEOUT_MS: u64 = 5000;

/// One call of an in-editor script: the positional arguments that the
/// script receives, before the parameters are serialized.
#[derive(Debug, Clone)]
pub struct LspRequest<P> {
    /// The script to run.
    pub script: Script,
    /// The name of the language client that serves the request.
    pub client_name: String,
    /// The parameters, in the shape of the protocol.
    pub params: P,
    /// The time budget in milliseconds, where the script takes one.
    pub timeout_ms: Option<u64>,
    /// The buffer that scopes the request, where the script takes one.
    pub buffer: Option<u64>,
}

/// Whether `outcome` is the request with the given arguments, for a client
/// with a session, and the refusal of a client without one.
pub open spec fn is_request<P>(
    outcome: Result<LspRequest<P>, NeovimError>,
    connected: bool,
    script: Script,
    client_name: Seq<char>,
    params: P,
    timeout_ms: Option<u64>,
    buffer: Option<u64>,
) -> bool {
    if connected {
        outcome matches Ok(request) && request.script == script && request.client_name@
            == client_name && request.params == params && request.timeout_ms == timeout_ms
            && request.buffer == buffer
    } else {
        is_not_connected(outcome)
    }
}

/// The language server's form of each diagnostic that carries one, in
/// order.
pub open spec fn lsp_diagnostics(diagnostics: Seq<Diagnostic>) -> Seq<LSPDiagnostic>
    decreases diagnostics.len(),
{
    if diagnostics.len() == 0 {
        Seq::empty()
    } else {
        match diagnostics.last().user_data {
            Some(user_data) => lsp_diagnostics(diagnostics.drop_last()).push(user_data.lsp),
            None => lsp_diagnostics(diagnostics.drop_last()),
        }
    }
}

/// Picks the language server's form of each diagnostic that carries one.
pub fn collect_lsp_diagnostics(diagnostics: Vec<Diagnostic>) -> (picked: Vec<LSPDiagnostic>)
    ensures
        picked@ == lsp_diagnostics(diagnostics@),
{
    let ghost all = diagnostics@;
    let mut remaining = diagnostics;
    // Each diagnostic is moved out, not copied: first from the end, which
    // reverses the order, then from the end of what was picked, which
    // restores it.
    let mut backwards: Vec<LSPDiagnostic> = Vec::new();
    while remaining.len() > 0
        invariant
            lsp_diagnostics(all) == lsp_diagnostics(remaining@) + reversed(backwards@),
        decreases remaining@.len(),
    {
        let ghost before = remaining@;
        let ghost tail = reversed(backwards@);
        let last = remaining.pop().unwrap();
        assert(remaining@ =~= before.drop_last());
        match last.user_data {
            Some(user_data) => {
                backwards.push(user_data.lsp);
                assert(reversed(backwards@) =~= seq![user_data.lsp] + tail) by {
                    lemma_reversed_push(backwards@.drop_last(), user_data.lsp);
                    assert(backwards@.drop_last().push(user_data.lsp) =~= backwards@);
                }
                assert(lsp_diagnostics(before) + tail =~= lsp_diagnostics(remaining@) + (
                seq![user_data.lsp] + tail));
            },
            None => {},
        }
    }
    assert(lsp_diagnostics(remaining@) =~= Seq::<LSPDiagnostic>::empty());
    let mut picked: Vec<LSPDiagnostic> = Vec::new();
    while backwards.len() > 0
        invariant
            lsp_diagnostics(all) == picked@ + reversed(backwards@),
        decreases backwards@.len(),
    {
        let ghost before = backwards@;
        let item = backwards.pop().unwrap();
        assert(backwards@ =~= before.drop_last());
        assert(reversed(before) =~= seq![item] + reversed(backwards@)) by {
            lemma_reversed_push(backwards@, item);
            assert(backwards@.push(item) =~= before);
        }
        picked.push(item);
        assert(picked@ + reversed(backwards@) =~= picked@.drop_last() + (seq![item] + reversed(
            backwards@,
        )));
    }
    assert(reversed(backwards@) =~= Seq::<LSPDiagnostic>::empty());
    assert(picked@ + Seq::<LSPDiagnostic>::empty() =~= picked@);
    picked
}

/// A sequence back to front.
pub open spec fn reversed<T>(s: Seq<T>) -> Seq<T> {
    Seq::new(s.len(), |i: int| s[s.len() - 1 - i])
}

/// Reversing a sequence with one more element at its end puts that element
/// first.
pub proof fn lemma_reversed_push<T>(s: Seq<T>, last: T)
    ensures
        reversed(s.push(last)) =~= seq![last] + reversed(s),
{
}

/// What the editor's reply to a hover request means: the content of the
/// envelope, or an API failure where the call failed or the reply could not
/// be decoded.
pub fn lsp_hover_reply(
    reply: EditorReply<NvimExecuteLuaResult<HoverResult>>,
) -> (outcome: Result<HoverResult, NeovimError>)
    ensures
        envelope_reply_outcome(
            reply,
            "Failed to get LSP hover: "@,
            "Failed to parse hover result: "@,
            outcome,
        ),
{
    open_envelope_reply(
        reply,
        "Failed to get LSP hover: ",
        "Failed to parse hover result: ",
    )
}

/// What the editor's reply to a document symbols request means: the content
/// of the envelope, or an API failure where the call failed or the reply
/// could not be decoded.
pub fn lsp_document_symbols_reply(
    reply: EditorReply<NvimExecuteLuaResult<Option<DocumentSymbolResult>>>,
) -> (outcome: Result<Option<DocumentSymbolResult>, NeovimError>)
    ensures
        envelope_reply_outcome(
            reply,
            "Failed to get document symbols: "@,
            "Failed to parse document symbols result: "@,
            outcome,
        ),
{
    open_envelope_reply(
        reply,
        "Failed to get document symbols: ",
        "Failed to parse document symbols result: ",
    )
}

/// What the editor's reply to a workspace symbols request means: the content
/// of the envelope, or an API failure where the call failed or the reply
/// could not be decoded.
pub fn lsp_workspace_symbols_reply(
    reply: EditorReply<NvimExecuteLuaResult<WorkspaceSymbolResult>>,
) -> (outcome: Result<WorkspaceSymbolResult, NeovimError>)
    ensures
        envelope_reply_outcome(
            reply,
            "Failed to get workspace symbols: "@,
            "Failed to parse workspace symbols result: "@,
            outcome,
        ),
{
    open_envelope_reply(
        reply,
        "Failed to get workspace symbols: ",
        "Failed to parse workspace symbols result: ",
    )
}

/// What the editor's reply to a definition request means: the content of the
/// envelope, or an API failure where the call failed or the reply could not
/// be decoded.
pub fn lsp_definition_reply(
    reply: EditorReply<NvimExecuteLuaResult<Option<LocateResult>>>,
) -> (outcome: Result<Option<LocateResult>, NeovimError>)
    ensures
        envelope_reply_outcome(
            reply,
            "Failed to get LSP definition: "@,
            "Failed to parse definition result: "@,
            outcome,
        ),
{
    open_envelope_reply(
        reply,
        "Failed to get LSP definition: ",
        "Failed to parse definition result: ",
    )
}

/// What the editor's reply to a type definition request means: the content
/// of the envelope, or an API failure where the call failed or the reply
/// could not be decoded.
pub fn lsp_type_definition_reply(
    reply: EditorReply<NvimExecuteLuaResult<Option<LocateResult>>>,
) -> (outcome: Result<Option<LocateResult>, NeovimError>)
    ensures
        envelope_reply_outcome(
            reply,
            "Failed to get LSP type definition: "@,
            "Failed to parse type definition result: "@,
            outcome,
        ),
{
    open_envelope_reply(
        reply,
        "Failed to get LSP type definition: ",
        "Failed to parse type definition result: ",
    )
}

/// What the editor's reply to an implementation request means: the content
/// of the envelope, or an API failure where the call failed or the reply
/// could not be decoded.
pub fn lsp_implementation_reply(
    reply: EditorReply<NvimExecuteLuaResult<Option<LocateResult>>>,
) -> (outcome: Result<Option<LocateResult>, NeovimError>)
    ensures
        envelope_reply_outcome(
            reply,
            "Failed to get LSP implementation: "@,
            "Failed to parse implementation result: "@,
            outcome,
        ),
{
    open_envelope_reply(
        reply,
        "Failed to get LSP implementation: ",
        "Failed to parse implementation result: ",
    )
}

/// What the editor's reply to a declaration request means: the content of
/// the envelope, or an API failure where the call failed or the reply could
/// not be decoded.
pub fn lsp_declaration_reply(
    reply: EditorReply<NvimExecuteLuaResult<Option<LocateResult>>>,
) -> (outcome: Result<Option<LocateResult>, NeovimError>)
    ensures
        envelope_reply_outcome(
            reply,
            "Failed to get LSP declaration: "@,
            "Failed to parse declaration result: "@,
            outcome,
        ),
{
    open_envelope_reply(
        reply,
        "Failed to get LSP declaration: ",
        "Failed to parse declaration result: ",
    )
}

/// What the editor's reply to a request to resolve a code action means: the
/// content of the envelope, or an API failure where the call failed or the
/// reply could not be decoded.
pub fn lsp_resolve_code_action_reply(
    reply: EditorReply<NvimExecuteLuaResult<CodeAction>>,
) -> (outcome: Result<CodeAction, NeovimError>)
    ensures
        envelope_reply_outcome(
            reply,
            "Failed to resolve LSP code action: "@,
            "Failed to parse resolve code action result: "@,
            outcome,
        ),
{
    open_envelope_reply(
        reply,
        "Failed to resolve LSP code action: ",
        "Failed to parse resolve code action result: ",
    )
}

/// What the editor's reply to a request to apply a workspace edit means: the
/// content of the envelope, or an API failure where the call failed or the
/// reply could not be decoded.
pub fn lsp_apply_workspace_edit_reply(
    reply: EditorReply<NvimExecuteLuaResult<()>>,
) -> (outcome: Result<(), NeovimError>)
    ensures
        envelope_reply_outcome(
            reply,
            "Failed to apply LSP workspace edit: "@,
            "Failed to parse apply workspace edit result: "@,
            outcome,
        ),
{
    open_envelope_reply(
        reply,
        "Failed to apply LSP workspace edit: ",
        "Failed to parse apply workspace edit result: ",
    )
}

/// What the editor's reply to a request to prepare a rename means: the
/// content of the envelope, or an API failure where the call failed or the
/// reply could not be decoded.
pub fn lsp_prepare_rename_reply(
    reply: EditorReply<NvimExecuteLuaResult<Option<PrepareRenameResult>>>,
) -> (outcome: Result<Option<PrepareRenameResult>, NeovimError>)
    ensures
        envelope_reply_outcome(
            reply,
            "Failed to prepare LSP rename: "@,
            "Failed to parse prepare rename result: "@,
            outcome,
        ),
{
    open_envelope_reply(
        reply,
        "Failed to prepare LSP rename: ",
        "Failed to parse prepare rename result: ",
    )
}

/// What the editor's reply to a rename request means: the content of the
/// envelope, or an API failure where the call failed or the reply could not
/// be decoded.
pub fn lsp_rename_reply(
    reply: EditorReply<NvimExecuteLuaResult<Option<WorkspaceEdit>>>,
) -> (outcome: Result<Option<WorkspaceEdit>, NeovimError>)
    ensures
        envelope_reply_outcome(
            reply,
            "Failed to get LSP rename: "@,
            "Failed to parse rename result: "@,
            outcome,
        ),
{
    open_envelope_reply(
        reply,
        "Failed to get LSP rename: ",
        "Failed to parse rename result: ",
    )
}

/// What the editor's reply to a formatting request means: the content of the
/// envelope, or an API failure where the call failed or the reply could not
/// be decoded.
pub fn lsp_formatting_reply(
    reply: EditorReply<NvimExecuteLuaResult<Option<Vec<TextEdit>>>>,
) -> (outcome: Result<Option<Vec<TextEdit>>, NeovimError>)
    ensures
        envelope_reply_outcome(
            reply,
            "Failed to get LSP formatting: "@,
            "Failed to parse formatting result: "@,
            outcome,
        ),
{
    open_envelope_reply(
        reply,
        "Failed to get LSP formatting: ",
        "Failed to parse formatting result: ",
    )
}

/// What the editor's reply to a range formatting request means: the content
/// of the envelope, or an API failure where the call failed or the reply
/// could not be decoded.
pub fn lsp_range_formatting_reply(
    reply: EditorReply<NvimExecuteLuaResult<Option<Vec<TextEdit>>>>,
) -> (outcome: Result<Option<Vec<TextEdit>>, NeovimError>)
    ensures
        envelope_reply_outcome(
            reply,
            "Failed to get LSP range formatting: "@,
            "Failed to parse range formatting result: "@,
            outcome,
        ),
{
    open_envelope_reply(
        reply,
        "Failed to get LSP range formatting: ",
        "Failed to parse range formatting result: ",
    )
}

/// What the editor's reply to a query for diagnostics means: the decoded
/// list, or an API failure where the call failed or the reply could not be
/// decoded.
pub fn diagnostics_reply(
    reply: EditorReply<Vec<Diagnostic>>,
) -> (outcome: Result<Vec<Diagnostic>, NeovimError>)
    ensures
        plain_reply_outcome(
            reply,
            "Failed to get diagnostics: "@,
            "Failed to parse diagnostics: "@,
            outcome,
        ),
{
    open_plain_reply(
        reply,
        "Failed to get diagnostics: ",
        "Failed to parse diagnostics: ",
    )
}

/// What the editor's reply to a query for the language clients means: the
/// decoded list, or an API failure where the call failed or the reply could
/// not be decoded.
pub fn lsp_get_clients_reply(
    reply: EditorReply<Vec<LspClient>>,
) -> (outcome: Result<Vec<LspClient>, NeovimError>)
    ensures
        plain_reply_outcome(
            reply,
            "Failed to get LSP clients: "@,
            "Failed to parse clients: "@,
            outcome,
        ),
{
    open_plain_reply(
        reply,
        "Failed to get LSP clients: ",
        "Failed to parse clients: ",
    )
}

/// What the editor's reply to a code actions request means: the actions
/// that were found, or an API failure where the call failed or the reply
/// could not be decoded.
pub fn lsp_get_code_actions_reply(reply: EditorReply<CodeActionResult>) -> (outcome: Result<
    Vec<CodeAction>,
    NeovimError,
>)
    ensures
        match reply {
            EditorReply::Failed(why) => is_api_error(
                outcome,
                "Failed to get LSP code actions: "@,
                why@,
            ),
            EditorReply::Malformed(why) => is_api_error(
                outcome,
                "Failed to parse code actions: "@,
                why@,
            ),
            EditorReply::Decoded(actions) => outcome == Ok::<Vec<CodeAction>, NeovimError>(
                actions.result,
            ),
        },
{
    match reply {
        EditorReply::Failed(why) => api_error("Failed to get LSP code actions: ", why.as_str()),
        EditorReply::Malformed(why) => api_error("Failed to parse code actions: ", why.as_str()),
        EditorReply::Decoded(actions) => Ok(actions.result),
    }
}

/// What the editor's reply to a references request means: the locations
/// that were found, none where the server answered with nothing, or the
/// failure as for the other requests.
pub fn lsp_references_reply(reply: EditorReply<NvimExecuteLuaResult<Option<Vec<Location>>>>) -> (outcome:
    Result<Vec<Location>, NeovimError>)
    ensures
        match reply {
            EditorReply::Failed(why) => is_api_error(
                outcome,
                "Failed to get LSP references: "@,
                why@,
            ),
            EditorReply::Malformed(why) => is_api_error(
                outcome,
                "Failed to parse references result: "@,
                why@,
            ),
            EditorReply::Decoded(envelope) => match envelope.into_result_spec() {
                Ok(Some(locations)) => outcome == Ok::<Vec<Location>, NeovimError>(locations),
                Ok(None) => outcome matches Ok(locations) && locations@.len() == 0,
                Err(e) => outcome == Err::<Vec<Location>, NeovimError>(e),
            },
        },
{
    match open_envelope_reply(
        reply,
        "Failed to get LSP references: ",
        "Failed to parse references result: ",
    ) {
        Ok(Some(locations)) => Ok(locations),
        Ok(None) => Ok(Vec::new()),
        Err(e) => Err(e),
    }
}

/// The empty range at the start of a document.
pub open spec fn start_of_document() -> Range {
    Range { start: Position { line: 0, character: 0 }, end: Position { line: 0, character: 0 } }
}

/// What a query for diagnostics covers.
#[derive(Debug, Clone, Copy, PartialEq, Eq, Structural)]
pub enum DiagnosticsScope {
    /// One buffer.
    Buffer(u64),
    /// Every buffer of the workspace.
    Workspace,
}

/// Whether `outcome` is what running a piece of Lua for a caller gave: the
/// value, or an API failure with the reason.
pub open spec fn lua_outcome<V>(reply: Result<V, String>, outcome: Result<V, NeovimError>) -> bool {
    match reply {
        Ok(value) => outcome == Ok::<V, NeovimError>(value),
        Err(why) => is_api_error(outcome, "Lua execution failed: "@, why@),
    }
}

impl NeovimClient {
    /// The request with the given arguments, refused where no session is
    /// open.
    fn request<P>(
        &self,
        script: Script,
        client_name: &str,
        params: P,
        timeout_ms: Option<u64>,
        buffer: Option<u64>,
    ) -> (outcome: Result<LspRequest<P>, NeovimError>)
        ensures
            is_request(
                outcome,
                self.connected(),
                script,
                client_name@,
                params,
                timeout_ms,
                buffer,
            ),
    {
        match self.require_session() {
            Err(e) => Err(e),
            Ok(_) => Ok(
                LspRequest {
                    script,
                    client_name: String::from_str(client_name),
                    params,
                    timeout_ms,
                    buffer,
                },
            ),
        }
    }

    /// Admits a piece of Lua that a caller wants to run: code that is empty
    /// or blank is refused as an API failure, and so is any code while no
    /// session is open, as a connection failure.
    pub fn execute_lua(&self, code: &str) -> (outcome: Result<(), NeovimError>)
        ensures
            if trim_spec(code@).len() == 0 {
                is_api_error(outcome, "Lua code cannot be empty"@, Seq::empty())
            } else if self.connected() {
                outcome.is_ok()
            } else {
                is_not_connected(outcome)
            },
    {
        if is_blank(code) {
            let outcome = api_error("Lua code cannot be empty", "");
            proof {
                reveal_strlit("");
                assert(""@ =~= Seq::<char>::empty());
            }
            outcome
        } else {
            self.require_session()
        }
    }

    /// What running a caller's Lua gave.
    pub fn execute_lua_reply<V>(reply: Result<V, String>) -> (outcome: Result<V, NeovimError>)
        ensures
            lua_outcome(reply, outcome),
    {
        match reply {
            Ok(value) => Ok(value),
            Err(why) => api_error("Lua execution failed: ", why.as_str()),
        }
    }

    /// What registering the change hooks in the editor gave: success, or an
    /// API failure with the reason.
    pub fn setup_diagnostics_changed_autocmd(reply: Result<(), String>) -> (outcome: Result<
        (),
        NeovimError,
    >)
        ensures
            match reply {
                Ok(_) => outcome.is_ok(),
                Err(why) => is_api_error(
                    outcome,
                    "Failed to set up diagnostics changed autocmd: "@,
                    why@,
                ),
            },
    {
        match reply {
            Ok(_) => Ok(()),
            Err(why) => api_error(
                "Failed to set up diagnostics changed autocmd: ",
                why.as_str(),
            ),
        }
    }

    /// What listing the buffers gave. The listing runs as a piece of Lua,
    /// so a failure of that run is reported with its own message inside;
    /// a listing that cannot be decoded is an API failure too.
    pub fn get_buffers_reply(reply: Result<Result<Vec<BufferInfo>, String>, NeovimError>) -> (outcome:
        Result<Vec<BufferInfo>, NeovimError>)
        ensures
            match reply {
                Ok(Ok(buffers)) => outcome == Ok::<Vec<BufferInfo>, NeovimError>(buffers),
                Ok(Err(why)) => is_api_error(outcome, "Failed to parse buffers: "@, why@),
                Err(e) => is_api_error(outcome, "Failed to get buffer info: "@, e.message_spec()),
            },
    {
        match reply {
            Ok(Ok(buffers)) => Ok(buffers),
            Ok(Err(why)) => api_error("Failed to parse buffers: ", why.as_str()),
            Err(e) => api_error("Failed to get buffer info: ", e.message().as_str()),
        }
    }

    /// Admits the query for the attached language clients: it needs an open
    /// session.
    pub fn lsp_get_clients(&self) -> (outcome: Result<(), NeovimError>)
        ensures
            if self.connected() {
                outcome.is_ok()
            } else {
                is_not_connected(outcome)
            },
    {
        self.require_session()
    }

    /// The query for the diagnostics of everything or of one buffer.
    pub fn get_diagnostics(&self, buffer_id: Option<u64>) -> (outcome: Result<
        DiagnosticsScope,
        NeovimError,
    >)
        ensures
            if self.connected() {
                outcome == Ok::<DiagnosticsScope, NeovimError>(
                    match buffer_id {
                        Some(id) => DiagnosticsScope::Buffer(id),
                        None => DiagnosticsScope::Workspace,
                    },
                )
            } else {
                is_not_connected(outcome)
            },
    {
        match self.require_session() {
            Err(e) => Err(e),
            Ok(_) => Ok(
                match buffer_id {
                    Some(id) => DiagnosticsScope::Buffer(id),
                    None => DiagnosticsScope::Workspace,
                },
            ),
        }
    }

    /// The query for the diagnostics of one buffer.
    pub fn get_buffer_diagnostics(&self, buffer_id: u64) -> (outcome: Result<
        DiagnosticsScope,
        NeovimError,
    >)
        ensures
            if self.connected() {
                outcome == Ok::<DiagnosticsScope, NeovimError>(DiagnosticsScope::Buffer(buffer_id))
            } else {
                is_not_connected(outcome)
            },
    {
        self.get_diagnostics(Some(buffer_id))
    }

    /// The query for the diagnostics of the whole workspace.
    pub fn get_workspace_diagnostics(&self) -> (outcome: Result<DiagnosticsScope, NeovimError>)
        ensures
            if self.connected() {
                outcome == Ok::<DiagnosticsScope, NeovimError>(DiagnosticsScope::Workspace)
            } else {
                is_not_connected(outcome)
            },
    {
        self.get_diagnostics(None)
    }

    /// The request for the workspace symbols that match `query`; it is not
    /// scoped to a buffer.
    pub fn lsp_workspace_symbols(&self, client_name: &str, query: &str) -> (outcome: Result<
        LspRequest<WorkspaceSymbolParams>,
        NeovimError,
    >)
        ensures
            if self.connected() {
                outcome matches Ok(request) && request.script == Script::WorkspaceSymbols
                    && request.client_name@ == client_name@ && request.params.query@ == query@
                    && request.timeout_ms == Some(REQUEST_TIMEOUT_MS) && request.buffer.is_none()
            } else {
                is_not_connected(outcome)
            },
    {
        self.request(
            Script::WorkspaceSymbols,
            client_name,
            WorkspaceSymbolParams { query: String::from_str(query) },
            Some(REQUEST_TIMEOUT_MS),
            None,
        )
    }

    /// The rename request for the symbol at a position, scoped to the
    /// document's buffer.
    pub fn lsp_rename(
        &self,
        client_name: &str,
        document: &DocumentIdentifier,
        text_document: TextDocumentIdentifier,
        position: Position,
        new_name: &str,
    ) -> (outcome: Result<LspRequest<RenameParams>, NeovimError>)
        ensures
            if self.connected() {
                outcome matches Ok(request) && request.script == Script::Rename
                    && request.client_name@ == client_name@ && request.params.text_document
                    == text_document && request.params.position == position
                    && request.params.new_name@ == new_name@ && request.timeout_ms == Some(
                    REQUEST_TIMEOUT_MS,
                ) && request.buffer == Some(document.buffer_hint_spec())
            } else {
                is_not_connected(outcome)
            },
    {
        self.request(
            Script::Rename,
            client_name,
            RenameParams { text_document, position, new_name: String::from_str(new_name) },
            Some(REQUEST_TIMEOUT_MS),
            Some(document.buffer_hint()),
        )
    }

    /// Which buffer's diagnostics a code actions request on `document`
    /// carries: those of the buffer for a buffer reference, none for a path.
    pub fn code_action_diagnostics_scope(document: &DocumentIdentifier) -> (buffer: Option<u64>)
        ensures
            buffer == match *document {
                DocumentIdentifier::BufferId(id) => Some(id),
                _ => None,
            },
    {
        match document {
            DocumentIdentifier::BufferId(id) => Some(*id),
            _ => None,
        }
    }

    /// The request for the code actions on a range of a document.
    ///
    /// For a buffer reference, `diagnostics` is what the query for the
    /// buffer's diagnostics gave: its failure fails the request, and the
    /// language server's form of each diagnostic goes into the context.
    /// For a path the context carries no diagnostics. The request is
    /// scoped to the document's buffer.
    pub fn lsp_get_code_actions(
        &self,
        client_name: &str,
        document: &DocumentIdentifier,
        text_document: TextDocumentIdentifier,
        range: Range,
        diagnostics: Result<Vec<Diagnostic>, NeovimError>,
    ) -> (outcome: Result<LspRequest<CodeActionParams>, NeovimError>)
        ensures
            if document is BufferId && diagnostics is Err {
                is_api_error(
                    outcome,
                    "Failed to get diagnostics: "@,
                    diagnostics->Err_0.message_spec(),
                )
            } else if self.connected() {
                outcome matches Ok(request) && request.script == Script::CodeActions
                    && request.client_name@ == client_name@ && request.params.text_document
                    == text_document && request.params.range == range
                    && request.params.context.only.is_none()
                    && request.params.context.trigger_kind.is_none()
                    && request.params.context.diagnostics@ == (if document is BufferId {
                    lsp_diagnostics(diagnostics->Ok_0@)
                } else {
                    Seq::empty()
                }) && request.timeout_ms == Some(REQUEST_TIMEOUT_MS) && request.buffer == Some(
                    document.buffer_hint_spec(),
                )
            } else {
                is_not_connected(outcome)
            },
    {
        let known: Vec<LSPDiagnostic> = match document {
            DocumentIdentifier::BufferId(_) => match diagnostics {
                Ok(found) => collect_lsp_diagnostics(found),
                Err(e) => {
                    return api_error("Failed to get diagnostics: ", e.message().as_str());
                },
            },
            _ => Vec::new(),
        };
        self.request(
            Script::CodeActions,
            client_name,
            CodeActionParams {
                text_document,
                range,
                context: CodeActionContext { only: None, diagnostics: known, trigger_kind: None },
            },
            Some(REQUEST_TIMEOUT_MS),
            Some(document.buffer_hint()),
        )
    }

    /// The request for the code actions that organize the imports of a
    /// document: a code actions request that asks for this one kind and
    /// carries no diagnostics. It addresses the document as a whole, so its
    /// range is the empty one at the start of the document.
    pub fn lsp_get_organize_imports_actions(
        &self,
        client_name: &str,
        document: &DocumentIdentifier,
        text_document: TextDocumentIdentifier,
    ) -> (outcome: Result<LspRequest<CodeActionParams>, NeovimError>)
        ensures
            if self.connected() {
                outcome matches Ok(request) && request.script == Script::CodeActions
                    && request.client_name@ == client_name@ && request.params.text_document
                    == text_document && request.params.range == start_of_document()
                    && request.params.context.only.is_some()
                    && request.params.context.only->Some_0@
                    == seq![CodeActionKind::SourceOrganizeImports]
                    && request.params.context.trigger_kind.is_none()
                    && request.params.context.diagnostics@.len() == 0 && request.timeout_ms
                    == Some(REQUEST_TIMEOUT_MS) && request.buffer == Some(
                    document.buffer_hint_spec(),
                )
            } else {
                is_not_connected(outcome)
            },
    {
        let mut kinds: Vec<CodeActionKind> = Vec::new();
        kinds.push(CodeActionKind::SourceOrganizeImports);
        assert(kinds@ =~= seq![CodeActionKind::SourceOrganizeImports]);
        let origin = Position { line: 0, character: 0 };
        self.request(
            Script::CodeActions,
            client_name,
            CodeActionParams {
                text_document,
                range: Range { start: origin, end: origin },
                context: CodeActionContext {
                    only: Some(kinds),
                    diagnostics: Vec::new(),
                    trigger_kind: None,
                },
            },
            Some(REQUEST_TIMEOUT_MS),
            Some(document.buffer_hint()),
        )
    }

    /// The hover request at a position of a document, scoped to the document's
    /// buffer.
    pub fn lsp_hover(
        &self,
        client_name: &str,
        document: &DocumentIdentifier,
        text_document: TextDocumentIdentifier,
        position: Position,
    ) -> (outcome: Result<LspRequest<TextDocumentPositionParams>, NeovimError>)
        ensures
            is_request(
                outcome,
                self.connected(),
                Script::Hover,
                client_name@,
                (TextDocumentPositionParams { text_document, position }),
                Some(REQUEST_TIMEOUT_MS),
                Some(document.buffer_hint_spec()),
            ),
    {
        self.request(
            Script::Hover,
            client_name,
            TextDocumentPositionParams { text_document, position },
            Some(REQUEST_TIMEOUT_MS),
            Some(document.buffer_hint()),
        )
    }

    /// The request for the symbols of a document, scoped to the document's
    /// buffer.
    pub fn lsp_document_symbols(
        &self,
        client_name: &str,
        document: &DocumentIdentifier,
        text_document: TextDocumentIdentifier,
    ) -> (outcome: Result<LspRequest<DocumentSymbolParams>, NeovimError>)
        ensures
            is_request(
                outcome,
                self.connected(),
                Script::DocumentSymbols,
                client_name@,
                (DocumentSymbolParams { text_document }),
                Some(REQUEST_TIMEOUT_MS),
                Some(document.buffer_hint_spec()),
            ),
    {
        self.request(
            Script::DocumentSymbols,
            client_name,
            DocumentSymbolParams { text_document },
            Some(REQUEST_TIMEOUT_MS),
            Some(document.buffer_hint()),
        )
    }

    /// The request for the references to the symbol at a position, scoped to
    /// the document's buffer.
    pub fn lsp_references(
        &self,
        client_name: &str,
        document: &DocumentIdentifier,
        text_document: TextDocumentIdentifier,
        position: Position,
        include_declaration: bool,
    ) -> (outcome: Result<LspRequest<ReferenceParams>, NeovimError>)
        ensures
            is_request(
                outcome,
                self.connected(),
                Script::References,
                client_name@,
                (ReferenceParams {
                    text_document,
                    position,
                    context: ReferenceContext { include_declaration },
                }),
                Some(REQUEST_TIMEOUT_MS),
                Some(document.buffer_hint_spec()),
            ),
    {
        self.request(
            Script::References,
            client_name,
            ReferenceParams {
                text_document,
                position,
                context: ReferenceContext { include_declaration },
            },
            Some(REQUEST_TIMEOUT_MS),
            Some(document.buffer_hint()),
        )
    }

    /// The request for the definition of the symbol at a position; it is not
    /// scoped to a buffer.
    pub fn lsp_definition(
        &self,
        client_name: &str,
        text_document: TextDocumentIdentifier,
        position: Position,
    ) -> (outcome: Result<LspRequest<TextDocumentPositionParams>, NeovimError>)
        ensures
            is_request(
                outcome,
                self.connected(),
                Script::Definition,
                client_name@,
                (TextDocumentPositionParams { text_document, position }),
                Some(REQUEST_TIMEOUT_MS),
                None,
            ),
    {
        self.request(
            Script::Definition,
            client_name,
            TextDocumentPositionParams { text_document, position },
            Some(REQUEST_TIMEOUT_MS),
            None,
        )
    }

    /// The request for the type definition of the symbol at a position; it is not
    /// scoped to a buffer.
    pub fn lsp_type_definition(
        &self,
        client_name: &str,
        text_document: TextDocumentIdentifier,
        position: Position,
    ) -> (outcome: Result<LspRequest<TextDocumentPositionParams>, NeovimError>)
        ensures
            is_request(
                outcome,
                self.connected(),
                Script::TypeDefinition,
                client_name@,
                (TextDocumentPositionParams { text_document, position }),
                Some(REQUEST_TIMEOUT_MS),
                None,
            ),
    {
        self.request(
            Script::TypeDefinition,
            client_name,
            TextDocumentPositionParams { text_document, position },
            Some(REQUEST_TIMEOUT_MS),
            None,
        )
    }

    /// The request for the implementations of the symbol at a position; it is not
    /// scoped to a buffer.
    pub fn lsp_implementation(
        &self,
        client_name: &str,
        text_document: TextDocumentIdentifier,
        position: Position,
    ) -> (outcome: Result<LspRequest<TextDocumentPositionParams>, NeovimError>)
        ensures
            is_request(
                outcome,
                self.connected(),
                Script::Implementation,
                client_name@,
                (TextDocumentPositionParams { text_document, position }),
                Some(REQUEST_TIMEOUT_MS),
                None,
            ),
    {
        self.request(
            Script::Implementation,
            client_name,
            TextDocumentPositionParams { text_document, position },
            Some(REQUEST_TIMEOUT_MS),
            None,
        )
    }

    /// The request for the declaration of the symbol at a position; it is not
    /// scoped to a buffer.
    pub fn lsp_declaration(
        &self,
        client_name: &str,
        text_document: TextDocumentIdentifier,
        position: Position,
    ) -> (outcome: Result<LspRequest<TextDocumentPositionParams>, NeovimError>)
        ensures
            is_request(
                outcome,
                self.connected(),
                Script::Declaration,
                client_name@,
                (TextDocumentPositionParams { text_document, position }),
                Some(REQUEST_TIMEOUT_MS),
                None,
            ),
    {
        self.request(
            Script::Declaration,
            client_name,
            TextDocumentPositionParams { text_document, position },
            Some(REQUEST_TIMEOUT_MS),
            None,
        )
    }

    /// The request to resolve a code action: the action itself is the
    /// parameter, the time budget is the longer one, and the buffer is 0.
    pub fn lsp_resolve_code_action(
        &self,
        client_name: &str,
        code_action: CodeAction,
    ) -> (outcome: Result<LspRequest<CodeAction>, NeovimError>)
        ensures
            is_request(
                outcome,
                self.connected(),
                Script::ResolveCodeAction,
                client_name@,
                (code_action),
                Some(RESOLVE_TIMEOUT_MS),
                Some(0u64),
            ),
    {
        self.request(
            Script::ResolveCodeAction,
            client_name,
            code_action,
            Some(RESOLVE_TIMEOUT_MS),
            Some(0),
        )
    }

    /// The request to apply a workspace edit: the edit itself is the
    /// parameter, without a time budget or a buffer.
    pub fn lsp_apply_workspace_edit(
        &self,
        client_name: &str,
        workspace_edit: WorkspaceEdit,
    ) -> (outcome: Result<LspRequest<WorkspaceEdit>, NeovimError>)
        ensures
            is_request(
                outcome,
                self.connected(),
                Script::ApplyWorkspaceEdit,
                client_name@,
                (workspace_edit),
                None,
                None,
            ),
    {
        self.request(
            Script::ApplyWorkspaceEdit,
            client_name,
            workspace_edit,
            None,
            None,
        )
    }

    /// The request that asks whether the symbol at a position can be
    /// renamed, scoped to the document's buffer.
    pub fn lsp_prepare_rename(
        &self,
        client_name: &str,
        document: &DocumentIdentifier,
        text_document: TextDocumentIdentifier,
        position: Position,
    ) -> (outcome: Result<LspRequest<TextDocumentPositionParams>, NeovimError>)
        ensures
            is_request(
                outcome,
                self.connected(),
                Script::PrepareRename,
                client_name@,
                (TextDocumentPositionParams { text_document, position }),
                Some(REQUEST_TIMEOUT_MS),
                Some(document.buffer_hint_spec()),
            ),
    {
        self.request(
            Script::PrepareRename,
            client_name,
            TextDocumentPositionParams { text_document, position },
            Some(REQUEST_TIMEOUT_MS),
            Some(document.buffer_hint()),
        )
    }

    /// The request to format a whole document, scoped to the document's
    /// buffer.
    pub fn lsp_formatting(
        &self,
        client_name: &str,
        document: &DocumentIdentifier,
        text_document: TextDocumentIdentifier,
        options: FormattingOptions,
    ) -> (outcome: Result<LspRequest<DocumentFormattingParams>, NeovimError>)
        ensures
            is_request(
                outcome,
                self.connected(),
                Script::Formatting,
                client_name@,
                (DocumentFormattingParams { text_document, options }),
                Some(REQUEST_TIMEOUT_MS),
                Some(document.buffer_hint_spec()),
            ),
    {
        self.request(
            Script::Formatting,
            client_name,
            DocumentFormattingParams { text_document, options },
            Some(REQUEST_TIMEOUT_MS),
            Some(document.buffer_hint()),
        )
    }

    /// The request to format a range of a document, scoped to the
    /// document's buffer.
    pub fn lsp_range_formatting(
        &self,
        client_name: &str,
        document: &DocumentIdentifier,
        text_document: TextDocumentIdentifier,
        range: Range,
        options: FormattingOptions,
    ) -> (outcome: Result<LspRequest<DocumentRangeFormattingParams>, NeovimError>)
        ensures
            is_request(
                outcome,
                self.connected(),
                Script::RangeFormatting,
                client_name@,
                (DocumentRangeFormattingParams { text_document, range, options }),
                Some(REQUEST_TIMEOUT_MS),
                Some(document.buffer_hint_spec()),
            ),
    {
        self.request(
            Script::RangeFormatting,
            client_name,
            DocumentRangeFormattingParams { text_document, range, options },
            Some(REQUEST_TIMEOUT_MS),
            Some(document.buffer_hint()),
        )
    }
}

} // verus!

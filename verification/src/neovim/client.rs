//! The language-server protocol's data shapes, the three ways of naming a
//! document, and the answer envelope of the in-editor scripts.

use vstd::prelude::*;
use vstd::string::*;
use vstd::std_specs::convert::FromSpecImpl;
use crate::neovim::connection::NeovimConnection;
use crate::neovim::error::NeovimError;
use crate::text::{is_prefix, str_equal};

verus! {

/// What the handler answers to a request that the editor sends.
#[derive(Debug, Clone, Copy, PartialEq, Eq, Structural)]
pub enum HandlerReply {
    /// The text `pong`, the answer to `ping`.
    Pong,
    /// Nothing: the answer to every other request.
    Nil,
}

/// The receiving side of a session for a writer of type `T`: it answers
/// the requests that the editor sends.
pub struct NeovimHandler<T> {
    _marker: std::marker::PhantomData<T>,
}

impl<T> NeovimHandler<T> {
    /// A handler.
    pub fn new() -> (handler: Self) {
        NeovimHandler { _marker: std::marker::PhantomData }
    }

    /// The answer to the request called `name`: `ping` is answered with
    /// `pong`, every other request with nothing.
    pub fn handle_request(&self, name: &str) -> (reply: HandlerReply)
        ensures
            reply == if name@ == "ping"@ {
                HandlerReply::Pong
            } else {
                HandlerReply::Nil
            },
    {
        if str_equal(name, "ping") {
            HandlerReply::Pong
        } else {
            HandlerReply::Nil
        }
    }
}

/// A handler is copied whatever the writer's type is.
impl<T> Clone for NeovimHandler<T> {
    fn clone(&self) -> (copy: Self) {
        NeovimHandler { _marker: std::marker::PhantomData }
    }
}

/// A diagnostic as the language server sent it.
#[derive(Debug, Clone)]
pub struct LSPDiagnostic {
    pub code: Option<String>,
    pub message: String,
    pub range: Range,
    pub severity: u8,
    pub source: String,
}

/// What the editor keeps beside a diagnostic.
#[derive(Debug, Clone)]
pub struct UserData {
    /// The language server's own form of the diagnostic.
    pub lsp: LSPDiagnostic,
}

/// A diagnostic as the editor reports it.
#[derive(Debug, Clone)]
pub struct Diagnostic {
    pub message: String,
    pub code: Option<String>,
    pub severity: u8,
    pub lnum: u64,
    pub col: u64,
    pub source: String,
    pub bufnr: u64,
    pub end_lnum: u64,
    pub end_col: u64,
    pub namespace: u64,
    pub user_data: Option<UserData>,
}

/// A language client attached in the editor.
#[derive(Debug, Clone)]
pub struct LspClient {
    pub id: u64,
    pub name: String,
}

/// A buffer that is open in the editor.
#[derive(Debug, Clone)]
pub struct BufferInfo {
    pub id: u64,
    pub name: String,
    pub line_count: u64,
}

/// A text document on the wire: its URI and, where the editor knows it,
/// its version.
#[derive(Debug, Clone)]
pub struct TextDocumentIdentifier {
    /// The text document's URI.
    pub uri: String,
    /// The version number of the document, if it is open in the editor.
    pub version: Option<i32>,
}

/// A caller's reference to a text document.
#[derive(Debug, Clone, PartialEq)]
pub enum DocumentIdentifier {
    /// A buffer that is open in the editor, by its handle.
    BufferId(u64),
    /// A path relative to the editor's working directory.
    ProjectRelativePath(String),
    /// An absolute path on this machine.
    AbsolutePath(String),
}

impl DocumentIdentifier {
    /// A reference by buffer handle.
    pub fn from_buffer_id(buffer_id: u64) -> (document: Self)
        ensures
            document == DocumentIdentifier::BufferId(buffer_id),
    {
        DocumentIdentifier::BufferId(buffer_id)
    }

    /// A reference by project-relative path.
    pub fn from_project_path(path: &str) -> (document: Self)
        ensures
            document matches DocumentIdentifier::ProjectRelativePath(p) && p@ == path@,
    {
        DocumentIdentifier::ProjectRelativePath(String::from_str(path))
    }

    /// A reference by absolute path.
    pub fn from_absolute_path(path: &str) -> (document: Self)
        ensures
            document matches DocumentIdentifier::AbsolutePath(p) && p@ == path@,
    {
        DocumentIdentifier::AbsolutePath(String::from_str(path))
    }

    /// The buffer that scopes a request on this document: the handle of a
    /// buffer reference, and buffer 0 for a path.
    pub open spec fn buffer_hint_spec(self) -> u64 {
        match self {
            DocumentIdentifier::BufferId(id) => id,
            _ => 0,
        }
    }

    /// The buffer that scopes a request on this document.
    pub fn buffer_hint(&self) -> (buffer: u64)
        ensures
            buffer == self.buffer_hint_spec(),
    {
        match self {
            DocumentIdentifier::BufferId(id) => *id,
            _ => 0,
        }
    }
}

/// A position in a text document: zero-based line and zero-based character
/// offset.
#[derive(Debug, Clone, Copy, PartialEq, Eq, Structural)]
pub struct Position {
    pub line: u64,
    pub character: u64,
}

/// A range in a text document, from `start` to `end`.
#[derive(Debug, Clone, Copy, PartialEq, Eq, Structural)]
pub struct Range {
    pub start: Position,
    pub end: Position,
}

/// The kind of a code action.
#[derive(Debug, Clone, PartialEq)]
pub enum CodeActionKind {
    Empty,
    Quickfix,
    Refactor,
    RefactorExtract,
    RefactorInline,
    RefactorRewrite,
    Source,
    SourceOrganizeImports,
    SourceFixAll,
    /// A kind that this library has no name for.
    Unknown(String),
}

/// Why code actions were requested.
#[derive(Debug, Clone, Copy, PartialEq, Eq, Structural)]
pub enum CodeActionTriggerKind {
    /// The user or an extension asked for them.
    Invoked,
    /// They were requested automatically.
    Automatic,
}

impl CodeActionTriggerKind {
    /// The number that stands for this trigger kind on the wire.
    pub open spec fn code_spec(self) -> u8 {
        match self {
            CodeActionTriggerKind::Invoked => 1,
            CodeActionTriggerKind::Automatic => 2,
        }
    }

    /// The number that stands for this trigger kind on the wire.
    pub fn code(self) -> (n: u8)
        ensures
            n == self.code_spec(),
    {
        match self {
            CodeActionTriggerKind::Invoked => 1,
            CodeActionTriggerKind::Automatic => 2,
        }
    }

    /// The trigger kind that a number on the wire stands for, if there is
    /// one.
    pub fn from_code(n: u8) -> (kind: Option<Self>)
        ensures
            match kind {
                Some(k) => k.code_spec() == n,
                None => n != 1 && n != 2,
            },
    {
        if n == 1 {
            Some(CodeActionTriggerKind::Invoked)
        } else if n == 2 {
            Some(CodeActionTriggerKind::Automatic)
        } else {
            None
        }
    }
}

/// The context in which code actions are requested.
#[derive(Debug, Clone)]
pub struct CodeActionContext {
    /// The kinds of action to return, if they are restricted.
    pub only: Option<Vec<CodeActionKind>>,
    /// The diagnostics known for the range.
    pub diagnostics: Vec<LSPDiagnostic>,
    /// Why the actions were requested.
    pub trigger_kind: Option<CodeActionTriggerKind>,
}

/// Parameters of a code action request.
#[derive(Debug, Clone)]
pub struct CodeActionParams {
    pub text_document: TextDocumentIdentifier,
    pub range: Range,
    pub context: CodeActionContext,
}

/// Why a code action cannot be applied at the moment.
#[derive(Debug, Clone)]
pub struct Disabled {
    pub reason: String,
}

/// A textual edit of a document.
#[derive(Debug, Clone)]
pub struct TextEdit {
    pub range: Range,
    pub new_text: String,
    pub annotation_id: Option<String>,
}

/// Changes to many resources. Document changes and annotations are carried
/// as the JSON text in which they arrived.
#[derive(Debug, Clone)]
pub struct WorkspaceEdit {
    /// The text edits for each URI.
    pub changes: Option<Vec<(String, Vec<TextEdit>)>>,
    /// Versioned document edits and file operations, each as JSON text.
    pub document_changes: Option<Vec<String>>,
    /// The change annotations by identifier, each as JSON text.
    pub change_annotations: Option<Vec<(String, String)>>,
}

/// A command that the language server can execute.
#[derive(Debug, Clone)]
pub struct Command {
    pub title: String,
    pub command: String,
    /// The arguments, each as JSON text.
    pub arguments: Vec<String>,
}

/// A change that can be performed in code, to fix a problem or to refactor.
#[derive(Debug, Clone)]
pub struct CodeAction {
    pub title: String,
    pub kind: Option<CodeActionKind>,
    pub diagnostics: Option<Vec<LSPDiagnostic>>,
    pub is_preferred: Option<bool>,
    pub disabled: Option<Disabled>,
    pub edit: Option<WorkspaceEdit>,
    pub command: Option<Command>,
    /// What the server wants back when the action is resolved, as JSON
    /// text.
    pub data: Option<String>,
}

impl CodeAction {
    /// The title of the code action.
    pub fn title(&self) -> (title: &str)
        ensures
            title@ == self.title@,
    {
        self.title.as_str()
    }

    /// The workspace edit of the code action, if it has one.
    pub fn edit(&self) -> (edit: Option<&WorkspaceEdit>)
        ensures
            match edit {
                Some(e) => self.edit == Some(*e),
                None => self.edit.is_none(),
            },
    {
        self.edit.as_ref()
    }

    /// Whether the code action carries a workspace edit.
    pub fn has_edit(&self) -> (has: bool)
        ensures
            has == self.edit.is_some(),
    {
        self.edit.is_some()
    }
}

/// A position-scoped request: a document and a place in it.
#[derive(Debug, Clone)]
pub struct TextDocumentPositionParams {
    pub text_document: TextDocumentIdentifier,
    pub position: Position,
}

/// Parameters of a references request.
#[derive(Debug, Clone)]
pub struct ReferenceParams {
    pub text_document: TextDocumentIdentifier,
    pub position: Position,
    pub context: ReferenceContext,
}

/// What a references request should cover.
#[derive(Debug, Clone, Copy, PartialEq, Eq, Structural)]
pub struct ReferenceContext {
    /// Whether the declaration of the symbol counts as a reference.
    pub include_declaration: bool,
}

/// The answer to a hover request.
#[derive(Debug, Clone)]
pub struct HoverResult {
    pub contents: HoverContents,
    /// The range that the hover applies to.
    pub range: Option<Range>,
}

/// The content of a hover: one marked string, several, or markup.
#[derive(Debug, Clone)]
pub enum HoverContents {
    String(MarkedString),
    Strings(Vec<MarkedString>),
    Content(MarkupContent),
}

/// Text to render: plain markdown, or a code block in a language.
#[derive(Debug, Clone)]
pub enum MarkedString {
    String(String),
    Markup { lang: String, value: String },
}

/// Text whose reading depends on its kind.
#[derive(Debug, Clone)]
pub struct MarkupContent {
    pub kind: MarkupKind,
    pub value: String,
}

/// How markup content is to be read.
#[derive(Debug, Clone, Copy, PartialEq, Eq, Structural)]
pub enum MarkupKind {
    PlainText,
    Markdown,
}

/// The code actions that a request returned.
#[derive(Debug, Clone)]
pub struct CodeActionResult {
    pub result: Vec<CodeAction>,
}

/// The kind of a symbol.
#[derive(Debug, Clone, Copy, PartialEq, Eq, Structural)]
pub enum SymbolKind {
    File,
    Module,
    Namespace,
    Package,
    Class,
    Method,
    Property,
    Field,
    Constructor,
    Enum,
    Interface,
    Function,
    Variable,
    Constant,
    String,
    Number,
    Boolean,
    Array,
    Object,
    Key,
    Null,
    EnumMember,
    Struct,
    Event,
    Operator,
    TypeParameter,
}

impl SymbolKind {
    /// The number that stands for this kind on the wire: the kinds are
    /// numbered from 1 in the order of their declaration.
    pub open spec fn code_spec(self) -> u8 {
        match self {
            SymbolKind::File => 1,
            SymbolKind::Module => 2,
            SymbolKind::Namespace => 3,
            SymbolKind::Package => 4,
            SymbolKind::Class => 5,
            SymbolKind::Method => 6,
            SymbolKind::Property => 7,
            SymbolKind::Field => 8,
            SymbolKind::Constructor => 9,
            SymbolKind::Enum => 10,
            SymbolKind::Interface => 11,
            SymbolKind::Function => 12,
            SymbolKind::Variable => 13,
            SymbolKind::Constant => 14,
            SymbolKind::String => 15,
            SymbolKind::Number => 16,
            SymbolKind::Boolean => 17,
            SymbolKind::Array => 18,
            SymbolKind::Object => 19,
            SymbolKind::Key => 20,
            SymbolKind::Null => 21,
            SymbolKind::EnumMember => 22,
            SymbolKind::Struct => 23,
            SymbolKind::Event => 24,
            SymbolKind::Operator => 25,
            SymbolKind::TypeParameter => 26,
        }
    }

    /// The kind that a number on the wire stands for. A number that no kind
    /// has is read as `Variable`.
    pub open spec fn from_code_spec(value: u8) -> SymbolKind {
        if value == 1 {
            SymbolKind::File
        } else if value == 2 {
            SymbolKind::Module
        } else if value == 3 {
            SymbolKind::Namespace
        } else if value == 4 {
            SymbolKind::Package
        } else if value == 5 {
            SymbolKind::Class
        } else if value == 6 {
            SymbolKind::Method
        } else if value == 7 {
            SymbolKind::Property
        } else if value == 8 {
            SymbolKind::Field
        } else if value == 9 {
            SymbolKind::Constructor
        } else if value == 10 {
            SymbolKind::Enum
        } else if value == 11 {
            SymbolKind::Interface
        } else if value == 12 {
            SymbolKind::Function
        } else if value == 13 {
            SymbolKind::Variable
        } else if value == 14 {
            SymbolKind::Constant
        } else if value == 15 {
            SymbolKind::String
        } else if value == 16 {
            SymbolKind::Number
        } else if value == 17 {
            SymbolKind::Boolean
        } else if value == 18 {
            SymbolKind::Array
        } else if value == 19 {
            SymbolKind::Object
        } else if value == 20 {
            SymbolKind::Key
        } else if value == 21 {
            SymbolKind::Null
        } else if value == 22 {
            SymbolKind::EnumMember
        } else if value == 23 {
            SymbolKind::Struct
        } else if value == 24 {
            SymbolKind::Event
        } else if value == 25 {
            SymbolKind::Operator
        } else if value == 26 {
            SymbolKind::TypeParameter
        } else {
            SymbolKind::Variable
        }
    }
}

/// The number that stands for a symbol kind on the wire.
impl From<SymbolKind> for u8 {
    fn from(kind: SymbolKind) -> (code: u8) {
        match kind {
            SymbolKind::File => 1,
            SymbolKind::Module => 2,
            SymbolKind::Namespace => 3,
            SymbolKind::Package => 4,
            SymbolKind::Class => 5,
            SymbolKind::Method => 6,
            SymbolKind::Property => 7,
            SymbolKind::Field => 8,
            SymbolKind::Constructor => 9,
            SymbolKind::Enum => 10,
            SymbolKind::Interface => 11,
            SymbolKind::Function => 12,
            SymbolKind::Variable => 13,
            SymbolKind::Constant => 14,
            SymbolKind::String => 15,
            SymbolKind::Number => 16,
            SymbolKind::Boolean => 17,
            SymbolKind::Array => 18,
            SymbolKind::Object => 19,
            SymbolKind::Key => 20,
            SymbolKind::Null => 21,
            SymbolKind::EnumMember => 22,
            SymbolKind::Struct => 23,
            SymbolKind::Event => 24,
            SymbolKind::Operator => 25,
            SymbolKind::TypeParameter => 26,
        }
    }
}

/// What `u8::from` gives for a symbol kind.
impl FromSpecImpl<SymbolKind> for u8 {
    open spec fn obeys_from_spec() -> bool {
        true
    }

    open spec fn from_spec(kind: SymbolKind) -> u8 {
        kind.code_spec()
    }
}

/// The symbol kind that a number on the wire stands for; `Variable` for a
/// number that no kind has.
impl From<u8> for SymbolKind {
    fn from(value: u8) -> (kind: SymbolKind) {
        if value == 1 {
            SymbolKind::File
        } else if value == 2 {
            SymbolKind::Module
        } else if value == 3 {
            SymbolKind::Namespace
        } else if value == 4 {
            SymbolKind::Package
        } else if value == 5 {
            SymbolKind::Class
        } else if value == 6 {
            SymbolKind::Method
        } else if value == 7 {
            SymbolKind::Property
        } else if value == 8 {
            SymbolKind::Field
        } else if value == 9 {
            SymbolKind::Constructor
        } else if value == 10 {
            SymbolKind::Enum
        } else if value == 11 {
            SymbolKind::Interface
        } else if value == 12 {
            SymbolKind::Function
        } else if value == 13 {
            SymbolKind::Variable
        } else if value == 14 {
            SymbolKind::Constant
        } else if value == 15 {
            SymbolKind::String
        } else if value == 16 {
            SymbolKind::Number
        } else if value == 17 {
            SymbolKind::Boolean
        } else if value == 18 {
            SymbolKind::Array
        } else if value == 19 {
            SymbolKind::Object
        } else if value == 20 {
            SymbolKind::Key
        } else if value == 21 {
            SymbolKind::Null
        } else if value == 22 {
            SymbolKind::EnumMember
        } else if value == 23 {
            SymbolKind::Struct
        } else if value == 24 {
            SymbolKind::Event
        } else if value == 25 {
            SymbolKind::Operator
        } else if value == 26 {
            SymbolKind::TypeParameter
        } else {
            SymbolKind::Variable
        }
    }
}

/// What `SymbolKind::from` gives for a number.
impl FromSpecImpl<u8> for SymbolKind {
    open spec fn obeys_from_spec() -> bool {
        true
    }

    open spec fn from_spec(value: u8) -> SymbolKind {
        SymbolKind::from_code_spec(value)
    }
}

/// Every kind is read back from its own number.
pub proof fn lemma_symbol_kind_round_trip(kind: SymbolKind)
    ensures
        SymbolKind::from_code_spec(kind.code_spec()) == kind,
        1 <= kind.code_spec() <= 26,
{
}

/// An annotation that changes how a symbol is shown.
#[derive(Debug, Clone, Copy, PartialEq, Eq, Structural)]
pub enum SymbolTag {
    /// The symbol is obsolete.
    Deprecated,
}

/// The number that stands for a symbol tag on the wire.
impl From<SymbolTag> for u8 {
    fn from(tag: SymbolTag) -> (code: u8) {
        match tag {
            SymbolTag::Deprecated => 1,
        }
    }
}

/// What `u8::from` gives for a symbol tag.
impl FromSpecImpl<SymbolTag> for u8 {
    open spec fn obeys_from_spec() -> bool {
        true
    }

    open spec fn from_spec(tag: SymbolTag) -> u8 {
        1
    }
}

/// The symbol tag that a number on the wire stands for: every number is
/// read as `Deprecated`, the only tag there is.
impl From<u8> for SymbolTag {
    fn from(value: u8) -> (tag: SymbolTag) {
        SymbolTag::Deprecated
    }
}

/// What `SymbolTag::from` gives for a number.
impl FromSpecImpl<u8> for SymbolTag {
    open spec fn obeys_from_spec() -> bool {
        true
    }

    open spec fn from_spec(value: u8) -> SymbolTag {
        SymbolTag::Deprecated
    }
}

/// A place inside a resource.
#[derive(Debug, Clone)]
pub struct Location {
    pub uri: String,
    pub range: Range,
}

/// A link from a place in one resource to a place in another.
#[derive(Debug, Clone)]
pub struct LocationLink {
    pub origin_selection_range: Option<Range>,
    pub target_uri: String,
    pub target_range: Range,
    pub target_selection_range: Range,
}

/// The answer to a definition-style request.
#[derive(Debug, Clone)]
pub enum LocateResult {
    Single(Location),
    Locations(Vec<Location>),
    LocationLinks(Vec<LocationLink>),
}

/// A symbol in a flat list.
#[derive(Debug, Clone)]
pub struct SymbolInformation {
    pub name: String,
    pub kind: SymbolKind,
    pub tags: Option<Vec<SymbolTag>>,
    pub deprecated: Option<bool>,
    pub location: Location,
    pub container_name: Option<String>,
}

/// A symbol in a document, with the symbols it contains.
#[derive(Debug)]
pub struct DocumentSymbol {
    pub name: String,
    pub detail: Option<String>,
    pub kind: SymbolKind,
    pub tags: Option<Vec<SymbolTag>>,
    pub deprecated: Option<bool>,
    pub range: Range,
    pub selection_range: Range,
    pub children: Option<Vec<DocumentSymbol>>,
}

/// Parameters of a document symbol request.
#[derive(Debug, Clone)]
pub struct DocumentSymbolParams {
    pub text_document: TextDocumentIdentifier,
}

/// Parameters of a workspace symbol request.
#[derive(Debug, Clone)]
pub struct WorkspaceSymbolParams {
    /// The text that symbols are filtered by; empty for all symbols.
    pub query: String,
}

/// The answer to a document symbol request: a tree or a flat list.
#[derive(Debug)]
pub enum DocumentSymbolResult {
    Symbols(Vec<DocumentSymbol>),
    Information(Vec<SymbolInformation>),
}

/// The answer to a workspace symbol request.
#[derive(Debug)]
pub struct WorkspaceSymbolResult {
    pub result: Option<DocumentSymbolResult>,
}

/// Parameters of a rename request.
#[derive(Debug, Clone)]
pub struct RenameParams {
    pub text_document: TextDocumentIdentifier,
    pub position: Position,
    /// The new name of the symbol.
    pub new_name: String,
}

/// The answer to a request that prepares a rename.
#[derive(Debug, Clone)]
pub enum PrepareRenameResult {
    /// The range of the text to rename.
    Range(Range),
    /// The range of the text to rename and a placeholder for the new name.
    RangeWithPlaceholder { range: Range, placeholder: String },
    /// The server leaves the range to the client's default behaviour.
    DefaultBehavior { default_behavior: bool },
}

/// How a document is to be formatted.
#[derive(Debug, Clone, Copy, PartialEq, Eq, Structural)]
pub struct FormattingOptions {
    /// The width of a tab in spaces.
    pub tab_size: u32,
    /// Whether spaces are preferred over tabs.
    pub insert_spaces: bool,
    pub trim_trailing_whitespace: Option<bool>,
    pub insert_final_newline: Option<bool>,
    pub trim_final_newlines: Option<bool>,
}

/// Parameters of a request to format a whole document.
#[derive(Debug, Clone)]
pub struct DocumentFormattingParams {
    pub text_document: TextDocumentIdentifier,
    pub options: FormattingOptions,
}

/// Parameters of a request to format a range of a document.
#[derive(Debug, Clone)]
pub struct DocumentRangeFormattingParams {
    pub text_document: TextDocumentIdentifier,
    pub range: Range,
    pub options: FormattingOptions,
}

/// The answer envelope of an in-editor script.
#[derive(Debug, Clone)]
pub enum NvimExecuteLuaResult<T> {
    /// The editor or its API failed; tagged `err_msg` on the wire.
    Error(String),
    /// The call succeeded; tagged `result` on the wire.
    Success(T),
    /// The language server answered with an error; tagged `err` on the
    /// wire.
    LspError { message: String, code: i32 },
}

impl<T> NvimExecuteLuaResult<T> {
    /// The outcome that an envelope stands for: the value of a success, an
    /// API error with the editor's message, or a language-server error with
    /// the server's code and message.
    pub open spec fn into_result_spec(self) -> Result<T, NeovimError> {
        match self {
            NvimExecuteLuaResult::Success(value) => Ok(value),
            NvimExecuteLuaResult::Error(msg) => Err(NeovimError::Api(msg)),
            NvimExecuteLuaResult::LspError { message, code } => Err(
                NeovimError::Lsp { code, message },
            ),
        }
    }

    /// Opens the envelope.
    pub fn into_result(self) -> (outcome: Result<T, NeovimError>)
        ensures
            outcome == self.into_result_spec(),
    {
        match self {
            NvimExecuteLuaResult::Success(value) => Ok(value),
            NvimExecuteLuaResult::Error(msg) => Err(NeovimError::Api(msg)),
            NvimExecuteLuaResult::LspError { message, code } => Err(
                NeovimError::Lsp { code, message },
            ),
        }
    }
}

/// What came back from a call into the editor.
#[derive(Debug, Clone)]
pub enum EditorReply<T> {
    /// The call itself failed; the text of the failure.
    Failed(String),
    /// The call returned something that could not be decoded; the text of
    /// the decoder's complaint.
    Malformed(String),
    /// The call returned this value.
    Decoded(T),
}

/// The message of every request made while no session is open.
pub open spec fn not_connected_message() -> Seq<char> {
    "Not connected to any Neovim instance"@
}

/// Whether `outcome` reports an API failure whose message is `prefix`
/// followed by `detail`.
pub open spec fn is_api_error<T>(
    outcome: Result<T, NeovimError>,
    prefix: Seq<char>,
    detail: Seq<char>,
) -> bool {
    outcome matches Err(NeovimError::Api(msg)) && msg@ == prefix + detail
}

/// Whether `outcome` is what a plain reply stands for: the decoded value,
/// or an API failure that names what went wrong, with `call_failed` in
/// front of a failed call's text and `malformed` in front of a decoder's.
pub open spec fn plain_reply_outcome<T>(
    reply: EditorReply<T>,
    call_failed: Seq<char>,
    malformed: Seq<char>,
    outcome: Result<T, NeovimError>,
) -> bool {
    match reply {
        EditorReply::Failed(why) => is_api_error(outcome, call_failed, why@),
        EditorReply::Malformed(why) => is_api_error(outcome, malformed, why@),
        EditorReply::Decoded(value) => outcome == Ok::<T, NeovimError>(value),
    }
}

/// Whether `outcome` is what an enveloped reply stands for: what the
/// envelope holds where one was decoded, and otherwise an API failure as
/// for a plain reply.
pub open spec fn envelope_reply_outcome<T>(
    reply: EditorReply<NvimExecuteLuaResult<T>>,
    call_failed: Seq<char>,
    malformed: Seq<char>,
    outcome: Result<T, NeovimError>,
) -> bool {
    match reply {
        EditorReply::Failed(why) => is_api_error(outcome, call_failed, why@),
        EditorReply::Malformed(why) => is_api_error(outcome, malformed, why@),
        EditorReply::Decoded(envelope) => outcome == envelope.into_result_spec(),
    }
}

/// An API failure whose message is `prefix` followed by `detail`.
pub(crate) fn api_error<T>(prefix: &str, detail: &str) -> (outcome: Result<T, NeovimError>)
    ensures
        is_api_error(outcome, prefix@, detail@),
{
    Err(NeovimError::Api(String::from_str(prefix).concat(detail)))
}

/// The outcome that a plain reply stands for.
pub(crate) fn open_plain_reply<T>(
    reply: EditorReply<T>,
    call_failed: &str,
    malformed: &str,
) -> (outcome: Result<T, NeovimError>)
    ensures
        plain_reply_outcome(reply, call_failed@, malformed@, outcome),
{
    match reply {
        EditorReply::Failed(why) => api_error(call_failed, why.as_str()),
        EditorReply::Malformed(why) => api_error(malformed, why.as_str()),
        EditorReply::Decoded(value) => Ok(value),
    }
}

/// The outcome that an enveloped reply stands for.
pub(crate) fn open_envelope_reply<T>(
    reply: EditorReply<NvimExecuteLuaResult<T>>,
    call_failed: &str,
    malformed: &str,
) -> (outcome: Result<T, NeovimError>)
    ensures
        envelope_reply_outcome(reply, call_failed@, malformed@, outcome),
{
    match reply {
        EditorReply::Failed(why) => api_error(call_failed, why.as_str()),
        EditorReply::Malformed(why) => api_error(malformed, why.as_str()),
        EditorReply::Decoded(envelope) => envelope.into_result(),
    }
}

/// `std::path::Path::canonicalize`: the absolute form of the path with all
/// links resolved, as text, or the text of the error where the path does
/// not exist or cannot be read. The answer depends on the filesystem, so
/// nothing is claimed of it.
#[verifier::external_body]
fn canonicalize(path: &str) -> (resolved: Result<String, String>) {
    match std::path::Path::new(path).canonicalize() {
        Ok(absolute) => Ok(absolute.display().to_string()),
        Err(e) => Err(e.to_string()),
    }
}

/// Whether `outcome` is the document identifier for `path`, given what
/// canonicalizing it gave: a `file://` URI of the canonical path, without a
/// version, or an API failure that names the path and the reason.
pub open spec fn path_identifier_outcome(
    path: Seq<char>,
    resolved: Result<String, String>,
    outcome: Result<TextDocumentIdentifier, NeovimError>,
) -> bool {
    match resolved {
        Ok(absolute) => outcome matches Ok(doc) && doc.uri@ == "file://"@ + absolute@
            && doc.version.is_none(),
        Err(why) => is_api_error(outcome, "Failed to resolve path "@ + path + ": "@, why@),
    }
}

/// The document identifier for `path`, given what canonicalizing it gave.
pub fn text_document_identifier_from_canonical(path: &str, resolved: Result<String, String>) -> (outcome:
    Result<TextDocumentIdentifier, NeovimError>)
    ensures
        path_identifier_outcome(path@, resolved, outcome),
{
    match resolved {
        Ok(absolute) => Ok(
            TextDocumentIdentifier {
                uri: String::from_str("file://").concat(absolute.as_str()),
                version: None,
            },
        ),
        Err(why) => {
            let mut prefix = String::from_str("Failed to resolve path ");
            prefix.append(path);
            prefix.append(": ");
            api_error(prefix.as_str(), why.as_str())
        },
    }
}

/// Makes a document identifier from a file path, which is canonicalized
/// against the filesystem of this process. The result is a `file://` URI
/// without a version, or an API failure that names the path.
pub fn make_text_document_identifier_from_path(file_path: &str) -> (outcome: Result<
    TextDocumentIdentifier,
    NeovimError,
>)
    ensures
        match outcome {
            Ok(doc) => is_prefix("file://"@, doc.uri@) && doc.version.is_none(),
            Err(e) => e matches NeovimError::Api(msg) && is_prefix(
                "Failed to resolve path "@ + file_path@ + ": "@,
                msg@,
            ),
        },
{
    let resolved = canonicalize(file_path);
    let outcome = text_document_identifier_from_canonical(file_path, resolved);
    proof {
        if outcome.is_ok() {
            let absolute = resolved->Ok_0;
            assert((("file://"@ + absolute@).subrange(0, "file://"@.len() as int)) =~= "file://"@);
        } else {
            let why = resolved->Err_0;
            let prefix = "Failed to resolve path "@ + file_path@ + ": "@;
            assert((prefix + why@).subrange(0, prefix.len() as int) =~= prefix);
        }
    }
    outcome
}

/// A document reference together with what the editor said when asked
/// about it.
#[derive(Debug, Clone)]
pub enum DocumentLookup {
    /// A buffer, and the editor's answer on its URI and version.
    Buffer { buffer_id: u64, reply: EditorReply<TextDocumentIdentifier> },
    /// A project-relative path, and the editor's answer on its working
    /// directory.
    ProjectRelative { path: String, working_directory: EditorReply<String> },
    /// An absolute path, about which the editor is not asked.
    Absolute { path: String },
}

/// What the editor has to be asked before a document can be resolved.
#[derive(Debug, Clone, Copy, PartialEq, Eq, Structural)]
pub enum ResolverQuery {
    /// The URI and version of this buffer.
    BufferDocument(u64),
    /// The editor's working directory.
    WorkingDirectory,
    /// Nothing.
    Nothing,
}

impl DocumentIdentifier {
    /// What the editor has to be asked to resolve this reference.
    pub fn resolver_query(&self) -> (query: ResolverQuery)
        ensures
            query == match *self {
                DocumentIdentifier::BufferId(id) => ResolverQuery::BufferDocument(id),
                DocumentIdentifier::ProjectRelativePath(_) => ResolverQuery::WorkingDirectory,
                DocumentIdentifier::AbsolutePath(_) => ResolverQuery::Nothing,
            },
    {
        match self {
            DocumentIdentifier::BufferId(id) => ResolverQuery::BufferDocument(*id),
            DocumentIdentifier::ProjectRelativePath(_) => ResolverQuery::WorkingDirectory,
            DocumentIdentifier::AbsolutePath(_) => ResolverQuery::Nothing,
        }
    }
}

/// One client of one editor instance: it holds at most one session.
#[derive(Debug, Clone)]
pub struct NeovimClient {
    connection: Option<NeovimConnection>,
}

/// Whether `outcome` refuses a request because no session is open.
pub open spec fn is_not_connected<T>(outcome: Result<T, NeovimError>) -> bool {
    outcome matches Err(NeovimError::Connection(msg)) && msg@ == not_connected_message()
}

impl NeovimClient {
    /// The target of the open session, if there is one.
    pub closed spec fn target_spec(&self) -> Option<Seq<char>> {
        match self.connection {
            Some(connection) => Some(connection.address@),
            None => None,
        }
    }

    /// A client without a session.
    pub fn new() -> (client: Self)
        ensures
            client.target_spec().is_none(),
    {
        NeovimClient { connection: None }
    }

    /// The target of the open session, if there is one.
    pub fn target(&self) -> (target: Option<String>)
        ensures
            match target {
                Some(t) => self.target_spec() == Some(t@),
                None => self.target_spec().is_none(),
            },
    {
        match &self.connection {
            Some(connection) => Some(connection.address.clone()),
            None => None,
        }
    }

    /// Opens the session to `target`, given what the transport answered.
    fn connect(&mut self, target: &str, transport: Result<(), String>) -> (outcome: Result<
        (),
        NeovimError,
    >)
        ensures
            connect_outcome(old(self).target_spec(), target@, transport, outcome, final(self).target_spec()),
    {
        match &self.connection {
            Some(connection) => Err(NeovimError::AlreadyConnected(connection.address.clone())),
            None => match transport {
                Ok(_) => {
                    self.connection = Some(NeovimConnection::new(String::from_str(target)));
                    Ok(())
                },
                Err(why) => Err(
                    NeovimError::Connection(
                        String::from_str("Connection failed: ").concat(why.as_str()),
                    ),
                ),
            },
        }
    }

    /// Opens the session to the socket or pipe at `path`, given what the
    /// transport answered. A client that already holds a session refuses
    /// and names that session's target; a transport failure is reported
    /// with its reason; otherwise the session is open to `path`.
    pub fn connect_path(&mut self, path: &str, transport: Result<(), String>) -> (outcome: Result<
        (),
        NeovimError,
    >)
        ensures
            connect_outcome(old(self).target_spec(), path@, transport, outcome, final(self).target_spec()),
    {
        self.connect(path, transport)
    }

    /// Opens the session to the TCP endpoint at `address`, given what the
    /// transport answered; as `connect_path` otherwise.
    pub fn connect_tcp(&mut self, address: &str, transport: Result<(), String>) -> (outcome: Result<
        (),
        NeovimError,
    >)
        ensures
            connect_outcome(
                old(self).target_spec(),
                address@,
                transport,
                outcome,
                final(self).target_spec(),
            ),
    {
        self.connect(address, transport)
    }

    /// Closes the session and returns the target it was open to. Fails with
    /// `NotConnected` where there is no session.
    pub fn disconnect(&mut self) -> (outcome: Result<String, NeovimError>)
        ensures
            final(self).target_spec().is_none(),
            match old(self).target_spec() {
                Some(target) => outcome matches Ok(t) && t@ == target,
                None => outcome == Err::<String, NeovimError>(NeovimError::NotConnected),
            },
    {
        match self.connection.take() {
            Some(connection) => Ok(connection.address),
            None => Err(NeovimError::NotConnected),
        }
    }

    /// Passes where a session is open and refuses otherwise.
    pub fn require_session(&self) -> (outcome: Result<(), NeovimError>)
        ensures
            match self.target_spec() {
                Some(_) => outcome.is_ok(),
                None => is_not_connected(outcome),
            },
    {
        match &self.connection {
            Some(_) => Ok(()),
            None => Err(
                NeovimError::Connection(String::from_str("Not connected to any Neovim instance")),
            ),
        }
    }
}

/// How a connection attempt ends, from the session held before, the target,
/// and the transport's answer: the outcome and the session held after.
pub open spec fn connect_outcome(
    before: Option<Seq<char>>,
    target: Seq<char>,
    transport: Result<(), String>,
    outcome: Result<(), NeovimError>,
    after: Option<Seq<char>>,
) -> bool {
    match before {
        Some(existing) => outcome matches Err(NeovimError::AlreadyConnected(t)) && t@ == existing
            && after == before,
        None => match transport {
            Ok(_) => outcome.is_ok() && after == Some(target),
            Err(why) => outcome matches Err(NeovimError::Connection(msg)) && msg@
                == "Connection failed: "@ + why@ && after.is_none(),
        },
    }
}

} // verus!

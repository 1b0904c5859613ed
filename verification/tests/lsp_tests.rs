use nvim_mcp::neovim::client::{
    CodeAction, CodeActionKind, CodeActionResult, CodeActionTriggerKind, Diagnostic, DocumentLookup, EditorReply,
    FormattingOptions, HandlerReply, HoverContents, HoverResult, LSPDiagnostic, Location,
    MarkedString, NvimExecuteLuaResult, ResolverQuery, SymbolKind, SymbolTag,
    TextDocumentIdentifier, WorkspaceEdit,
};
use nvim_mcp::neovim::connection::NeovimConnection;
use nvim_mcp::neovim::error::ErrorKind;
use nvim_mcp::neovim::lsp::{
    collect_lsp_diagnostics, diagnostics_reply, lsp_get_code_actions_reply, lsp_hover_reply,
    lsp_references_reply, lsp_resolve_code_action_reply, DiagnosticsScope, Script,
    REQUEST_TIMEOUT_MS, RESOLVE_TIMEOUT_MS,
};
use nvim_mcp::neovim::{DocumentIdentifier, NeovimClient, NeovimError, NeovimHandler, Position, Range};
use nvim_mcp::ServerError;

fn connected() -> NeovimClient {
    let mut client = NeovimClient::new();
    client.connect_path("/tmp/nvim.sock", Ok(())).unwrap();
    client
}

fn doc() -> TextDocumentIdentifier {
    TextDocumentIdentifier { uri: "file:///w/a.rs".to_string(), version: Some(3) }
}

fn range() -> Range {
    Range { start: Position { line: 1, character: 2 }, end: Position { line: 3, character: 4 } }
}

fn lsp_diag(message: &str) -> LSPDiagnostic {
    LSPDiagnostic {
        code: None,
        message: message.to_string(),
        range: range(),
        severity: 1,
        source: "rustc".to_string(),
    }
}

fn diag(message: &str, with_lsp: bool) -> Diagnostic {
    Diagnostic {
        message: message.to_string(),
        code: None,
        severity: 1,
        lnum: 0,
        col: 0,
        source: "rustc".to_string(),
        bufnr: 1,
        end_lnum: 0,
        end_col: 1,
        namespace: 7,
        user_data: if with_lsp {
            Some(nvim_mcp::neovim::client::UserData { lsp: lsp_diag(message) })
        } else {
            None
        },
    }
}

fn action(title: &str, edit: Option<WorkspaceEdit>) -> CodeAction {
    CodeAction {
        title: title.to_string(),
        kind: Some(CodeActionKind::SourceOrganizeImports),
        diagnostics: None,
        is_preferred: None,
        disabled: None,
        edit,
        command: None,
        data: None,
    }
}

fn empty_edit() -> WorkspaceEdit {
    WorkspaceEdit { changes: Some(vec![]), document_changes: None, change_annotations: None }
}

fn api_message<T>(outcome: Result<T, NeovimError>) -> String {
    match outcome {
        Err(NeovimError::Api(msg)) => msg,
        _ => panic!("expected an API error"),
    }
}

fn not_connected<T>(outcome: Result<T, NeovimError>) {
    match outcome {
        Err(NeovimError::Connection(msg)) => {
            assert_eq!(msg, "Not connected to any Neovim instance")
        }
        _ => panic!("expected a connection error"),
    }
}

#[test]
fn session_lifecycle() {
    let mut client = NeovimClient::new();
    assert_eq!(client.target(), None);
    assert!(matches!(client.disconnect(), Err(NeovimError::NotConnected)));
    match client.connect_tcp("127.0.0.1:1", Err("refused".to_string())) {
        Err(NeovimError::Connection(msg)) => assert_eq!(msg, "Connection failed: refused"),
        _ => panic!("expected a connection error"),
    }
    assert_eq!(client.target(), None);
    client.connect_tcp("127.0.0.1:6666", Ok(())).unwrap();
    assert_eq!(client.target(), Some("127.0.0.1:6666".to_string()));
    match client.connect_path("/tmp/other.sock", Ok(())) {
        Err(NeovimError::AlreadyConnected(t)) => assert_eq!(t, "127.0.0.1:6666"),
        _ => panic!("expected already connected"),
    }
    assert_eq!(client.target(), Some("127.0.0.1:6666".to_string()));
    assert_eq!(client.disconnect().unwrap(), "127.0.0.1:6666");
    assert_eq!(client.target(), None);
    assert!(matches!(client.disconnect(), Err(NeovimError::NotConnected)));
}

#[test]
fn connection_record() {
    let connection = NeovimConnection::new("/tmp/nvim.sock".to_string());
    assert_eq!(connection.address(), "/tmp/nvim.sock");
    assert!(connection.is_connected(false));
    assert!(!connection.is_connected(true));
}

#[test]
fn error_kinds_and_messages() {
    let e = NeovimError::Connection("x".to_string());
    assert_eq!((e.kind(), e.message()), (ErrorKind::Connection, "Connection error: x".to_string()));
    let e = NeovimError::Api("x".to_string());
    assert_eq!((e.kind(), e.message()), (ErrorKind::Api, "API error: x".to_string()));
    let e = NeovimError::Lsp { code: -32800, message: "cancelled".to_string() };
    assert_eq!((e.kind(), e.message()), (ErrorKind::Lsp, "LSP Error: -32800, cancelled".to_string()));
    let e = NeovimError::NotConnected;
    assert_eq!((e.kind(), e.message()), (ErrorKind::Connection, "No active connection".to_string()));
    let e = NeovimError::AlreadyConnected("t".to_string());
    assert_eq!((e.kind(), e.message()), (ErrorKind::Connection, "Already connected to t".to_string()));
    assert_eq!(ServerError::Mcp("m".to_string()).message(), "MCP protocol error: m");
    assert_eq!(ServerError::Io("m".to_string()).message(), "IO error: m");
    assert_eq!(ServerError::Server("m".to_string()).message(), "Server error: m");
}

#[test]
fn envelope_opens_into_three_outcomes() {
    assert_eq!(NvimExecuteLuaResult::Success(5).into_result().unwrap(), 5);
    match NvimExecuteLuaResult::<u8>::Error("boom".to_string()).into_result() {
        Err(NeovimError::Api(msg)) => assert_eq!(msg, "boom"),
        _ => panic!("expected an API error"),
    }
    match (NvimExecuteLuaResult::<u8>::LspError { message: "no".to_string(), code: -32601 })
        .into_result()
    {
        Err(NeovimError::Lsp { code, message }) => {
            assert_eq!(code, -32601);
            assert_eq!(message, "no");
        }
        _ => panic!("expected a language-server error"),
    }
}

#[test]
fn symbol_kinds_and_numbers() {
    assert_eq!(u8::from(SymbolKind::Function), 12);
    assert_eq!(u8::from(SymbolKind::Variable), 13);
    assert_eq!(u8::from(SymbolKind::Class), 5);
    assert_eq!(u8::from(SymbolKind::File), 1);
    assert_eq!(u8::from(SymbolKind::TypeParameter), 26);
    for n in 1u8..=26 {
        assert_eq!(u8::from(SymbolKind::from(n)), n);
    }
    assert_eq!(SymbolKind::from(0), SymbolKind::Variable);
    assert_eq!(SymbolKind::from(27), SymbolKind::Variable);
    assert_eq!(SymbolKind::from(255), SymbolKind::Variable);
    assert_eq!(u8::from(SymbolTag::Deprecated), 1);
    assert_eq!(SymbolTag::from(1), SymbolTag::Deprecated);
    assert_eq!(SymbolTag::from(9), SymbolTag::Deprecated);
}

#[test]
fn trigger_kinds_and_numbers() {
    assert_eq!(CodeActionTriggerKind::Invoked.code(), 1);
    assert_eq!(CodeActionTriggerKind::Automatic.code(), 2);
    assert_eq!(CodeActionTriggerKind::from_code(1), Some(CodeActionTriggerKind::Invoked));
    assert_eq!(CodeActionTriggerKind::from_code(2), Some(CodeActionTriggerKind::Automatic));
    assert_eq!(CodeActionTriggerKind::from_code(0), None);
    assert_eq!(CodeActionTriggerKind::from_code(3), None);
}

#[test]
fn handler_answers_ping() {
    let handler: NeovimHandler<()> = NeovimHandler::new();
    assert_eq!(handler.handle_request("ping"), HandlerReply::Pong);
    assert_eq!(handler.handle_request("pong"), HandlerReply::Nil);
    assert_eq!(handler.clone().handle_request(""), HandlerReply::Nil);
}

#[test]
fn resolver_queries() {
    assert_eq!(
        DocumentIdentifier::from_buffer_id(4).resolver_query(),
        ResolverQuery::BufferDocument(4)
    );
    assert_eq!(
        DocumentIdentifier::from_project_path("a.rs").resolver_query(),
        ResolverQuery::WorkingDirectory
    );
    assert_eq!(
        DocumentIdentifier::from_absolute_path("/a.rs").resolver_query(),
        ResolverQuery::Nothing
    );
    assert_eq!(DocumentIdentifier::from_buffer_id(4).buffer_hint(), 4);
    assert_eq!(DocumentIdentifier::from_absolute_path("/a.rs").buffer_hint(), 0);
}

#[test]
fn resolving_a_buffer() {
    let client = connected();
    let resolved = client
        .resolve_text_document_identifier(DocumentLookup::Buffer {
            buffer_id: 1,
            reply: EditorReply::Decoded(doc()),
        })
        .unwrap();
    assert_eq!(resolved.uri, "file:///w/a.rs");
    assert_eq!(resolved.version, Some(3));
    assert_eq!(
        api_message(client.resolve_text_document_identifier(DocumentLookup::Buffer {
            buffer_id: 99,
            reply: EditorReply::Failed("Invalid buffer id: 99".to_string()),
        })),
        "Failed to make text document params: Invalid buffer id: 99"
    );
    assert_eq!(
        api_message(client.lsp_make_text_document_params(1, EditorReply::Malformed("eof".to_string()))),
        "Failed to parse text document params: eof"
    );
    not_connected(NeovimClient::new().lsp_make_text_document_params(1, EditorReply::Decoded(doc())));
}

#[test]
fn resolving_paths() {
    let client = connected();
    let outcome = client.resolve_text_document_identifier(DocumentLookup::Absolute {
        path: "/definitely/not/a/real/path".to_string(),
    });
    assert!(api_message(outcome).starts_with("Failed to resolve path /definitely/not/a/real/path: "));

    let outcome = client.resolve_text_document_identifier(DocumentLookup::ProjectRelative {
        path: "not/there.rs".to_string(),
        working_directory: EditorReply::Decoded("/definitely/not".to_string()),
    });
    assert!(api_message(outcome).starts_with("Failed to resolve path /definitely/not/not/there.rs: "));

    let outcome = client.resolve_text_document_identifier(DocumentLookup::ProjectRelative {
        path: "a.rs".to_string(),
        working_directory: EditorReply::Failed("closed".to_string()),
    });
    assert_eq!(api_message(outcome), "Failed to get working directory: closed");

    let outcome = client.get_project_root(EditorReply::Malformed(String::new()));
    assert_eq!(api_message(outcome), "Invalid working directory format");
    assert_eq!(client.get_project_root(EditorReply::Decoded("/w".to_string())).unwrap(), "/w");
    not_connected(NeovimClient::new().get_project_root(EditorReply::Decoded("/w".to_string())));

    // An absolute path needs no session.
    let here = NeovimClient::new()
        .resolve_text_document_identifier(DocumentLookup::Absolute { path: "src".to_string() })
        .unwrap();
    assert!(here.uri.starts_with("file:///"));
    assert!(here.uri.ends_with("/src"));
    assert_eq!(here.version, None);
}

#[test]
fn hover_request_and_reply() {
    let client = connected();
    let request = client
        .lsp_hover("rust-analyzer", &DocumentIdentifier::BufferId(9), doc(), Position { line: 4, character: 2 })
        .unwrap();
    assert_eq!(request.script, Script::Hover);
    assert_eq!(request.client_name, "rust-analyzer");
    assert_eq!(request.params.text_document.uri, "file:///w/a.rs");
    assert_eq!(request.params.position, Position { line: 4, character: 2 });
    assert_eq!(request.timeout_ms, Some(1000));
    assert_eq!(request.buffer, Some(9));
    let by_path = client
        .lsp_hover("ra", &DocumentIdentifier::from_absolute_path("/w/a.rs"), doc(), Position { line: 0, character: 0 })
        .unwrap();
    assert_eq!(by_path.buffer, Some(0));
    not_connected(NeovimClient::new().lsp_hover(
        "ra",
        &DocumentIdentifier::BufferId(9),
        doc(),
        Position { line: 0, character: 0 },
    ));

    let hover = HoverResult {
        contents: HoverContents::String(MarkedString::String("fn main()".to_string())),
        range: None,
    };
    let opened = lsp_hover_reply(EditorReply::Decoded(NvimExecuteLuaResult::Success(hover))).unwrap();
    assert!(matches!(opened.contents, HoverContents::String(MarkedString::String(text)) if text == "fn main()"));
    assert_eq!(
        api_message(lsp_hover_reply(EditorReply::Failed("timeout".to_string()))),
        "Failed to get LSP hover: timeout"
    );
    assert_eq!(
        api_message(lsp_hover_reply(EditorReply::Malformed("eof".to_string()))),
        "Failed to parse hover result: eof"
    );
    assert_eq!(
        api_message(lsp_hover_reply(EditorReply::Decoded(NvimExecuteLuaResult::Error("no client".to_string())))),
        "no client"
    );
    assert!(matches!(
        lsp_hover_reply(EditorReply::Decoded(NvimExecuteLuaResult::LspError {
            message: "x".to_string(),
            code: -1
        })),
        Err(NeovimError::Lsp { code: -1, .. })
    ));
}

#[test]
fn requests_of_each_kind() {
    let client = connected();
    let buffer = DocumentIdentifier::BufferId(2);
    let at = Position { line: 1, character: 1 };

    let r = client.lsp_document_symbols("ra", &buffer, doc()).unwrap();
    assert_eq!((r.script, r.timeout_ms, r.buffer), (Script::DocumentSymbols, Some(1000), Some(2)));

    let r = client.lsp_workspace_symbols("ra", "main").unwrap();
    assert_eq!((r.script, r.timeout_ms, r.buffer), (Script::WorkspaceSymbols, Some(1000), None));
    assert_eq!(r.params.query, "main");

    let r = client.lsp_references("ra", &buffer, doc(), at, true).unwrap();
    assert_eq!((r.script, r.timeout_ms, r.buffer), (Script::References, Some(1000), Some(2)));
    assert!(r.params.context.include_declaration);
    assert_eq!(r.params.position, at);

    let r = client.lsp_definition("ra", doc(), at).unwrap();
    assert_eq!((r.script, r.timeout_ms, r.buffer), (Script::Definition, Some(1000), None));
    let r = client.lsp_type_definition("ra", doc(), at).unwrap();
    assert_eq!((r.script, r.timeout_ms, r.buffer), (Script::TypeDefinition, Some(1000), None));
    let r = client.lsp_implementation("ra", doc(), at).unwrap();
    assert_eq!((r.script, r.timeout_ms, r.buffer), (Script::Implementation, Some(1000), None));
    let r = client.lsp_declaration("ra", doc(), at).unwrap();
    assert_eq!((r.script, r.timeout_ms, r.buffer), (Script::Declaration, Some(1000), None));

    let r = client.lsp_resolve_code_action("ra", action("Organize", None)).unwrap();
    assert_eq!((r.script, r.timeout_ms, r.buffer), (Script::ResolveCodeAction, Some(5000), Some(0)));
    assert_eq!(r.params.title(), "Organize");

    let r = client.lsp_apply_workspace_edit("ra", empty_edit()).unwrap();
    assert_eq!((r.script, r.timeout_ms, r.buffer), (Script::ApplyWorkspaceEdit, None, None));

    let r = client.lsp_prepare_rename("ra", &buffer, doc(), at).unwrap();
    assert_eq!((r.script, r.timeout_ms, r.buffer), (Script::PrepareRename, Some(1000), Some(2)));
    let r = client.lsp_rename("ra", &buffer, doc(), at, "fresh").unwrap();
    assert_eq!((r.script, r.timeout_ms, r.buffer), (Script::Rename, Some(1000), Some(2)));
    assert_eq!(r.params.new_name, "fresh");

    let options = FormattingOptions {
        tab_size: 4,
        insert_spaces: true,
        trim_trailing_whitespace: None,
        insert_final_newline: Some(true),
        trim_final_newlines: None,
    };
    let r = client.lsp_formatting("ra", &buffer, doc(), options).unwrap();
    assert_eq!((r.script, r.timeout_ms, r.buffer), (Script::Formatting, Some(1000), Some(2)));
    assert_eq!(r.params.options, options);
    let r = client.lsp_range_formatting("ra", &buffer, doc(), range(), options).unwrap();
    assert_eq!((r.script, r.timeout_ms, r.buffer), (Script::RangeFormatting, Some(1000), Some(2)));
    assert_eq!(r.params.range, range());

    assert_eq!(REQUEST_TIMEOUT_MS, 1000);
    assert_eq!(RESOLVE_TIMEOUT_MS, 5000);
}

#[test]
fn code_action_request_carries_the_buffers_diagnostics() {
    let client = connected();
    let diagnostics = vec![diag("first", true), diag("plain", false), diag("second", true)];
    let r = client
        .lsp_get_code_actions("ra", &DocumentIdentifier::BufferId(5), doc(), range(), Ok(diagnostics))
        .unwrap();
    assert_eq!((r.script, r.timeout_ms, r.buffer), (Script::CodeActions, Some(1000), Some(5)));
    assert_eq!(r.params.range, range());
    assert!(r.params.context.only.is_none());
    assert!(r.params.context.trigger_kind.is_none());
    let messages: Vec<&str> = r.params.context.diagnostics.iter().map(|d| d.message.as_str()).collect();
    assert_eq!(messages, vec!["first", "second"]);

    // For a path the diagnostics are not consulted.
    let r = client
        .lsp_get_code_actions(
            "ra",
            &DocumentIdentifier::from_absolute_path("/w/a.rs"),
            doc(),
            range(),
            Err(NeovimError::Api("unused".to_string())),
        )
        .unwrap();
    assert!(r.params.context.diagnostics.is_empty());
    assert_eq!(r.buffer, Some(0));

    let failed = client.lsp_get_code_actions(
        "ra",
        &DocumentIdentifier::BufferId(5),
        doc(),
        range(),
        Err(NeovimError::Api("Failed to get diagnostics: closed".to_string())),
    );
    assert_eq!(
        api_message(failed),
        "Failed to get diagnostics: API error: Failed to get diagnostics: closed"
    );
    assert_eq!(
        NeovimClient::code_action_diagnostics_scope(&DocumentIdentifier::BufferId(5)),
        Some(5)
    );
    assert_eq!(
        NeovimClient::code_action_diagnostics_scope(&DocumentIdentifier::from_project_path("a")),
        None
    );
}

#[test]
fn picking_lsp_diagnostics_keeps_order() {
    let picked = collect_lsp_diagnostics(vec![
        diag("a", true),
        diag("b", true),
        diag("c", false),
        diag("d", true),
    ]);
    let messages: Vec<&str> = picked.iter().map(|d| d.message.as_str()).collect();
    assert_eq!(messages, vec!["a", "b", "d"]);
    assert!(collect_lsp_diagnostics(vec![]).is_empty());
}

#[test]
fn organize_imports_request() {
    let client = connected();
    let r = client
        .lsp_get_organize_imports_actions("ra", &DocumentIdentifier::BufferId(5), doc())
        .unwrap();
    assert_eq!(r.script, Script::CodeActions);
    assert_eq!(
        r.params.range,
        Range { start: Position { line: 0, character: 0 }, end: Position { line: 0, character: 0 } }
    );
    assert_eq!(r.params.context.only, Some(vec![CodeActionKind::SourceOrganizeImports]));
    assert!(r.params.context.diagnostics.is_empty());
    assert_eq!(r.buffer, Some(5));
}

#[test]
fn diagnostics_of_a_clean_buffer_are_an_empty_list() {
    let client = connected();
    assert_eq!(client.get_buffer_diagnostics(0).unwrap(), DiagnosticsScope::Buffer(0));
    assert_eq!(client.get_workspace_diagnostics().unwrap(), DiagnosticsScope::Workspace);
    assert_eq!(client.get_diagnostics(Some(3)).unwrap(), DiagnosticsScope::Buffer(3));
    not_connected(NeovimClient::new().get_buffer_diagnostics(0));
    let found = diagnostics_reply(EditorReply::Decoded(vec![])).unwrap();
    assert!(found.is_empty());
    assert_eq!(
        api_message(diagnostics_reply(EditorReply::Failed("closed".to_string()))),
        "Failed to get diagnostics: closed"
    );
    assert_eq!(
        api_message(diagnostics_reply(EditorReply::Malformed("eof".to_string()))),
        "Failed to parse diagnostics: eof"
    );
}

#[test]
fn replies_of_other_kinds() {
    let listed = lsp_get_code_actions_reply(EditorReply::Decoded(CodeActionResult {
        result: vec![action("a", None), action("b", Some(empty_edit()))],
    }))
    .unwrap();
    assert_eq!(listed.len(), 2);
    assert!(!listed[0].has_edit());
    assert!(listed[1].has_edit());
    assert!(listed[1].edit().is_some());
    assert_eq!(
        api_message(lsp_get_code_actions_reply(EditorReply::Malformed("eof".to_string()))),
        "Failed to parse code actions: eof"
    );
    assert_eq!(
        api_message(lsp_get_code_actions_reply(EditorReply::Failed("x".to_string()))),
        "Failed to get LSP code actions: x"
    );

    let none = lsp_references_reply(EditorReply::Decoded(NvimExecuteLuaResult::Success(None))).unwrap();
    assert!(none.is_empty());
    let some = lsp_references_reply(EditorReply::Decoded(NvimExecuteLuaResult::Success(Some(vec![
        Location { uri: "file:///w/a.rs".to_string(), range: range() },
    ]))))
    .unwrap();
    assert_eq!(some.len(), 1);
    assert_eq!(some[0].uri, "file:///w/a.rs");
    assert_eq!(
        api_message(lsp_references_reply(EditorReply::Failed("x".to_string()))),
        "Failed to get LSP references: x"
    );

    let resolved = lsp_resolve_code_action_reply(EditorReply::Decoded(NvimExecuteLuaResult::Success(
        action("a", Some(empty_edit())),
    )))
    .unwrap();
    assert!(resolved.has_edit());
}

#[test]
fn running_lua() {
    let client = connected();
    assert!(client.execute_lua("return 1").is_ok());
    assert_eq!(api_message(client.execute_lua("")), "Lua code cannot be empty");
    assert_eq!(api_message(client.execute_lua(" \n\t ")), "Lua code cannot be empty");
    assert_eq!(api_message(NeovimClient::new().execute_lua("")), "Lua code cannot be empty");
    not_connected(NeovimClient::new().execute_lua("return 1"));
    assert_eq!(NeovimClient::execute_lua_reply(Ok(7)).unwrap(), 7);
    assert_eq!(
        api_message(NeovimClient::execute_lua_reply::<u8>(Err("syntax".to_string()))),
        "Lua execution failed: syntax"
    );
    assert!(client.lsp_get_clients().is_ok());
    not_connected(NeovimClient::new().lsp_get_clients());
    assert!(NeovimClient::setup_diagnostics_changed_autocmd(Ok(())).is_ok());
    assert_eq!(
        api_message(NeovimClient::setup_diagnostics_changed_autocmd(Err("x".to_string()))),
        "Failed to set up diagnostics changed autocmd: x"
    );
    assert_eq!(
        api_message(NeovimClient::get_buffers_reply(Err(NeovimError::Api(
            "Lua execution failed: x".to_string()
        )))),
        "Failed to get buffer info: API error: Lua execution failed: x"
    );
    assert_eq!(
        api_message(NeovimClient::get_buffers_reply(Ok(Err("eof".to_string())))),
        "Failed to parse buffers: eof"
    );
    assert!(NeovimClient::get_buffers_reply(Ok(Ok(vec![]))).unwrap().is_empty());
}

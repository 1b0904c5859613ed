use nvim_mcp::neovim::client::{
    make_text_document_identifier_from_path, text_document_identifier_from_canonical,
    DocumentIdentifier,
};
use nvim_mcp::neovim::NeovimError;

#[test]
fn test_make_text_document_identifier_from_path() {
    // A source file of this library, which exists
    let current_file = "src/neovim/client.rs";
    let result = make_text_document_identifier_from_path(current_file);

    assert!(result.is_ok());
    let text_doc = result.unwrap();
    assert!(text_doc.uri.starts_with("file://"));
    assert!(text_doc.uri.ends_with("client.rs"));
    assert_eq!(text_doc.version, None);
}

#[test]
fn test_make_text_document_identifier_from_path_invalid() {
    let result = make_text_document_identifier_from_path("/nonexistent/path/file.rs");
    assert!(result.is_err());

    if let Err(NeovimError::Api(msg)) = result {
        assert!(msg.contains("Failed to resolve path"));
    } else {
        panic!("Expected NeovimError::Api");
    }
}

#[test]
fn test_document_identifier_creation() {
    let buffer_id = DocumentIdentifier::from_buffer_id(42);
    assert_eq!(buffer_id, DocumentIdentifier::BufferId(42));

    let rel_path = DocumentIdentifier::from_project_path("src/lib.rs");
    assert_eq!(
        rel_path,
        DocumentIdentifier::ProjectRelativePath(String::from("src/lib.rs"))
    );

    let abs_path = DocumentIdentifier::from_absolute_path("/usr/src/lib.rs");
    assert_eq!(
        abs_path,
        DocumentIdentifier::AbsolutePath(String::from("/usr/src/lib.rs"))
    );
}

#[test]
fn identifier_from_canonical_path() {
    let doc = text_document_identifier_from_canonical("a.rs", Ok("/w/a.rs".to_string())).unwrap();
    assert_eq!(doc.uri, "file:///w/a.rs");
    assert_eq!(doc.version, None);
    match text_document_identifier_from_canonical("a.rs", Err("gone".to_string())) {
        Err(NeovimError::Api(msg)) => assert_eq!(msg, "Failed to resolve path a.rs: gone"),
        _ => panic!("expected an API error"),
    }
}

#[test]
fn resolving_a_missing_absolute_path_fails() {
    let result = make_text_document_identifier_from_path("/definitely/not/a/real/path");
    match result {
        Err(NeovimError::Api(msg)) => {
            assert!(msg.starts_with("Failed to resolve path /definitely/not/a/real/path: "))
        }
        _ => panic!("expected an API error"),
    }
}

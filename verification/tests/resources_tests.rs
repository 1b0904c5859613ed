use nvim_mcp::config::SocketGlobMode;
use nvim_mcp::server::registry::{ToolError, ToolErrorKind};
use nvim_mcp::server::resources::{
    describe_connections, diagnostics_request, resources_for, ResourceRequest,
};
use nvim_mcp::server::targets::{
    find_get_all_targets, single_file_targets, target_pattern, targets_from_glob,
};
use nvim_mcp::NeovimMcpServer;
use tempfile::TempDir;

fn connected() -> (NeovimMcpServer, String) {
    let mut server = NeovimMcpServer::new("/tmp".to_string(), SocketGlobMode::Directory);
    let id = server.connect_or_replace("/tmp/a.sock", Ok(())).unwrap();
    (server, id)
}

fn fault(outcome: Result<ResourceRequest, ToolError>) -> (ToolErrorKind, String) {
    match outcome {
        Err(ToolError { kind, message }) => (kind, message),
        Ok(_) => panic!("expected a failure"),
    }
}

#[test]
fn connections_uri_asks_for_connections() {
    let (server, _) = connected();
    assert!(matches!(
        server.read_resource("nvim-connections://"),
        Ok(ResourceRequest::Connections)
    ));
}

#[test]
fn workspace_diagnostics_uri() {
    let (server, id) = connected();
    let uri = format!("nvim-diagnostics://{id}/workspace");
    match server.read_resource(&uri) {
        Ok(ResourceRequest::WorkspaceDiagnostics { connection_id }) => {
            assert_eq!(connection_id, id)
        }
        _ => panic!("expected workspace diagnostics"),
    }
}

#[test]
fn buffer_diagnostics_uri() {
    let (server, id) = connected();
    let uri = format!("nvim-diagnostics://{id}/buffer/12");
    match server.read_resource(&uri) {
        Ok(ResourceRequest::BufferDiagnostics { connection_id, buffer_id }) => {
            assert_eq!(connection_id, id);
            assert_eq!(buffer_id, 12);
        }
        _ => panic!("expected buffer diagnostics"),
    }
}

#[test]
fn malformed_buffer_id_is_invalid_params() {
    let (server, id) = connected();
    for rest in ["buffer/x", "buffer/-1", "buffer/1/2", "buffer/99999999999999999999999"] {
        let uri = format!("nvim-diagnostics://{id}/{rest}");
        assert_eq!(
            fault(server.read_resource(&uri)),
            (ToolErrorKind::InvalidParams, "Invalid buffer ID".to_string())
        );
    }
}

#[test]
fn unknown_connection_in_uri_is_not_found() {
    let (server, _) = connected();
    assert_eq!(
        fault(server.read_resource("nvim-diagnostics://nobody/workspace")),
        (
            ToolErrorKind::InvalidRequest,
            "No Neovim connection found for ID: nobody".to_string()
        )
    );
}

#[test]
fn other_uris_are_no_resource() {
    let (server, id) = connected();
    for uri in [
        "",
        "nvim-connections://x",
        "file:///tmp/a",
        "nvim-diagnostics://",
        "nvim-diagnostics://only-id",
        &format!("nvim-diagnostics://{id}/"),
        &format!("nvim-diagnostics://{id}/other"),
        &format!("nvim-diagnostics://{id}/buffer"),
    ] {
        assert_eq!(
            fault(server.read_resource(uri)),
            (ToolErrorKind::ResourceNotFound, "resource_not_found".to_string()),
            "for {uri}"
        );
    }
}

#[test]
fn plan_with_given_captures() {
    let (server, id) = connected();
    let uri = format!("nvim-diagnostics://{id}/workspace");
    assert_eq!(
        fault(server.plan_resource(&uri, Err("broken".to_string()))),
        (ToolErrorKind::InternalError, "Failed to compile regex".to_string())
    );
    assert_eq!(
        fault(server.plan_resource(&uri, Ok(None))).0,
        ToolErrorKind::ResourceNotFound
    );
    assert_eq!(
        fault(server.plan_resource(&uri, Ok(Some(vec![Some(uri.clone())])))).0,
        ToolErrorKind::ResourceNotFound
    );
    assert_eq!(
        fault(server.plan_resource(&uri, Ok(Some(vec![Some(uri.clone()), Some(id.clone()), None])))).0,
        ToolErrorKind::ResourceNotFound
    );
    let planned = server.plan_resource(
        &uri,
        Ok(Some(vec![Some(uri.clone()), Some(id.clone()), Some("buffer/+3".to_string())])),
    );
    match planned {
        Ok(ResourceRequest::BufferDiagnostics { connection_id, buffer_id }) => {
            assert_eq!(connection_id, id);
            assert_eq!(buffer_id, 3);
        }
        _ => panic!("expected buffer diagnostics"),
    }
}

#[test]
fn diagnostics_request_kinds() {
    assert!(matches!(
        diagnostics_request("abc", "workspace"),
        Ok(ResourceRequest::WorkspaceDiagnostics { .. })
    ));
    assert!(matches!(
        diagnostics_request("abc", "buffer/0"),
        Ok(ResourceRequest::BufferDiagnostics { buffer_id: 0, .. })
    ));
    assert_eq!(fault(diagnostics_request("abc", "buffer/")).0, ToolErrorKind::InvalidParams);
    assert_eq!(fault(diagnostics_request("abc", "workspaces")).0, ToolErrorKind::ResourceNotFound);
}

#[test]
fn listed_resources() {
    let (server, id) = connected();
    let resources = server.list_resources();
    assert_eq!(resources.len(), 2);
    assert_eq!(resources[0].uri, "nvim-connections://");
    assert_eq!(resources[0].name, "Active Neovim Connections");
    assert_eq!(resources[0].description, "List of active Neovim connections");
    assert_eq!(resources[0].mime_type, "application/json");
    assert_eq!(resources[1].uri, format!("nvim-diagnostics://{id}/workspace"));
    assert_eq!(resources[1].name, format!("Workspace Diagnostics ({id})"));
    assert_eq!(resources[1].description, format!("Diagnostic messages for connection {id}"));
    assert_eq!(resources[1].mime_type, "application/json");
}

#[test]
fn resources_for_a_listing_keep_its_order() {
    let all = vec![("b".to_string(), None), ("a".to_string(), Some("t".to_string()))];
    let resources = resources_for(&all);
    assert_eq!(resources.len(), 3);
    assert_eq!(resources[1].uri, "nvim-diagnostics://b/workspace");
    assert_eq!(resources[2].uri, "nvim-diagnostics://a/workspace");
    let shown = describe_connections(&all);
    assert_eq!(shown.len(), 2);
    assert_eq!((shown[0].id.as_str(), shown[0].target.as_str()), ("b", "Unknown"));
    assert_eq!((shown[1].id.as_str(), shown[1].target.as_str()), ("a", "t"));
}

#[test]
fn listed_connections() {
    let (mut server, id) = connected();
    let other = server.connect_or_replace("/tmp/b.sock", Ok(())).unwrap();
    let mut shown: Vec<(String, String)> =
        server.list_connections().into_iter().map(|c| (c.id, c.target)).collect();
    shown.sort();
    let mut expected =
        vec![(id, "/tmp/a.sock".to_string()), (other, "/tmp/b.sock".to_string())];
    expected.sort();
    assert_eq!(shown, expected);
}

#[test]
fn patterns_for_each_mode() {
    assert_eq!(
        target_pattern("/run/nvim", SocketGlobMode::Directory),
        Some("/run/nvim/nvim-mcp.*.sock".to_string())
    );
    assert_eq!(target_pattern("/run/nvim.sock", SocketGlobMode::SingleFile), None);
    assert_eq!(
        target_pattern("/run/*.sock", SocketGlobMode::GlobPattern),
        Some("/run/*.sock".to_string())
    );
}

#[test]
fn glob_outcomes_as_targets() {
    assert!(targets_from_glob(Err("bad pattern".to_string())).is_empty());
    assert!(targets_from_glob(Ok(vec![])).is_empty());
    let found = targets_from_glob(Ok(vec![
        Ok("/a".to_string()),
        Err("unreadable".to_string()),
        Ok("/b".to_string()),
    ]));
    assert_eq!(found, vec!["/a".to_string(), "/b".to_string()]);
}

fn touch(dir: &TempDir, name: &str) -> tempfile::NamedTempFile {
    tempfile::Builder::new()
        .prefix(name)
        .rand_bytes(0)
        .tempfile_in(dir.path())
        .unwrap()
}

#[test]
fn finds_sockets_in_a_directory() {
    let dir = TempDir::new().unwrap();
    let _a = touch(&dir, "nvim-mcp.a.sock");
    let _b = touch(&dir, "nvim-mcp.b.sock");
    let _c = touch(&dir, "other.sock");
    let path = dir.path().to_string_lossy().to_string();
    let found = find_get_all_targets(&path, &SocketGlobMode::Directory);
    assert_eq!(
        found,
        vec![format!("{path}/nvim-mcp.a.sock"), format!("{path}/nvim-mcp.b.sock")]
    );
}

#[test]
fn finds_the_single_file_while_it_exists() {
    let dir = TempDir::new().unwrap();
    let file = touch(&dir, "one.sock");
    let path = file.path().to_string_lossy().to_string();
    assert_eq!(find_get_all_targets(&path, &SocketGlobMode::SingleFile), vec![path.clone()]);
    drop(file);
    assert!(find_get_all_targets(&path, &SocketGlobMode::SingleFile).is_empty());
}

#[test]
fn finds_by_glob_pattern_and_swallows_bad_patterns() {
    let dir = TempDir::new().unwrap();
    let _a = touch(&dir, "x1.sock");
    let _b = touch(&dir, "x2.txt");
    let path = dir.path().to_string_lossy().to_string();
    let found = find_get_all_targets(&format!("{path}/*.sock"), &SocketGlobMode::GlobPattern);
    assert_eq!(found, vec![format!("{path}/x1.sock")]);
    assert!(find_get_all_targets("/tmp/***", &SocketGlobMode::GlobPattern).is_empty());
}

#[test]
fn targets_of_a_single_file() {
    assert_eq!(single_file_targets("/run/one.sock", true), vec!["/run/one.sock".to_string()]);
    assert!(single_file_targets("/run/one.sock", false).is_empty());
}

use nvim_mcp::config::SocketGlobMode;
use nvim_mcp::neovim::NeovimError;
use nvim_mcp::server::registry::{
    b3sum, escape_path, git_root_from_output, to_hex, ToolError, ToolErrorKind,
};
use nvim_mcp::NeovimMcpServer;

fn server() -> NeovimMcpServer {
    NeovimMcpServer::new("/tmp".to_string(), SocketGlobMode::Directory)
}

#[test]
fn hex_of_bytes() {
    assert_eq!(to_hex(&[]), "");
    assert_eq!(to_hex(&[0x00, 0x0f, 0xa5, 0xff]), "000fa5ff");
    assert_eq!(to_hex(&[0x12, 0x34, 0x56, 0x78, 0x9a, 0xbc, 0xde, 0xf0]), "123456789abcdef0");
}

#[test]
fn b3sum_of_empty_input() {
    assert_eq!(
        b3sum(""),
        "af1349b9f5f9a1a6a0404dea36dcc9499bcb25c9adc112b7cc9a93cae41f3262"
    );
}

#[test]
fn b3sum_agrees_with_blake3() {
    for input in ["/tmp/nvim-mcp-test.sock", "127.0.0.1:6666", "héllo"] {
        let expected = blake3::hash(input.as_bytes()).to_hex().to_string();
        assert_eq!(b3sum(input), expected);
        assert_eq!(b3sum(input).len(), 64);
    }
}

#[test]
fn connect_to_socket_gives_first_window_of_hash() {
    let mut server = server();
    let target = "/tmp/nvim-mcp-test.sock";
    let id = server.connect_or_replace(target, Ok(())).unwrap();
    let full = blake3::hash(target.as_bytes()).to_hex().to_string();
    assert_eq!(id.len(), 7);
    assert_eq!(id, &full[0..7]);
    assert_eq!(server.get_connection(&id).unwrap(), Some(target.to_string()));
}

#[test]
fn connecting_twice_yields_the_same_id() {
    let mut server = server();
    let first = server.connect_or_replace("127.0.0.1:6666", Ok(())).unwrap();
    let second = server.connect_or_replace("127.0.0.1:6666", Ok(())).unwrap();
    assert_eq!(first, second);
    assert_eq!(server.connections().len(), 1);
}

#[test]
fn distinct_targets_get_distinct_ids() {
    let mut server = server();
    let a = server.connect_or_replace("/tmp/a.sock", Ok(())).unwrap();
    let b = server.connect_or_replace("/tmp/b.sock", Ok(())).unwrap();
    assert_ne!(a, b);
    assert_eq!(server.get_connection(&a).unwrap(), Some("/tmp/a.sock".to_string()));
    assert_eq!(server.get_connection(&b).unwrap(), Some("/tmp/b.sock".to_string()));
    assert_eq!(server.connections().len(), 2);
}

#[test]
fn generated_id_is_stable_and_short() {
    let server = server();
    let id = server.generate_shorter_connection_id("/tmp/nvim-mcp-test.sock");
    assert_eq!(id.len(), 7);
    assert_eq!(id, server.generate_shorter_connection_id("/tmp/nvim-mcp-test.sock"));
    assert_eq!(id, &b3sum("/tmp/nvim-mcp-test.sock")[0..7]);
}

#[test]
fn failed_transport_is_passed_on_and_registers_nothing() {
    let mut server = server();
    let failed = server.connect_or_replace(
        "/tmp/a.sock",
        Err(NeovimError::Connection("Connection failed: refused".to_string())),
    );
    match failed {
        Err(ToolError { kind, message }) => {
            assert_eq!(kind, ToolErrorKind::InvalidRequest);
            assert_eq!(message, "Connection failed: refused");
        }
        Ok(_) => panic!("expected a failure"),
    }
    assert!(server.connections().is_empty());
}

#[test]
fn failed_reconnect_leaves_the_session_closed_and_the_id_moves_on() {
    let mut server = server();
    let id = server.connect_or_replace("/tmp/a.sock", Ok(())).unwrap();
    let failed =
        server.connect_or_replace("/tmp/a.sock", Err(NeovimError::Api("setup".to_string())));
    match failed {
        Err(ToolError { kind, message }) => {
            assert_eq!(kind, ToolErrorKind::InternalError);
            assert_eq!(message, "setup");
        }
        Ok(_) => panic!("expected a failure"),
    }
    assert_eq!(server.get_connection(&id).unwrap(), None);
    // The closed session still holds the first window, so the next one is taken.
    let next = server.generate_shorter_connection_id("/tmp/a.sock");
    assert_eq!(next, &b3sum("/tmp/a.sock")[1..8]);
}

#[test]
fn unknown_id_is_not_found() {
    let mut server = server();
    match server.get_connection("0000000") {
        Err(ToolError { kind, message }) => {
            assert_eq!(kind, ToolErrorKind::InvalidRequest);
            assert_eq!(message, "No Neovim connection found for ID: 0000000");
        }
        Ok(_) => panic!("expected not found"),
    }
    match server.remove("0000000") {
        Err(ToolError { kind, message }) => {
            assert_eq!(kind, ToolErrorKind::InvalidRequest);
            assert_eq!(message, "No Neovim connection found for ID: 0000000");
        }
        Ok(_) => panic!("expected not found"),
    }
}

#[test]
fn removing_a_live_id_succeeds_once() {
    let mut server = server();
    let id = server.connect_or_replace("/tmp/a.sock", Ok(())).unwrap();
    assert_eq!(server.remove(&id).unwrap(), "/tmp/a.sock");
    match server.remove(&id) {
        Err(ToolError { kind, .. }) => assert_eq!(kind, ToolErrorKind::InvalidRequest),
        Ok(_) => panic!("expected not found"),
    }
    assert!(server.connections().is_empty());
}

#[test]
fn removing_a_closed_session_reports_the_failed_disconnect() {
    let mut server = server();
    let id = server.connect_or_replace("/tmp/a.sock", Ok(())).unwrap();
    let _ = server.connect_or_replace("/tmp/a.sock", Err(NeovimError::NotConnected));
    match server.remove(&id) {
        Err(ToolError { kind, message }) => {
            assert_eq!(kind, ToolErrorKind::InternalError);
            assert_eq!(message, "Failed to disconnect: No active connection");
        }
        Ok(_) => panic!("expected a failure"),
    }
    assert!(server.connections().is_empty());
}

#[test]
fn auto_connection_only_in_locked_mode() {
    let mut open = NeovimMcpServer::new("/tmp".to_string(), SocketGlobMode::Directory);
    assert!(!open.is_locked_mode());
    assert_eq!(open.get_auto_connection_target(), None);
    assert_eq!(open.initialize_auto_connection(Ok(())).unwrap(), None);
    assert!(open.connections().is_empty());

    let mut locked = NeovimMcpServer::new("/tmp/one.sock".to_string(), SocketGlobMode::SingleFile);
    assert!(locked.is_locked_mode());
    assert_eq!(locked.get_auto_connection_target(), Some("/tmp/one.sock".to_string()));
    let id = locked.initialize_auto_connection(Ok(())).unwrap().unwrap();
    assert_eq!(id, &b3sum("/tmp/one.sock")[0..7]);
    assert_eq!(locked.get_connection(&id).unwrap(), Some("/tmp/one.sock".to_string()));
    assert_eq!(locked.socket_path(), "/tmp/one.sock");
    assert_eq!(locked.socket_mode(), SocketGlobMode::SingleFile);
}

#[test]
fn session_failures_as_tool_errors() {
    let e = ToolError::from_neovim(NeovimError::Connection("c".to_string()));
    assert_eq!((e.kind, e.message.as_str()), (ToolErrorKind::InvalidRequest, "c"));
    let e = ToolError::from_neovim(NeovimError::Api("a".to_string()));
    assert_eq!((e.kind, e.message.as_str()), (ToolErrorKind::InternalError, "a"));
    let e = ToolError::from_neovim(NeovimError::Lsp { code: -32601, message: "m".to_string() });
    assert_eq!(
        (e.kind, e.message.as_str()),
        (ToolErrorKind::InvalidRequest, "LSP Error: -32601, m")
    );
    let e = ToolError::from_neovim(NeovimError::NotConnected);
    assert_eq!((e.kind, e.message.as_str()), (ToolErrorKind::InvalidRequest, "No active connection"));
    let e = ToolError::from_neovim(NeovimError::AlreadyConnected("t".to_string()));
    assert_eq!((e.kind, e.message.as_str()), (ToolErrorKind::InvalidRequest, "Already connected to t"));
}

#[test]
fn escape_path_trims_and_replaces_slashes() {
    assert_eq!(escape_path("  /home/me/project \n"), "%home%me%project");
    assert_eq!(escape_path("plain"), "plain");
    assert_eq!(escape_path("   "), "");
    for p in [" a/b ", "/x/ y/", "\t/tmp//z\u{a0}"] {
        assert_eq!(escape_path(p), p.trim().replace("/", "%"));
    }
}

#[test]
fn git_root_from_command_output() {
    assert_eq!(
        git_root_from_output(true, Some("/home/me/project\n".to_string())),
        Some("/home/me/project".to_string())
    );
    assert_eq!(git_root_from_output(false, Some("/home/me/project\n".to_string())), None);
    assert_eq!(git_root_from_output(true, None), None);
}

#[test]
fn tcp_connection_report() {
    let mut server = server();
    let report = server.connect_tcp("127.0.0.1:6666", Ok(())).unwrap();
    assert_eq!(report.target, "127.0.0.1:6666");
    assert_eq!(report.message, "Connected to Neovim at 127.0.0.1:6666");
    assert_eq!(report.connection_id, &b3sum("127.0.0.1:6666")[0..7]);
}

#[test]
fn id_from_hash_skips_windows_taken_by_other_targets() {
    let mut server = server();
    let taken = server.connect_or_replace("/tmp/a.sock", Ok(())).unwrap();
    let hash = format!("{taken}0123456789");

    // The same target keeps the window that it holds.
    assert_eq!(server.id_from_hash(&hash, "/tmp/a.sock"), taken);
    // Another target moves on to the next window.
    assert_eq!(server.id_from_hash(&hash, "/tmp/b.sock"), &hash[1..8]);
    // Where every window is taken, the whole hash is the id.
    assert_eq!(server.id_from_hash(&taken, "/tmp/b.sock"), taken);
    // A hash that is too short for a window is the id itself.
    assert_eq!(server.id_from_hash("abc", "/tmp/b.sock"), "abc");
    assert_eq!(server.id_from_hash("", "/tmp/b.sock"), "");
    // With nothing in the way, the first window is taken.
    assert_eq!(server.id_from_hash("0123456789abcdef", "/tmp/b.sock"), "0123456");
}

use hotkey_manager::server::{Acceptor, Server};
use hotkey_manager::DEFAULT_SOCKET_PATH;

#[test]
fn test_server_with_methods() {
    let server = Server::new().with_socket_path("/custom/path.sock");
    assert_eq!(server.socket_path, "/custom/path.sock");

    let server = Server::new()
        .with_socket_path("/initial/path.sock")
        .with_socket_path("/another/path.sock");
    assert_eq!(server.socket_path, "/another/path.sock");
}

#[test]
fn test_server_default() {
    let server = Server::default();
    assert_eq!(server.socket_path, DEFAULT_SOCKET_PATH);
}

#[test]
fn single_client_server_serves_one_then_exits() {
    let server = Server::new();
    assert!(!server.multi_client);
    let mut acceptor = Acceptor::new(server.multi_client);
    assert!(acceptor.on_connect());
    assert!(!acceptor.on_connect());
    assert!(!acceptor.on_disconnect());
}

#[test]
fn multi_client_server_serves_all_and_keeps_running() {
    let server = Server::new().with_multi_client(true);
    let mut acceptor = Acceptor::new(server.multi_client);
    assert!(acceptor.on_connect());
    assert!(acceptor.on_connect());
    assert!(acceptor.on_disconnect());
}

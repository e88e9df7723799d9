use hotkey_manager::client::{ConnectAction, ConnectEvent, Connector, ManagedClientConfig};
use hotkey_manager::process::ProcessConfig;
use hotkey_manager::{Error, DEFAULT_SOCKET_PATH};

fn refused() -> Result<(), Error> {
    Err(Error::Io("Connection refused".to_string()))
}

#[test]
fn test_config_builder() {
    let config = ManagedClientConfig::new("/custom/socket.sock")
        .server_startup_timeout(2000)
        .connection_timeout(10000)
        .max_connection_attempts(3)
        .connection_retry_delay(500);

    assert_eq!(config.socket_path, "/custom/socket.sock");
    assert_eq!(config.server_startup_timeout, 2000);
    assert_eq!(config.connection_timeout, 10000);
    assert_eq!(config.max_connection_attempts, 3);
    assert_eq!(config.connection_retry_delay, 500);
}

#[test]
fn config_defaults() {
    let config = ManagedClientConfig::default();
    assert_eq!(config.socket_path, DEFAULT_SOCKET_PATH);
    assert!(config.server_config.is_none());
    assert_eq!(config.server_startup_timeout, 1000);
    assert_eq!(config.connection_timeout, 5000);
    assert_eq!(config.max_connection_attempts, 5);
    assert_eq!(config.connection_retry_delay, 200);
    let with = config.with_server_executable("/bin/app");
    assert_eq!(with.server_config.unwrap().args, vec!["--server"]);
}

#[test]
fn running_server_is_used_and_never_spawned() {
    let (mut c, first) = Connector::new(ManagedClientConfig::new("/s").with_server_executable("/bin/app"));
    assert!(matches!(first, ConnectAction::Dial { timeout: 5000 }));
    let next = c.on_event(ConnectEvent::Dialed { result: Ok(()), elapsed: 0 });
    assert!(matches!(next, ConnectAction::Connected { spawned: false }));
}

#[test]
fn no_server_and_no_spawn_policy_fails() {
    let (mut c, _) = Connector::new(ManagedClientConfig::new("/s"));
    let next = c.on_event(ConnectEvent::Dialed { result: refused(), elapsed: 0 });
    match next {
        ConnectAction::Failed(Error::Ipc(m)) => {
            assert_eq!(m, "No server running and no server configuration provided")
        }
        other => panic!("unexpected {other:?}"),
    }
}

#[test]
fn auto_spawn_then_poll_until_connected() {
    let config = ManagedClientConfig::new("/s").with_server(ProcessConfig::new("/bin/app"));
    let (mut c, _) = Connector::new(config);
    assert!(matches!(
        c.on_event(ConnectEvent::Dialed { result: refused(), elapsed: 0 }),
        ConnectAction::Spawn
    ));
    assert!(matches!(
        c.on_event(ConnectEvent::Spawned(Ok(()))),
        ConnectAction::Dial { timeout: 5000 }
    ));
    let mut pauses = Vec::new();
    for elapsed in [5u64, 20, 45] {
        match c.on_event(ConnectEvent::Dialed { result: refused(), elapsed }) {
            ConnectAction::Sleep { millis } => pauses.push(millis),
            other => panic!("unexpected {other:?}"),
        }
        assert!(matches!(c.on_event(ConnectEvent::Slept), ConnectAction::Dial { .. }));
    }
    assert_eq!(pauses, vec![10, 20, 30]);
    assert!(matches!(
        c.on_event(ConnectEvent::Dialed { result: Ok(()), elapsed: 80 }),
        ConnectAction::Connected { spawned: true }
    ));
}

#[test]
fn poll_pause_grows_to_the_cap() {
    let config = ManagedClientConfig::new("/s")
        .with_server(ProcessConfig::new("/bin/app"))
        .server_startup_timeout(100000);
    let (mut c, _) = Connector::new(config);
    c.on_event(ConnectEvent::Dialed { result: refused(), elapsed: 0 });
    c.on_event(ConnectEvent::Spawned(Ok(())));
    let mut pauses = Vec::new();
    for _ in 0..13 {
        match c.on_event(ConnectEvent::Dialed { result: refused(), elapsed: 1 }) {
            ConnectAction::Sleep { millis } => pauses.push(millis),
            other => panic!("unexpected {other:?}"),
        }
        c.on_event(ConnectEvent::Slept);
    }
    assert_eq!(pauses, vec![10, 20, 30, 40, 50, 60, 70, 80, 90, 100, 100, 100, 100]);
}

#[test]
fn retries_then_stops_the_spawned_server() {
    let config = ManagedClientConfig::new("/s")
        .with_server(ProcessConfig::new("/bin/app"))
        .max_connection_attempts(2)
        .connection_retry_delay(250);
    let (mut c, _) = Connector::new(config);
    c.on_event(ConnectEvent::Dialed { result: refused(), elapsed: 0 });
    c.on_event(ConnectEvent::Spawned(Ok(())));
    assert!(matches!(
        c.on_event(ConnectEvent::Dialed { result: refused(), elapsed: 1500 }),
        ConnectAction::Dial { .. }
    ));
    assert!(matches!(
        c.on_event(ConnectEvent::Dialed { result: refused(), elapsed: 1600 }),
        ConnectAction::Sleep { millis: 250 }
    ));
    assert!(matches!(c.on_event(ConnectEvent::Slept), ConnectAction::Dial { .. }));
    let last = Err(Error::Io("last".to_string()));
    assert!(matches!(
        c.on_event(ConnectEvent::Dialed { result: last, elapsed: 2000 }),
        ConnectAction::StopServer
    ));
    match c.on_event(ConnectEvent::Stopped(Ok(()))) {
        ConnectAction::Failed(e) => assert_eq!(e, Error::Io("last".to_string())),
        other => panic!("unexpected {other:?}"),
    }
}

#[test]
fn spawn_failure_is_reported() {
    let config = ManagedClientConfig::new("/s").with_server(ProcessConfig::new("/bin/app"));
    let (mut c, _) = Connector::new(config);
    c.on_event(ConnectEvent::Dialed { result: refused(), elapsed: 0 });
    let e = Error::HotkeyOperation("Server process died during startup".to_string());
    match c.on_event(ConnectEvent::Spawned(Err(e.clone()))) {
        ConnectAction::Failed(got) => assert_eq!(got, e),
        other => panic!("unexpected {other:?}"),
    }
}

#[test]
fn zero_retries_stop_with_message() {
    let config = ManagedClientConfig::new("/s")
        .with_server(ProcessConfig::new("/bin/app"))
        .max_connection_attempts(0);
    let (mut c, _) = Connector::new(config);
    c.on_event(ConnectEvent::Dialed { result: refused(), elapsed: 0 });
    c.on_event(ConnectEvent::Spawned(Ok(())));
    assert!(matches!(
        c.on_event(ConnectEvent::Dialed { result: refused(), elapsed: 1000 }),
        ConnectAction::StopServer
    ));
    match c.on_event(ConnectEvent::Stopped(Ok(()))) {
        ConnectAction::Failed(Error::Ipc(m)) => {
            assert_eq!(m, "Failed to connect after all retry attempts")
        }
        other => panic!("unexpected {other:?}"),
    }
}

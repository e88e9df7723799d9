use hotkey_manager::process::{ProcessBuilder, ProcessConfig, ServerProcess};
use hotkey_manager::Error;

#[test]
fn test_process_config() {
    let config = ProcessConfig::new("/usr/bin/test")
        .arg("--verbose")
        .args(vec!["--port", "8080"])
        .env("RUST_LOG", "debug")
        .startup_delay(1000)
        .inherit_env(false);

    assert_eq!(config.executable, "/usr/bin/test");
    assert_eq!(config.args, vec!["--server", "--verbose", "--port", "8080"]);
    assert_eq!(config.env, vec![("RUST_LOG".to_string(), "debug".to_string())]);
    assert_eq!(config.startup_delay, 1000);
    assert!(!config.inherit_env);
}

#[test]
fn test_process_builder() {
    let process = ProcessBuilder::new("/usr/bin/test")
        .arg("--verbose")
        .env("TEST", "value")
        .build();

    assert_eq!(process.config().executable, "/usr/bin/test");
    assert_eq!(process.config().args, vec!["--server", "--verbose"]);
}

#[test]
fn process_config_defaults() {
    let config = ProcessConfig::new("/bin/x");
    assert_eq!(config.startup_delay, 500);
    assert!(config.inherit_env);
    assert!(config.env.is_empty());
}

#[test]
fn launch_bookkeeping() {
    let mut p = ServerProcess::new(ProcessConfig::new("/bin/x"));
    assert_eq!(p.pid(), None);
    assert!(p.begin_start().is_ok());
    p.launched(4242);
    assert_eq!(p.pid(), Some(4242));
    assert_eq!(
        p.begin_start(),
        Err(Error::HotkeyOperation("Server is already running".to_string()))
    );
    assert!(p.confirm_started(true).is_ok());
    assert_eq!(p.begin_stop(), Some(4242));
    assert_eq!(p.begin_stop(), None);
    assert!(!p.is_running());
}

#[test]
fn process_that_dies_during_startup_fails() {
    let mut p = ServerProcess::new(ProcessConfig::new("/bin/x"));
    p.launched(7);
    assert_eq!(
        p.confirm_started(false),
        Err(Error::HotkeyOperation("Server process died during startup".to_string()))
    );
    assert!(!p.is_running());
}

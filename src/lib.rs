//! Global hotkeys owned by one background process and driven from short-lived clients.
//!
//! The pieces, leaf to root:
//! - [`key`]: key combinations and their canonical text, which parses back to the same key;
//! - [`ipc`]: requests, replies and events, and their length-prefixed frames;
//! - [`registry`]: the server's active registrations, replaced all or nothing on a rebind;
//! - [`server`]: the server's settings and whether it serves one client or many;
//! - [`process`]: how the server process is launched, and the bookkeeping of a launch;
//! - [`client`]: dialing the server, launching it and polling until it answers;
//! - [`mode`] and [`state`]: mode trees, and the stack of entered modes that turns each
//!   key press into a command, a change of mode or the end of the session;
//! - [`logs`]: a bounded buffer of recent log lines.

use vstd::prelude::*;

pub mod client;
pub mod error;
pub mod ipc;
pub mod key;
pub mod logs;
pub mod mode;
pub mod process;
pub mod registry;
pub mod server;
pub mod state;
pub mod text;

pub use client::ManagedClientConfig;
pub use error::Error;
pub use key::{Code, Key, Modifiers};
pub use process::{ProcessBuilder, ProcessConfig, ServerProcess};
pub use server::Server;

verus! {

/// Socket path used when none is configured.
pub const DEFAULT_SOCKET_PATH: &'static str = "/tmp/hotkey-manager.sock";

} // verus!

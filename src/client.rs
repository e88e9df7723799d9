//! Connection management: dial the server, or launch it and poll until it answers.

use vstd::prelude::*;

use crate::error::Error;
use crate::process::{views, ProcessConfig};
use crate::DEFAULT_SOCKET_PATH;

verus! {

/// The first pause between polls of a freshly launched server, in milliseconds.
pub const FIRST_POLL_INTERVAL_MS: u64 = 10;

/// How much each pause between polls grows, in milliseconds.
pub const POLL_INTERVAL_STEP_MS: u64 = 10;

/// The pause between polls stops growing once it reaches this, in milliseconds.
pub const MAX_POLL_INTERVAL_MS: u64 = 100;

/// How a client reaches the server. Durations are in milliseconds.
#[derive(Debug, Clone)]
pub struct ManagedClientConfig {
    /// Path of the server's socket.
    pub socket_path: String,
    /// How to launch the server when none answers; without it, none is launched.
    pub server_config: Option<ProcessConfig>,
    /// How long to poll a freshly launched server before falling back to plain retries.
    pub server_startup_timeout: u64,
    /// How long one dial may take.
    pub connection_timeout: u64,
    /// How many plain retries to make after the startup polling.
    pub max_connection_attempts: u32,
    /// The pause between plain retries.
    pub connection_retry_delay: u64,
}

impl Default for ManagedClientConfig {
    fn default() -> (r: ManagedClientConfig)
        ensures
            r.socket_path@ == DEFAULT_SOCKET_PATH@,
            r.server_config is None,
            r.server_startup_timeout == 1000,
            r.connection_timeout == 5000,
            r.max_connection_attempts == 5,
            r.connection_retry_delay == 200,
    {
        ManagedClientConfig {
            socket_path: String::from_str(DEFAULT_SOCKET_PATH),
            server_config: None,
            server_startup_timeout: 1000,
            connection_timeout: 5000,
            max_connection_attempts: 5,
            connection_retry_delay: 200,
        }
    }
}

impl ManagedClientConfig {
    /// The default settings, with the socket at `socket_path`.
    pub fn new(socket_path: &str) -> (r: ManagedClientConfig)
        ensures
            r.socket_path@ == socket_path@,
            r.server_config is None,
            r.server_startup_timeout == 1000,
            r.connection_timeout == 5000,
            r.max_connection_attempts == 5,
            r.connection_retry_delay == 200,
    {
        let mut c = ManagedClientConfig::default();
        c.socket_path = String::from_str(socket_path);
        c
    }

    /// Launch the server with `config` when none answers.
    pub fn with_server(self, config: ProcessConfig) -> (r: ManagedClientConfig)
        ensures
            r == (ManagedClientConfig { server_config: Some(config), ..self }),
    {
        ManagedClientConfig { server_config: Some(config), ..self }
    }

    /// Launch `executable` with the default process settings when no server answers.
    pub fn with_server_executable(self, executable: &str) -> (r: ManagedClientConfig)
        ensures
            r.server_config matches Some(p) && p.executable@ == executable@ && views(p.args@)
                == seq!["--server"@] && p.env@.len() == 0 && p.inherit_env,
            r.socket_path == self.socket_path,
            r.server_startup_timeout == self.server_startup_timeout,
            r.connection_timeout == self.connection_timeout,
            r.max_connection_attempts == self.max_connection_attempts,
            r.connection_retry_delay == self.connection_retry_delay,
    {
        let p = ProcessConfig::new(executable);
        ManagedClientConfig { server_config: Some(p), ..self }
    }

    /// Set how long to poll a freshly launched server.
    pub fn server_startup_timeout(self, timeout: u64) -> (r: ManagedClientConfig)
        ensures
            r == (ManagedClientConfig { server_startup_timeout: timeout, ..self }),
    {
        ManagedClientConfig { server_startup_timeout: timeout, ..self }
    }

    /// Set how long one dial may take.
    pub fn connection_timeout(self, timeout: u64) -> (r: ManagedClientConfig)
        ensures
            r == (ManagedClientConfig { connection_timeout: timeout, ..self }),
    {
        ManagedClientConfig { connection_timeout: timeout, ..self }
    }

    /// Set how many plain retries follow the startup polling.
    pub fn max_connection_attempts(self, attempts: u32) -> (r: ManagedClientConfig)
        ensures
            r == (ManagedClientConfig { max_connection_attempts: attempts, ..self }),
    {
        ManagedClientConfig { max_connection_attempts: attempts, ..self }
    }

    /// Set the pause between plain retries.
    pub fn connection_retry_delay(self, delay: u64) -> (r: ManagedClientConfig)
        ensures
            r == (ManagedClientConfig { connection_retry_delay: delay, ..self }),
    {
        ManagedClientConfig { connection_retry_delay: delay, ..self }
    }
}

/// Where connecting stands.
#[derive(Debug)]
pub enum Phase {
    /// The first dial, to a server that may already run, is under way.
    FirstDial,
    /// The server is being launched.
    Spawning,
    /// A poll of the launched server is under way; the next pause is `interval`.
    Polling { interval: u64 },
    /// Pausing `interval` before the next poll.
    PollWait { interval: u64 },
    /// Plain retry number `attempt`, counted from 1, is under way.
    Retrying { attempt: u32 },
    /// Pausing before plain retry `attempt + 1`.
    RetryWait { attempt: u32 },
    /// Stopping the launched server after every dial failed with `error`.
    Stopping { error: Error },
    /// Connecting ended.
    Done,
}

/// What the caller does next.
#[derive(Debug)]
pub enum ConnectAction {
    /// Dial the socket, giving up after `timeout` milliseconds.
    Dial { timeout: u64 },
    /// Launch the server as configured.
    Spawn,
    /// Pause for `millis` milliseconds.
    Sleep { millis: u64 },
    /// Stop the launched server and wait for it to exit.
    StopServer,
    /// A session is established; `spawned` tells whether this client launched the server.
    Connected { spawned: bool },
    /// Connecting failed.
    Failed(Error),
}

/// What came of the caller's last action.
#[derive(Debug)]
pub enum ConnectEvent {
    /// A dial ended; `elapsed` is the time in milliseconds since the server was launched.
    Dialed { result: Result<(), Error>, elapsed: u64 },
    /// The launch ended.
    Spawned(Result<(), Error>),
    /// The pause ended.
    Slept,
    /// The launched server was stopped.
    Stopped(Result<(), Error>),
}

/// The error when no server answers and none may be launched.
pub open spec fn no_server_message() -> Seq<char> {
    "No server running and no server configuration provided"@
}

/// The error when no plain retry was allowed.
pub open spec fn no_attempt_message() -> Seq<char> {
    "Failed to connect after all retry attempts"@
}

/// The error for an event that the current phase does not expect.
pub open spec fn unexpected_message() -> Seq<char> {
    "Unexpected event while connecting"@
}

/// The pause after `interval`: it grows by a step until it reaches the cap.
pub open spec fn next_interval(interval: u64) -> u64 {
    if interval < MAX_POLL_INTERVAL_MS {
        (interval + POLL_INTERVAL_STEP_MS) as u64
    } else {
        interval
    }
}

/// Whether `phase` and `action` are the next phase and action after `event` in `phase0`.
///
/// First one dial: a server that answers is used and never launched. Otherwise, with launch
/// settings, the server is launched and polled with growing pauses until the startup timeout
/// has passed; then come up to `max_connection_attempts` plain retries with a fixed pause. If
/// all fail, the launched server is stopped and the last dial error is reported.
pub open spec fn transition(
    c: ManagedClientConfig,
    phase0: Phase,
    event: ConnectEvent,
    phase: Phase,
    action: ConnectAction,
) -> bool {
    match (phase0, event) {
        (Phase::FirstDial, ConnectEvent::Dialed { result: Ok(()), .. }) => phase is Done && action
            == ConnectAction::Connected { spawned: false },
        (Phase::FirstDial, ConnectEvent::Dialed { result: Err(_), .. }) => if c.server_config is Some {
            phase is Spawning && action is Spawn
        } else {
            phase is Done && (action matches ConnectAction::Failed(Error::Ipc(m)) && m@
                == no_server_message())
        },
        (Phase::Spawning, ConnectEvent::Spawned(Ok(()))) => phase == (Phase::Polling {
            interval: FIRST_POLL_INTERVAL_MS,
        }) && action == (ConnectAction::Dial { timeout: c.connection_timeout }),
        (Phase::Spawning, ConnectEvent::Spawned(Err(e))) => phase is Done && action
            == ConnectAction::Failed(e),
        (Phase::Polling { .. }, ConnectEvent::Dialed { result: Ok(()), .. }) => phase is Done
            && action == ConnectAction::Connected { spawned: true },
        (Phase::Polling { interval }, ConnectEvent::Dialed { result: Err(_), elapsed }) => if elapsed
            < c.server_startup_timeout {
            phase == (Phase::PollWait { interval }) && action == (ConnectAction::Sleep {
                millis: interval,
            })
        } else if c.max_connection_attempts == 0 {
            action is StopServer && (phase matches Phase::Stopping { error: Error::Ipc(m) } && m@
                == no_attempt_message())
        } else {
            phase == (Phase::Retrying { attempt: 1 }) && action == (ConnectAction::Dial {
                timeout: c.connection_timeout,
            })
        },
        (Phase::PollWait { interval }, ConnectEvent::Slept) => phase == (Phase::Polling {
            interval: next_interval(interval),
        }) && action == (ConnectAction::Dial { timeout: c.connection_timeout }),
        (Phase::Retrying { .. }, ConnectEvent::Dialed { result: Ok(()), .. }) => phase is Done
            && action == ConnectAction::Connected { spawned: true },
        (Phase::Retrying { attempt }, ConnectEvent::Dialed { result: Err(e), .. }) => if attempt
            < c.max_connection_attempts {
            phase == (Phase::RetryWait { attempt }) && action == (ConnectAction::Sleep {
                millis: c.connection_retry_delay,
            })
        } else {
            phase == (Phase::Stopping { error: e }) && action is StopServer
        },
        (Phase::RetryWait { attempt }, ConnectEvent::Slept) => phase == (Phase::Retrying {
            attempt: (attempt + 1) as u32,
        }) && action == (ConnectAction::Dial { timeout: c.connection_timeout }),
        (Phase::Stopping { error }, ConnectEvent::Stopped(Ok(()))) => phase is Done && action
            == ConnectAction::Failed(error),
        (Phase::Stopping { .. }, ConnectEvent::Stopped(Err(e))) => phase is Done && action
            == ConnectAction::Failed(e),
        _ => phase is Done && (action matches ConnectAction::Failed(Error::Ipc(m)) && m@
            == unexpected_message()),
    }
}

/// Whether a phase is one that connecting can reach.
pub open spec fn phase_wf(c: ManagedClientConfig, p: Phase) -> bool {
    match p {
        Phase::Polling { interval } => FIRST_POLL_INTERVAL_MS <= interval <= MAX_POLL_INTERVAL_MS
            && interval % POLL_INTERVAL_STEP_MS == 0,
        Phase::PollWait { interval } => FIRST_POLL_INTERVAL_MS <= interval <= MAX_POLL_INTERVAL_MS
            && interval % POLL_INTERVAL_STEP_MS == 0,
        Phase::Retrying { attempt } => 1 <= attempt <= c.max_connection_attempts,
        Phase::RetryWait { attempt } => 1 <= attempt < c.max_connection_attempts,
        _ => true,
    }
}

/// The decisions of connecting to the server, driven by the caller's dials, launches and
/// pauses.
#[derive(Debug)]
pub struct Connector {
    config: ManagedClientConfig,
    phase: Phase,
}

impl Connector {
    pub closed spec fn spec_config(&self) -> ManagedClientConfig {
        self.config
    }

    pub closed spec fn spec_phase(&self) -> Phase {
        self.phase
    }

    pub closed spec fn wf(&self) -> bool {
        phase_wf(self.config, self.phase)
    }

    /// Begin connecting: the first action is a dial.
    pub fn new(config: ManagedClientConfig) -> (r: (Connector, ConnectAction))
        ensures
            r.0.wf(),
            r.0.spec_config() == config,
            r.0.spec_phase() is FirstDial,
            r.1 == (ConnectAction::Dial { timeout: config.connection_timeout }),
    {
        let timeout = config.connection_timeout;
        (Connector { config, phase: Phase::FirstDial }, ConnectAction::Dial { timeout })
    }

    /// The settings in use.
    pub fn config(&self) -> (r: &ManagedClientConfig)
        ensures
            *r == self.spec_config(),
    {
        &self.config
    }

    /// Advance on what came of the last action, and say what to do next.
    pub fn on_event(&mut self, event: ConnectEvent) -> (r: ConnectAction)
        requires
            old(self).wf(),
        ensures
            final(self).wf(),
            final(self).spec_config() == old(self).spec_config(),
            transition(old(self).spec_config(), old(self).spec_phase(), event, final(self).spec_phase(), r),
    {
        let mut phase0 = Phase::Done;
        std::mem::swap(&mut phase0, &mut self.phase);
        let timeout = self.config.connection_timeout;
        let (phase, action) = match (phase0, event) {
            (Phase::FirstDial, ConnectEvent::Dialed { result: Ok(()), .. }) => (
                Phase::Done,
                ConnectAction::Connected { spawned: false },
            ),
            (Phase::FirstDial, ConnectEvent::Dialed { result: Err(_), .. }) => {
                if self.config.server_config.is_some() {
                    (Phase::Spawning, ConnectAction::Spawn)
                } else {
                    (
                        Phase::Done,
                        ConnectAction::Failed(
                            Error::Ipc(
                                String::from_str(
                                    "No server running and no server configuration provided",
                                ),
                            ),
                        ),
                    )
                }
            },
            (Phase::Spawning, ConnectEvent::Spawned(Ok(()))) => (
                Phase::Polling { interval: FIRST_POLL_INTERVAL_MS },
                ConnectAction::Dial { timeout },
            ),
            (Phase::Spawning, ConnectEvent::Spawned(Err(e))) => (
                Phase::Done,
                ConnectAction::Failed(e),
            ),
            (Phase::Polling { .. }, ConnectEvent::Dialed { result: Ok(()), .. }) => (
                Phase::Done,
                ConnectAction::Connected { spawned: true },
            ),
            (Phase::Polling { interval }, ConnectEvent::Dialed { result: Err(_), elapsed }) => {
                if elapsed < self.config.server_startup_timeout {
                    (Phase::PollWait { interval }, ConnectAction::Sleep { millis: interval })
                } else if self.config.max_connection_attempts == 0 {
                    (
                        Phase::Stopping {
                            error: Error::Ipc(
                                String::from_str("Failed to connect after all retry attempts"),
                            ),
                        },
                        ConnectAction::StopServer,
                    )
                } else {
                    (Phase::Retrying { attempt: 1 }, ConnectAction::Dial { timeout })
                }
            },
            (Phase::PollWait { interval }, ConnectEvent::Slept) => {
                let next = if interval < MAX_POLL_INTERVAL_MS {
                    interval + POLL_INTERVAL_STEP_MS
                } else {
                    interval
                };
                (Phase::Polling { interval: next }, ConnectAction::Dial { timeout })
            },
            (Phase::Retrying { .. }, ConnectEvent::Dialed { result: Ok(()), .. }) => (
                Phase::Done,
                ConnectAction::Connected { spawned: true },
            ),
            (Phase::Retrying { attempt }, ConnectEvent::Dialed { result: Err(e), .. }) => {
                if attempt < self.config.max_connection_attempts {
                    (
                        Phase::RetryWait { attempt },
                        ConnectAction::Sleep { millis: self.config.connection_retry_delay },
                    )
                } else {
                    (Phase::Stopping { error: e }, ConnectAction::StopServer)
                }
            },
            (Phase::RetryWait { attempt }, ConnectEvent::Slept) => (
                Phase::Retrying { attempt: attempt + 1 },
                ConnectAction::Dial { timeout },
            ),
            (Phase::Stopping { error }, ConnectEvent::Stopped(Ok(()))) => (
                Phase::Done,
                ConnectAction::Failed(error),
            ),
            (Phase::Stopping { .. }, ConnectEvent::Stopped(Err(e))) => (
                Phase::Done,
                ConnectAction::Failed(e),
            ),
            _ => (
                Phase::Done,
                ConnectAction::Failed(
                    Error::Ipc(String::from_str("Unexpected event while connecting")),
                ),
            ),
        };
        self.phase = phase;
        action
    }
}

} // verus!

//! Launch settings of the background server process, and the bookkeeping of one launch.

use vstd::prelude::*;

use crate::error::Error;

verus! {

/// Milliseconds to wait after launching before checking that the process is still alive.
pub const DEFAULT_STARTUP_DELAY_MS: u64 = 500;

/// How to launch the background server process.
#[derive(Debug, Clone)]
pub struct ProcessConfig {
    /// Path of the executable.
    pub executable: String,
    /// Arguments, starting with the flag that selects the server role.
    pub args: Vec<String>,
    /// Environment variables to set.
    pub env: Vec<(String, String)>,
    /// Milliseconds to wait after launching before the process counts as started.
    pub startup_delay: u64,
    /// Whether the process inherits the parent's environment.
    pub inherit_env: bool,
}

/// The views of a list of strings.
pub open spec fn views(v: Seq<String>) -> Seq<Seq<char>> {
    v.map_values(|s: String| s@)
}

/// The views of a list of string slices.
pub open spec fn str_views(v: Seq<&str>) -> Seq<Seq<char>> {
    v.map_values(|s: &str| s@)
}

impl ProcessConfig {
    /// Launch `executable` with `--server`, inheriting the environment, after the default delay.
    pub fn new(executable: &str) -> (r: ProcessConfig)
        ensures
            r.executable@ == executable@,
            views(r.args@) == seq!["--server"@],
            r.env@.len() == 0,
            r.startup_delay == DEFAULT_STARTUP_DELAY_MS,
            r.inherit_env,
    {
        let mut args: Vec<String> = Vec::new();
        args.push(String::from_str("--server"));
        assert(views(args@) =~= seq!["--server"@]);
        ProcessConfig {
            executable: String::from_str(executable),
            args,
            env: Vec::new(),
            startup_delay: DEFAULT_STARTUP_DELAY_MS,
            inherit_env: true,
        }
    }

    /// Add an argument.
    pub fn arg(self, arg: &str) -> (r: ProcessConfig)
        ensures
            views(r.args@) == views(self.args@).push(arg@),
            r.executable == self.executable,
            r.env@ == self.env@,
            r.startup_delay == self.startup_delay,
            r.inherit_env == self.inherit_env,
    {
        let mut c = self;
        c.args.push(String::from_str(arg));
        assert(views(c.args@) =~= views(self.args@).push(arg@));
        c
    }

    /// Add several arguments, in order.
    pub fn args(self, args: Vec<&str>) -> (r: ProcessConfig)
        ensures
            views(r.args@) == views(self.args@) + str_views(args@),
            r.executable == self.executable,
            r.env@ == self.env@,
            r.startup_delay == self.startup_delay,
            r.inherit_env == self.inherit_env,
    {
        let mut c = self;
        let mut i: usize = 0;
        while i < args.len()
            invariant
                i <= args@.len(),
                views(c.args@) == views(self.args@) + str_views(args@.take(i as int)),
                c.executable == self.executable,
                c.env@ == self.env@,
                c.startup_delay == self.startup_delay,
                c.inherit_env == self.inherit_env,
            decreases args@.len() - i,
        {
            let ghost before = views(c.args@);
            c.args.push(String::from_str(args[i]));
            assert(views(c.args@) =~= before.push(args@[i as int]@));
            assert(str_views(args@.take(i + 1)) =~= str_views(args@.take(i as int)).push(
                args@[i as int]@,
            ));
            i = i + 1;
        }
        assert(args@.take(i as int) =~= args@);
        c
    }

    /// Set an environment variable.
    pub fn env(self, key: &str, value: &str) -> (r: ProcessConfig)
        ensures
            r.env@.len() == self.env@.len() + 1,
            r.env@.drop_last() == self.env@,
            r.env@.last().0@ == key@,
            r.env@.last().1@ == value@,
            r.executable == self.executable,
            r.args@ == self.args@,
            r.startup_delay == self.startup_delay,
            r.inherit_env == self.inherit_env,
    {
        let mut c = self;
        c.env.push((String::from_str(key), String::from_str(value)));
        assert(c.env@.drop_last() =~= self.env@);
        c
    }

    /// Set the startup delay, in milliseconds.
    pub fn startup_delay(self, delay: u64) -> (r: ProcessConfig)
        ensures
            r.startup_delay == delay,
            r.executable == self.executable,
            r.args@ == self.args@,
            r.env@ == self.env@,
            r.inherit_env == self.inherit_env,
    {
        let mut c = self;
        c.startup_delay = delay;
        c
    }

    /// Set whether the parent's environment is inherited.
    pub fn inherit_env(self, inherit: bool) -> (r: ProcessConfig)
        ensures
            r.inherit_env == inherit,
            r.executable == self.executable,
            r.args@ == self.args@,
            r.env@ == self.env@,
            r.startup_delay == self.startup_delay,
    {
        let mut c = self;
        c.inherit_env = inherit;
        c
    }
}

/// One launch of the background server: its settings and, once launched, its process id.
///
/// The operating-system process itself is held by the caller, which reports here what it did.
#[derive(Debug)]
pub struct ServerProcess {
    config: ProcessConfig,
    pid: Option<u32>,
    running: bool,
}

impl ServerProcess {
    pub closed spec fn spec_config(&self) -> ProcessConfig {
        self.config
    }

    pub closed spec fn spec_pid(&self) -> Option<u32> {
        self.pid
    }

    /// Whether the process is believed to be running.
    pub closed spec fn spec_running(&self) -> bool {
        self.running
    }

    /// A process not launched yet.
    pub fn new(config: ProcessConfig) -> (r: ServerProcess)
        ensures
            r.spec_config() == config,
            r.spec_pid() is None,
            !r.spec_running(),
    {
        ServerProcess { config, pid: None, running: false }
    }

    /// The launch settings.
    pub fn config(&self) -> (r: &ProcessConfig)
        ensures
            *r == self.spec_config(),
    {
        &self.config
    }

    /// The process id, once launched and until stopped.
    pub fn pid(&self) -> (r: Option<u32>)
        ensures
            r == self.spec_pid(),
    {
        self.pid
    }

    /// Whether the process is believed to be running.
    pub fn is_running(&self) -> (r: bool)
        ensures
            r == self.spec_running(),
    {
        self.running
    }

    /// Check that a launch may begin: a running process is not launched twice.
    pub fn begin_start(&self) -> (r: Result<(), Error>)
        ensures
            self.spec_running() ==> (r matches Err(Error::HotkeyOperation(m)) && m@
                == "Server is already running"@),
            !self.spec_running() ==> r is Ok,
    {
        if self.running {
            Err(Error::HotkeyOperation(String::from_str("Server is already running")))
        } else {
            Ok(())
        }
    }

    /// Record that the process was launched with id `pid`.
    pub fn launched(&mut self, pid: u32)
        ensures
            final(self).spec_pid() == Some(pid),
            final(self).spec_running(),
            final(self).spec_config() == old(self).spec_config(),
    {
        self.pid = Some(pid);
        self.running = true;
    }

    /// After the startup delay: whether the process is still alive decides the launch.
    ///
    /// A process that exited during the delay is a startup failure.
    pub fn confirm_started(&mut self, alive: bool) -> (r: Result<(), Error>)
        ensures
            final(self).spec_running() == alive,
            final(self).spec_pid() == old(self).spec_pid(),
            final(self).spec_config() == old(self).spec_config(),
            alive ==> r is Ok,
            !alive ==> (r matches Err(Error::HotkeyOperation(m)) && m@
                == "Server process died during startup"@),
    {
        self.running = alive;
        if alive {
            Ok(())
        } else {
            Err(Error::HotkeyOperation(String::from_str("Server process died during startup")))
        }
    }

    /// Record a probe of whether the process is alive.
    pub fn observe(&mut self, alive: bool)
        ensures
            final(self).spec_running() == alive,
            final(self).spec_pid() == old(self).spec_pid(),
            final(self).spec_config() == old(self).spec_config(),
    {
        self.running = alive;
    }

    /// Begin stopping: the id of the process to kill and wait for, if there is one.
    ///
    /// Stopping twice, or stopping a process never launched, has nothing to do.
    pub fn begin_stop(&mut self) -> (r: Option<u32>)
        ensures
            r == old(self).spec_pid(),
            final(self).spec_pid() is None,
            !final(self).spec_running(),
            final(self).spec_config() == old(self).spec_config(),
    {
        let pid = self.pid;
        self.pid = None;
        self.running = false;
        pid
    }
}

/// Builds launch settings and a `ServerProcess` from them.
#[derive(Debug, Clone)]
pub struct ProcessBuilder {
    config: ProcessConfig,
}

impl ProcessBuilder {
    pub closed spec fn spec_config(&self) -> ProcessConfig {
        self.config
    }

    /// Start from the settings of `ProcessConfig::new(executable)`.
    pub fn new(executable: &str) -> (r: ProcessBuilder)
        ensures
            r.spec_config().executable@ == executable@,
            views(r.spec_config().args@) == seq!["--server"@],
            r.spec_config().env@.len() == 0,
            r.spec_config().startup_delay == DEFAULT_STARTUP_DELAY_MS,
            r.spec_config().inherit_env,
    {
        ProcessBuilder { config: ProcessConfig::new(executable) }
    }

    /// Add an argument.
    pub fn arg(self, arg: &str) -> (r: ProcessBuilder)
        ensures
            views(r.spec_config().args@) == views(self.spec_config().args@).push(arg@),
            r.spec_config().executable == self.spec_config().executable,
            r.spec_config().env@ == self.spec_config().env@,
            r.spec_config().startup_delay == self.spec_config().startup_delay,
            r.spec_config().inherit_env == self.spec_config().inherit_env,
    {
        ProcessBuilder { config: self.config.arg(arg) }
    }

    /// Add several arguments, in order.
    pub fn args(self, args: Vec<&str>) -> (r: ProcessBuilder)
        ensures
            views(r.spec_config().args@) == views(self.spec_config().args@) + str_views(args@),
            r.spec_config().executable == self.spec_config().executable,
            r.spec_config().env@ == self.spec_config().env@,
            r.spec_config().startup_delay == self.spec_config().startup_delay,
            r.spec_config().inherit_env == self.spec_config().inherit_env,
    {
        ProcessBuilder { config: self.config.args(args) }
    }

    /// Set an environment variable.
    pub fn env(self, key: &str, value: &str) -> (r: ProcessBuilder)
        ensures
            r.spec_config().env@.drop_last() == self.spec_config().env@,
            r.spec_config().env@.len() == self.spec_config().env@.len() + 1,
            r.spec_config().env@.last().0@ == key@,
            r.spec_config().env@.last().1@ == value@,
            r.spec_config().executable == self.spec_config().executable,
            r.spec_config().args@ == self.spec_config().args@,
            r.spec_config().startup_delay == self.spec_config().startup_delay,
            r.spec_config().inherit_env == self.spec_config().inherit_env,
    {
        ProcessBuilder { config: self.config.env(key, value) }
    }

    /// Set the startup delay, in milliseconds.
    pub fn startup_delay(self, delay: u64) -> (r: ProcessBuilder)
        ensures
            r.spec_config().startup_delay == delay,
            r.spec_config().executable == self.spec_config().executable,
            r.spec_config().args@ == self.spec_config().args@,
            r.spec_config().env@ == self.spec_config().env@,
            r.spec_config().inherit_env == self.spec_config().inherit_env,
    {
        ProcessBuilder { config: self.config.startup_delay(delay) }
    }

    /// Set whether the parent's environment is inherited.
    pub fn inherit_env(self, inherit: bool) -> (r: ProcessBuilder)
        ensures
            r.spec_config().inherit_env == inherit,
            r.spec_config().executable == self.spec_config().executable,
            r.spec_config().args@ == self.spec_config().args@,
            r.spec_config().env@ == self.spec_config().env@,
            r.spec_config().startup_delay == self.spec_config().startup_delay,
    {
        ProcessBuilder { config: self.config.inherit_env(inherit) }
    }

    /// A `ServerProcess` with these settings, not launched yet.
    pub fn build(self) -> (r: ServerProcess)
        ensures
            r.spec_config() == self.spec_config(),
            r.spec_pid() is None,
            !r.spec_running(),
    {
        ServerProcess::new(self.config)
    }
}

} // verus!

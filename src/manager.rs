//! The sandbox manager: a two-state machine (uninitialized, initialized)
//! that owns both proxies and the violation store, and turns a command into
//! the invocation that runs it isolated.

use vstd::prelude::*;
use std::sync::Arc;
use crate::config::{copy_strings, expand_paths, expansion_of, no_variables, texts, DockerConfig, SandboxRuntimeConfig};
use crate::domain::{all_compile, DomainFilter, DomainPolicy};
use crate::error::SandboxError;
use crate::linux::{bwrap_command, path_flags, sandbox_args, LinuxSandbox};
use crate::macos::{profile_text, sandbox_exec_command, MacOSSandbox};
use crate::platform::{platform_name, Platform};
use crate::proxy::{HttpProxy, SocksProxy};
use crate::text::str_eq;
use crate::violation_store::{recorded, StoreState, Violation, ViolationStore};

verus! {

/// What the manager needs to know of the host it runs on, gathered by the caller.
pub struct HostFacts {
    /// The platform.
    pub platform: Platform,
    /// Where the Linux namespace helper (bubblewrap) is, if installed.
    pub bwrap_path: Option<String>,
    /// Where socat is, if installed.
    pub socat_path: Option<String>,
    /// Where python3 is, if installed.
    pub python_path: Option<String>,
    /// Whether the macOS profile executor is installed.
    pub sandbox_exec_available: bool,
    /// Paths the host looked at, with whether each exists.
    pub writable_paths: Vec<(String, bool)>,
    /// Where the macOS profile is to be written.
    pub profile_path: String,
}

/// A profile to write before the command runs.
#[derive(Debug)]
pub struct ProfileFile {
    /// The file's path.
    pub path: String,
    /// The profile text.
    pub contents: String,
}

/// A command wrapped for isolated execution.
#[derive(Debug)]
pub struct WrappedCommand {
    /// The shell command line to run.
    pub command_line: String,
    /// A profile file the command line reads, to be written first.
    pub profile: Option<ProfileFile>,
}

/// How a command is to be executed.
#[derive(Debug)]
pub enum ExecutionPlan {
    /// Through the container driver, with the manager's container configuration.
    InContainer,
    /// As a wrapped shell command under the OS sandbox.
    Wrapped(WrappedCommand),
}

/// The manager's state as plain values.
pub struct ManagerState {
    pub initialized: bool,
    pub http_port: Option<u16>,
    pub socks_port: Option<u16>,
    pub http_policy: Option<DomainPolicy>,
    pub socks_policy: Option<DomainPolicy>,
    pub violations: StoreState,
    pub config: SandboxRuntimeConfig,
}

/// The network policy of a configuration, as text.
pub open spec fn config_policy(c: SandboxRuntimeConfig) -> DomainPolicy {
    DomainPolicy { allowed: texts(c.network.allowed_domains@), denied: texts(c.network.denied_domains@) }
}

/// The state after `reset`: both proxies dropped, uninitialized.
pub open spec fn reset_state(s: ManagerState) -> ManagerState {
    ManagerState { initialized: false, http_port: None, socks_port: None, http_policy: None, socks_policy: None, ..s }
}

/// Whether the host reported `path` as existing.
pub open spec fn reported_existing(facts: Seq<(String, bool)>, path: Seq<char>) -> bool {
    exists|i: int| 0 <= i < facts.len() && (#[trigger] facts[i]).0@ == path && facts[i].1
}

/// Each expanded writable path, with whether the host reported it as existing.
pub open spec fn with_existence(expanded: Seq<Seq<char>>, facts: Seq<(String, bool)>) -> Seq<(Seq<char>, bool)> {
    expanded.map_values(|p: Seq<char>| (p, reported_existing(facts, p)))
}

/// The command that runs `command` in a fresh container of `image`.
pub open spec fn docker_run_command(image: Seq<char>, command: Seq<char>) -> Seq<char> {
    "docker run --rm "@ + image + " "@ + command
}

/// The message for a platform without an isolation mechanism.
pub open spec fn unsupported_message(p: Platform) -> Seq<char> {
    "Platform "@ + platform_name(p) + " is not supported"@
}

/// The port a proxy handle listens on (0 when there is none).
pub open spec fn port_or_zero(p: Option<u16>) -> u16 {
    match p {
        Some(x) => x,
        None => 0,
    }
}

/// What `wrap_command` may return in state `s`, for `command` on `host`.
pub open spec fn wrap_outcome(
    s: ManagerState,
    host: HostFacts,
    command: Seq<char>,
    r: Result<WrappedCommand, SandboxError>,
) -> bool {
    if !s.initialized {
        r matches Err(e) && e is Execution
    } else if s.config.docker is Some {
        r matches Ok(w) && w.profile is None && w.command_line@ == docker_run_command(
            s.config.docker->0.image@,
            command,
        )
    } else if host.platform == Platform::Linux {
        match host.bwrap_path {
            None => r matches Err(e) && e is CommandNotFound,
            Some(b) => {
                let fs = s.config.filesystem@;
                &&& r matches Err(e) ==> e is Config
                &&& no_variables(fs.allow_write) ==> r is Ok
                &&& r matches Ok(w) ==> {
                    &&& w.profile is None
                    &&& exists|ex: Seq<Seq<char>>|
                        expansion_of(fs.allow_write, ex) && w.command_line@ == bwrap_command(
                            b@,
                            sandbox_args(with_existence(ex, host.writable_paths@), s.http_port, command),
                        )
                }
            },
        }
    } else if host.platform == Platform::MacOS {
        if !host.sandbox_exec_available {
            r matches Err(e) && e is UnsupportedPlatform
        } else {
            let fs = s.config.filesystem@;
            &&& r matches Err(e) ==> e is Config
            &&& no_variables(fs.deny_read) && no_variables(fs.allow_write) && no_variables(fs.deny_write) ==> r is Ok
            &&& r matches Ok(w) ==> {
                &&& w.command_line@ == sandbox_exec_command(host.profile_path@, command)
                &&& w.profile matches Some(f)
                &&& f.path@ == host.profile_path@
                &&& exists|dr: Seq<Seq<char>>, aw: Seq<Seq<char>>, dw: Seq<Seq<char>>|
                    expansion_of(fs.deny_read, dr) && expansion_of(fs.allow_write, aw) && expansion_of(
                        fs.deny_write,
                        dw,
                    ) && f.contents@ == profile_text(s.http_port, s.socks_port, dr, aw, dw)
            }
        }
    } else {
        r matches Err(e) && e is UnsupportedPlatform && e->UnsupportedPlatform_0@ == unsupported_message(
            host.platform,
        )
    }
}

/// The wrapped command a plan carries, or the error in its place.
pub open spec fn as_wrapped(r: Result<ExecutionPlan, SandboxError>) -> Result<WrappedCommand, SandboxError> {
    match r {
        Ok(ExecutionPlan::Wrapped(w)) => Ok(w),
        Ok(ExecutionPlan::InContainer) => Err(arbitrary()),
        Err(e) => Err(e),
    }
}

/// Whether the host reported `path` as existing.
fn is_reported_existing(facts: &Vec<(String, bool)>, path: &str) -> (r: bool)
    ensures
        r == reported_existing(facts@, path@),
{
    let mut i: usize = 0;
    while i < facts.len()
        invariant
            i <= facts@.len(),
            forall|k: int| 0 <= k < i ==> !((#[trigger] facts@[k]).0@ == path@ && facts@[k].1),
        decreases facts@.len() - i,
    {
        if facts[i].1 && str_eq(facts[i].0.as_str(), path) {
            assert(facts@[i as int].0@ == path@ && facts@[i as int].1);
            return true;
        }
        i = i + 1;
    }
    false
}

/// Pairs each expanded path with whether the host reported it as existing.
fn existence_flags(expanded: &Vec<String>, facts: &Vec<(String, bool)>) -> (r: Vec<(String, bool)>)
    ensures
        r@.len() == expanded@.len(),
        forall|k: int|
            0 <= k < expanded@.len() ==> (#[trigger] r@[k]).0@ == expanded@[k]@ && r@[k].1 == reported_existing(
                facts@,
                expanded@[k]@,
            ),
{
    let mut out: Vec<(String, bool)> = Vec::new();
    let mut i: usize = 0;
    while i < expanded.len()
        invariant
            i <= expanded@.len(),
            out@.len() == i,
            forall|k: int|
                0 <= k < i ==> (#[trigger] out@[k]).0@ == expanded@[k]@ && out@[k].1 == reported_existing(
                    facts@,
                    expanded@[k]@,
                ),
        decreases expanded@.len() - i,
    {
        let exists = is_reported_existing(facts, expanded[i].as_str());
        out.push((expanded[i].clone(), exists));
        i = i + 1;
    }
    out
}

/// The sandbox manager.
pub struct SandboxManager {
    config: SandboxRuntimeConfig,
    http_proxy: Option<HttpProxy>,
    socks_proxy: Option<SocksProxy>,
    violation_store: ViolationStore,
}

impl View for SandboxManager {
    type V = ManagerState;

    closed spec fn view(&self) -> ManagerState {
        ManagerState {
            initialized: self.http_proxy is Some && self.socks_proxy is Some,
            http_port: match self.http_proxy {
                Some(p) => Some(p@.port),
                None => None,
            },
            socks_port: match self.socks_proxy {
                Some(p) => Some(p@.port),
                None => None,
            },
            http_policy: match self.http_proxy {
                Some(p) => Some(p@.policy),
                None => None,
            },
            socks_policy: match self.socks_proxy {
                Some(p) => Some(p@.policy),
                None => None,
            },
            violations: self.violation_store@,
            config: self.config,
        }
    }
}

impl SandboxManager {
    /// Creates an uninitialized manager for a configuration.
    pub fn new(config: SandboxRuntimeConfig) -> (r: Result<SandboxManager, SandboxError>)
        ensures
            r matches Ok(m) ==> !m@.initialized && m@.http_port is None && m@.socks_port is None
                && m@.config == config && m@.violations.log.len() == 0 && m@.violations.inboxes.len() == 0,
            r is Ok,
    {
        config.validate()?;
        Ok(SandboxManager {
            config,
            http_proxy: None,
            socks_proxy: None,
            violation_store: ViolationStore::new(),
        })
    }

    /// Whether both proxies are running: the manager is initialized exactly
    /// while it holds both.
    pub fn is_initialized(&self) -> (r: bool)
        ensures
            r == self@.initialized,
    {
        self.http_proxy.is_some() && self.socks_proxy.is_some()
    }

    /// The configuration.
    pub fn config(&self) -> (r: &SandboxRuntimeConfig)
        ensures
            *r == self@.config,
    {
        &self.config
    }

    /// The container configuration, when commands run in containers.
    pub fn docker_config(&self) -> (r: Option<&DockerConfig>)
        ensures
            r is Some <==> self@.config.docker is Some,
            r matches Some(d) ==> *d == self@.config.docker->0,
    {
        match &self.config.docker {
            Some(d) => Some(d),
            None => None,
        }
    }

    /// Builds both proxies from the configuration's network policy, records
    /// the ports their listeners were bound to, and moves to the initialized
    /// state. When already initialized this is a no-op. A pattern that does
    /// not compile is a configuration error, and the state stays as it was.
    pub fn initialize(&mut self, http_port: u16, socks_port: u16) -> (r: Result<(), SandboxError>)
        ensures
            r is Ok <==> old(self)@.initialized || (all_compile(config_policy(old(self)@.config).allowed)
                && all_compile(config_policy(old(self)@.config).denied)),
            old(self)@.initialized ==> final(self)@ == old(self)@,
            !old(self)@.initialized && r is Ok ==> final(self)@ == (ManagerState {
                initialized: true,
                http_port: Some(http_port),
                socks_port: Some(socks_port),
                http_policy: Some(config_policy(old(self)@.config)),
                socks_policy: Some(config_policy(old(self)@.config)),
                ..old(self)@
            }),
            r matches Err(e) ==> e is Config && final(self)@ == old(self)@,
    {
        if self.is_initialized() {
            return Ok(());
        }
        let mut http = HttpProxy::new(
            copy_strings(&self.config.network.allowed_domains),
            copy_strings(&self.config.network.denied_domains),
        )?;
        let mut socks = SocksProxy::new(
            copy_strings(&self.config.network.allowed_domains),
            copy_strings(&self.config.network.denied_domains),
        )?;
        http.start(http_port);
        socks.start(socks_port);
        self.http_proxy = Some(http);
        self.socks_proxy = Some(socks);
        Ok(())
    }

    /// The HTTP proxy's policy, shared with the connections it serves.
    pub fn http_filter(&self) -> (r: Option<&Arc<DomainFilter>>)
        ensures
            r is Some <==> self@.http_policy is Some,
            r matches Some(f) ==> Some((**f)@) == self@.http_policy,
    {
        match &self.http_proxy {
            Some(p) => Some(p.filter()),
            None => None,
        }
    }

    /// The SOCKS5 proxy's policy, shared with the connections it serves.
    pub fn socks_filter(&self) -> (r: Option<&Arc<DomainFilter>>)
        ensures
            r is Some <==> self@.socks_policy is Some,
            r matches Some(f) ==> Some((**f)@) == self@.socks_policy,
    {
        match &self.socks_proxy {
            Some(p) => Some(p.filter()),
            None => None,
        }
    }

    /// The writable paths of the filesystem policy, expanded, for the caller
    /// to report which exist.
    pub fn writable_candidates(&self) -> (r: Result<Vec<String>, SandboxError>)
        ensures
            r matches Ok(v) ==> expansion_of(self@.config.filesystem@.allow_write, texts(v@)),
            no_variables(self@.config.filesystem@.allow_write) ==> r is Ok,
            r matches Err(e) ==> e is Config,
    {
        expand_paths(&self.config.filesystem.allow_write)
    }

    /// Wraps a command for isolated execution. Only an initialized manager
    /// wraps; with a container configuration the command runs in a fresh
    /// container; otherwise the platform's isolation profile is built around
    /// the two proxy ports.
    pub fn wrap_command(&self, command: &str, host: &HostFacts) -> (r: Result<WrappedCommand, SandboxError>)
        ensures
            wrap_outcome(self@, *host, command@, r),
    {
        if !self.is_initialized() {
            return Err(SandboxError::Execution(String::from_str("SandboxManager not initialized. Call initialize() first.")));
        }
        if let Some(docker) = &self.config.docker {
            let mut line = String::from_str("docker run --rm ");
            line.append(docker.image.as_str());
            line.append(" ");
            line.append(command);
            return Ok(WrappedCommand { command_line: line, profile: None });
        }
        let http_port = match &self.http_proxy {
            Some(p) => p.port(),
            None => {
                return Err(SandboxError::Execution(String::from_str("HTTP proxy not started")));
            },
        };
        let socks_port = match &self.socks_proxy {
            Some(p) => p.port(),
            None => {
                return Err(SandboxError::Execution(String::from_str("SOCKS proxy not started")));
            },
        };
        match host.platform {
            Platform::Linux => {
                let bwrap = match &host.bwrap_path {
                    Some(b) => Some(b.clone()),
                    None => None,
                };
                let socat = match &host.socat_path {
                    Some(b) => Some(b.clone()),
                    None => None,
                };
                let python = match &host.python_path {
                    Some(b) => Some(b.clone()),
                    None => None,
                };
                let mut sandbox = LinuxSandbox::new(&self.config, bwrap, socat, python)?;
                sandbox.set_proxy_ports(http_port, socks_port);
                let expanded = sandbox.writable_candidates()?;
                let flags = existence_flags(&expanded, &host.writable_paths);
                let line = sandbox.wrap_command(command, &flags);
                proof {
                    assert(path_flags(flags@) =~= with_existence(texts(expanded@), host.writable_paths@));
                }
                Ok(WrappedCommand { command_line: line, profile: None })
            },
            Platform::MacOS => {
                let mut sandbox = MacOSSandbox::new(&self.config, host.sandbox_exec_available)?;
                sandbox.set_proxy_ports(http_port, socks_port);
                let contents = sandbox.generate_profile()?;
                let line = sandbox.wrap_command(command, host.profile_path.as_str());
                Ok(WrappedCommand {
                    command_line: line,
                    profile: Some(ProfileFile { path: host.profile_path.clone(), contents }),
                })
            },
            _ => {
                let mut msg = String::from_str("Platform ");
                msg.append(host.platform.as_str());
                msg.append(" is not supported");
                Err(SandboxError::UnsupportedPlatform(msg))
            },
        }
    }

    /// Decides how a command is executed: with a container configuration, by
    /// the container driver, whatever the state; otherwise as the wrapped
    /// command, which needs an initialized manager.
    pub fn execute(&self, command: &str, host: &HostFacts) -> (r: Result<ExecutionPlan, SandboxError>)
        ensures
            self@.config.docker is Some ==> (r matches Ok(p) && p is InContainer),
            self@.config.docker is None ==> !(r matches Ok(p) && p is InContainer) && wrap_outcome(
                self@,
                *host,
                command@,
                as_wrapped(r),
            ),
    {
        if self.config.docker.is_some() {
            return Ok(ExecutionPlan::InContainer);
        }
        match self.wrap_command(command, host) {
            Ok(w) => Ok(ExecutionPlan::Wrapped(w)),
            Err(e) => Err(e),
        }
    }

    /// The violation store.
    pub fn violation_store(&self) -> (r: &ViolationStore)
        ensures
            r@ == self@.violations,
    {
        &self.violation_store
    }

    /// Records a violation in the store.
    pub fn record_violation(&mut self, violation: Violation)
        ensures
            final(self)@ == (ManagerState { violations: recorded(old(self)@.violations, violation@), ..old(self)@ }),
    {
        self.violation_store.add_violation(violation);
    }

    /// Drops both proxies and returns to the uninitialized state.
    pub fn reset(&mut self) -> (r: Result<(), SandboxError>)
        ensures
            r is Ok,
            final(self)@ == reset_state(old(self)@),
    {
        self.http_proxy = None;
        self.socks_proxy = None;
        Ok(())
    }
}

/// Resetting twice is resetting once: the second reset changes nothing, and
/// the manager ends uninitialized with no proxy.
pub proof fn lemma_reset_idempotent(s: ManagerState)
    ensures
        reset_state(reset_state(s)) == reset_state(s),
        !reset_state(s).initialized,
        reset_state(s).http_port is None,
        reset_state(s).socks_port is None,
{
}

/// Before `initialize`, a command without a container configuration is
/// refused with an execution error, and nothing is wrapped to run.
pub proof fn lemma_execute_requires_initialize(
    s: ManagerState,
    host: HostFacts,
    command: Seq<char>,
    r: Result<WrappedCommand, SandboxError>,
)
    requires
        !s.initialized,
        wrap_outcome(s, host, command, r),
    ensures
        r matches Err(e) && e is Execution,
{
}

} // verus!

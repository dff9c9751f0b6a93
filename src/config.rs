//! The runtime configuration: network and filesystem policy, an optional
//! container configuration, and shell-style path expansion.

use vstd::prelude::*;
use crate::error::SandboxError;

verus! {

/// Network restrictions.
#[derive(Debug, Clone)]
pub struct NetworkConfig {
    /// Allowed domain patterns (`*.example.com`).
    pub allowed_domains: Vec<String>,
    /// Denied domain patterns; they take precedence over allowed ones.
    pub denied_domains: Vec<String>,
    /// Unix socket paths that may be reached.
    pub allow_unix_sockets: Option<Vec<String>>,
    /// Whether every Unix socket may be reached.
    pub allow_all_unix_sockets: Option<bool>,
    /// Whether binding local ports is allowed.
    pub allow_local_binding: Option<bool>,
}

impl Default for NetworkConfig {
    fn default() -> (r: NetworkConfig)
        ensures
            r.allowed_domains@.len() == 0,
            r.denied_domains@.len() == 0,
            r.allow_unix_sockets is None,
            r.allow_all_unix_sockets is None,
            r.allow_local_binding is None,
    {
        NetworkConfig {
            allowed_domains: Vec::new(),
            denied_domains: Vec::new(),
            allow_unix_sockets: None,
            allow_all_unix_sockets: None,
            allow_local_binding: None,
        }
    }
}

/// Filesystem restrictions: read everything and write nothing, unless listed.
#[derive(Debug, Clone)]
pub struct FilesystemConfig {
    /// Paths that may not be read.
    pub deny_read: Vec<String>,
    /// Paths that may be written.
    pub allow_write: Vec<String>,
    /// Paths that may not be written; they take precedence over `allow_write`.
    pub deny_write: Vec<String>,
}

/// A filesystem policy as plain values.
pub struct FilesystemPolicy {
    pub deny_read: Seq<Seq<char>>,
    pub allow_write: Seq<Seq<char>>,
    pub deny_write: Seq<Seq<char>>,
}

/// The views of a list of strings.
pub open spec fn texts(v: Seq<String>) -> Seq<Seq<char>> {
    v.map_values(|s: String| s@)
}

impl View for FilesystemConfig {
    type V = FilesystemPolicy;

    open spec fn view(&self) -> FilesystemPolicy {
        FilesystemPolicy {
            deny_read: texts(self.deny_read@),
            allow_write: texts(self.allow_write@),
            deny_write: texts(self.deny_write@),
        }
    }
}

impl Default for FilesystemConfig {
    fn default() -> (r: FilesystemConfig)
        ensures
            r.deny_read@.len() == 0,
            r.allow_write@.len() == 0,
            r.deny_write@.len() == 0,
    {
        FilesystemConfig { deny_read: Vec::new(), allow_write: Vec::new(), deny_write: Vec::new() }
    }
}

/// A copy of a list of strings.
pub fn copy_strings(v: &Vec<String>) -> (r: Vec<String>)
    ensures
        texts(r@) == texts(v@),
{
    let mut out: Vec<String> = Vec::new();
    let mut i: usize = 0;
    while i < v.len()
        invariant
            i <= v@.len(),
            out@.len() == i,
            forall|k: int| 0 <= k < i ==> (#[trigger] out@[k])@ == v@[k]@,
        decreases v@.len() - i,
    {
        out.push(v[i].clone());
        i = i + 1;
    }
    assert(texts(out@) =~= texts(v@));
    out
}

impl FilesystemConfig {
    /// A copy of this policy.
    pub fn duplicate(&self) -> (r: FilesystemConfig)
        ensures
            r@ == self@,
    {
        FilesystemConfig {
            deny_read: copy_strings(&self.deny_read),
            allow_write: copy_strings(&self.allow_write),
            deny_write: copy_strings(&self.deny_write),
        }
    }
}

/// Container network modes.
#[derive(Debug, Clone)]
pub enum DockerNetworkMode {
    /// The default bridge network.
    Bridge,
    /// The host's network.
    Host,
    /// No network.
    NoNetwork,
    /// A named network.
    Custom(String),
}

impl DockerNetworkMode {
    /// The name the container engine knows this mode by.
    pub fn mode_name(&self) -> (r: String)
        ensures
            r@ == match self {
                DockerNetworkMode::Bridge => "bridge"@,
                DockerNetworkMode::Host => "host"@,
                DockerNetworkMode::NoNetwork => "none"@,
                DockerNetworkMode::Custom(name) => name@,
            },
    {
        match self {
            DockerNetworkMode::Bridge => String::from_str("bridge"),
            DockerNetworkMode::Host => String::from_str("host"),
            DockerNetworkMode::NoNetwork => String::from_str("none"),
            DockerNetworkMode::Custom(name) => name.clone(),
        }
    }
}

/// Container configuration.
#[derive(Debug, Clone)]
pub struct DockerConfig {
    /// The image to run.
    pub image: String,
    /// The container's name.
    pub name: Option<String>,
    /// The working directory inside the container.
    pub workdir: Option<String>,
    /// Environment variables, as name and value.
    pub env: Vec<(String, String)>,
    /// Volumes, each `host_path:container_path` or a single path used for both.
    pub volumes: Vec<String>,
    /// The network mode.
    pub network_mode: Option<DockerNetworkMode>,
    /// Whether the container is removed after the command ran.
    pub auto_remove: bool,
    /// The user to run as (`uid:gid`).
    pub user: Option<String>,
    /// The CPU limit in billionths of a CPU.
    pub nano_cpus: Option<i64>,
    /// The memory limit in bytes.
    pub memory_limit: Option<i64>,
}

/// The whole runtime configuration.
#[derive(Debug, Clone)]
pub struct SandboxRuntimeConfig {
    /// Network restrictions.
    pub network: NetworkConfig,
    /// Filesystem restrictions.
    pub filesystem: FilesystemConfig,
    /// Run commands in a container instead of under the OS sandbox.
    pub docker: Option<DockerConfig>,
    /// Violations to ignore, per command.
    pub ignore_violations: Option<Vec<(String, Vec<String>)>>,
    /// Use a weaker sandbox when nested inside a container.
    pub enable_weaker_nested_sandbox: Option<bool>,
}

impl Default for SandboxRuntimeConfig {
    fn default() -> (r: SandboxRuntimeConfig)
        ensures
            r.network.allowed_domains@.len() == 0,
            r.network.denied_domains@.len() == 0,
            r.filesystem.deny_read@.len() == 0,
            r.filesystem.allow_write@.len() == 0,
            r.filesystem.deny_write@.len() == 0,
            r.docker is None,
            r.ignore_violations is None,
            r.enable_weaker_nested_sandbox is None,
    {
        SandboxRuntimeConfig {
            network: NetworkConfig::default(),
            filesystem: FilesystemConfig::default(),
            docker: None,
            ignore_violations: None,
            enable_weaker_nested_sandbox: None,
        }
    }
}

impl SandboxRuntimeConfig {
    /// Checks the configuration. Every combination of settings is accepted:
    /// an empty policy is legal (it allows all hosts and writes nothing).
    pub fn validate(&self) -> (r: Result<(), SandboxError>)
        ensures
            r is Ok,
    {
        Ok(())
    }
}

/// Whether a path holds something shell expansion would replace: a variable
/// reference, or a leading tilde.
pub open spec fn has_expansion(path: Seq<char>) -> bool {
    path.contains('$') || (path.len() > 0 && path[0] == '~')
}

/// Relies on shellexpand::full: expands `~` and environment variables, which
/// depend on the process environment. Only a variable lookup can fail, so a
/// path without `$` always expands; a path with neither comes back unchanged.
/// On failure, the error's text.
#[verifier::external_body]
fn shell_expand(path: &str) -> (r: Result<String, String>)
    ensures
        r is Ok || path@.contains('$'),
        r matches Ok(s) ==> s@ == path@ || has_expansion(path@),
{
    match shellexpand::full(path) {
        Ok(s) => Ok(s.into_owned()),
        Err(e) => Err(e.to_string()),
    }
}

/// Expands `~` and environment variables in a path; a failure is a
/// configuration error.
pub fn expand_path(path: &str) -> (r: Result<String, SandboxError>)
    ensures
        !path@.contains('$') ==> r is Ok,
        !has_expansion(path@) ==> (r matches Ok(s) && s@ == path@),
        r matches Err(e) ==> e is Config,
{
    match shell_expand(path) {
        Ok(s) => Ok(s),
        Err(msg) => {
            let mut text = String::from_str("Failed to expand path ");
            text.append(path);
            text.append(": ");
            text.append(msg.as_str());
            Err(SandboxError::Config(text))
        },
    }
}

/// Whether `expanded` is a possible expansion of `paths`: one entry per path,
/// and a path with nothing to expand kept as it is.
pub open spec fn expansion_of(paths: Seq<Seq<char>>, expanded: Seq<Seq<char>>) -> bool {
    &&& expanded.len() == paths.len()
    &&& forall|i: int| 0 <= i < paths.len() && !has_expansion(#[trigger] paths[i]) ==> expanded[i] == paths[i]
}

/// Whether no path of the list refers to a variable.
pub open spec fn no_variables(paths: Seq<Seq<char>>) -> bool {
    forall|i: int| 0 <= i < paths.len() ==> !(#[trigger] paths[i]).contains('$')
}

/// Whether no path of the list has anything to expand.
pub open spec fn all_plain(paths: Seq<Seq<char>>) -> bool {
    forall|i: int| 0 <= i < paths.len() ==> !has_expansion(#[trigger] paths[i])
}

/// Expands each path of a list, failing on the first that does not expand.
pub fn expand_paths(paths: &Vec<String>) -> (r: Result<Vec<String>, SandboxError>)
    ensures
        r matches Ok(v) ==> expansion_of(texts(paths@), texts(v@)),
        no_variables(texts(paths@)) ==> r is Ok,
        r matches Err(e) ==> e is Config,
{
    let mut out: Vec<String> = Vec::new();
    let mut i: usize = 0;
    while i < paths.len()
        invariant
            i <= paths@.len(),
            out@.len() == i,
            forall|k: int|
                0 <= k < i && !has_expansion(#[trigger] paths@[k]@) ==> out@[k]@ == paths@[k]@,
        decreases paths@.len() - i,
    {
        let e = expand_path(paths[i].as_str());
        match e {
            Ok(s) => {
                out.push(s);
                i = i + 1;
            },
            Err(err) => {
                assert(texts(paths@)[i as int] == paths@[i as int]@);
                assert(paths@[i as int]@.contains('$'));
                return Err(err);
            },
        }
    }
    assert forall|k: int| 0 <= k < paths@.len() && !has_expansion(#[trigger] texts(paths@)[k]) implies texts(
        out@,
    )[k] == texts(paths@)[k] by {
        assert(texts(paths@)[k] == paths@[k]@);
    }
    Ok(out)
}

} // verus!

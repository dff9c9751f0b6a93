//! The Linux isolation profile: an argument list for the namespace
//! sandboxing helper (bubblewrap).

use vstd::prelude::*;
use crate::config::{expand_paths, expansion_of, no_variables, texts, FilesystemConfig, SandboxRuntimeConfig};
use crate::error::SandboxError;
use crate::shell::{command_line, join};
use crate::text::{decimal, decimal_string};

verus! {

/// Read-write bind mounts for the writable paths that exist, in order.
pub open spec fn bind_args(writable: Seq<(Seq<char>, bool)>) -> Seq<Seq<char>>
    decreases writable.len(),
{
    if writable.len() == 0 {
        Seq::empty()
    } else {
        let (path, exists) = writable.last();
        bind_args(writable.drop_last()) + if exists {
            seq!["--bind"@, path, path]
        } else {
            Seq::empty()
        }
    }
}

/// The filesystem arguments: the root read-only, the writable paths that
/// exist bound read-write, then fresh `/tmp`, `/dev` and `/proc`.
pub open spec fn filesystem_args(writable: Seq<(Seq<char>, bool)>) -> Seq<Seq<char>> {
    seq!["--ro-bind"@, "/"@, "/"@] + bind_args(writable) + seq![
        "--tmpfs"@,
        "/tmp"@,
        "--dev"@,
        "/dev"@,
        "--proc"@,
        "/proc"@,
    ]
}

/// The proxy address handed to the sandboxed process.
pub open spec fn proxy_url(port: u16) -> Seq<char> {
    "http://localhost:"@ + decimal(port as nat)
}

/// The proxy environment variables, when the HTTP proxy port is set.
pub open spec fn proxy_env_args(http: Option<u16>) -> Seq<Seq<char>> {
    match http {
        Some(p) => seq![
            "--setenv"@,
            "HTTP_PROXY"@,
            proxy_url(p),
            "--setenv"@,
            "HTTPS_PROXY"@,
            proxy_url(p),
        ],
        None => Seq::empty(),
    }
}

/// All arguments: new network and IPC namespaces, the filesystem, the proxy
/// environment, then the command run through a shell.
pub open spec fn sandbox_args(writable: Seq<(Seq<char>, bool)>, http: Option<u16>, command: Seq<char>) -> Seq<
    Seq<char>,
> {
    seq!["--unshare-net"@, "--unshare-ipc"@] + filesystem_args(writable) + proxy_env_args(http) + seq![
        "sh"@,
        "-c"@,
        command,
    ]
}

/// The views of (path, exists) pairs.
pub open spec fn path_flags(v: Seq<(String, bool)>) -> Seq<(Seq<char>, bool)> {
    v.map_values(|e: (String, bool)| (e.0@, e.1))
}

/// Appends one argument.
fn push_arg(args: &mut Vec<String>, arg: &str)
    ensures
        texts(final(args)@) == texts(old(args)@).push(arg@),
{
    args.push(String::from_str(arg));
    assert(texts(final(args)@) =~= texts(old(args)@).push(arg@));
}

/// The Linux sandbox: builds the helper's command line.
pub struct LinuxSandbox {
    filesystem: FilesystemConfig,
    bwrap_path: String,
    socat_path: Option<String>,
    python_path: Option<String>,
    http_proxy_port: Option<u16>,
    socks_proxy_port: Option<u16>,
}

/// The Linux sandbox's settings as plain values.
pub struct LinuxSettings {
    pub filesystem: crate::config::FilesystemPolicy,
    pub bwrap_path: Seq<char>,
    pub http_proxy_port: Option<u16>,
    pub socks_proxy_port: Option<u16>,
}

impl View for LinuxSandbox {
    type V = LinuxSettings;

    closed spec fn view(&self) -> LinuxSettings {
        LinuxSettings {
            filesystem: self.filesystem@,
            bwrap_path: self.bwrap_path@,
            http_proxy_port: self.http_proxy_port,
            socks_proxy_port: self.socks_proxy_port,
        }
    }
}

/// The wrapped command: the helper's path, then its quoted arguments.
pub open spec fn bwrap_command(bwrap_path: Seq<char>, args: Seq<Seq<char>>) -> Seq<char> {
    bwrap_path + " "@ + command_line(args)
}

impl LinuxSandbox {
    /// Creates the sandbox from where the helper tools were found; the
    /// bubblewrap helper is required, the others are optional.
    pub fn new(
        config: &SandboxRuntimeConfig,
        bwrap_path: Option<String>,
        socat_path: Option<String>,
        python_path: Option<String>,
    ) -> (r: Result<LinuxSandbox, SandboxError>)
        ensures
            r is Ok <==> bwrap_path is Some,
            r matches Ok(s) ==> s@.filesystem == config.filesystem@ && s@.bwrap_path == bwrap_path->0@
                && s@.http_proxy_port is None && s@.socks_proxy_port is None,
            r matches Err(e) ==> e is CommandNotFound,
    {
        match bwrap_path {
            Some(bwrap_path) => Ok(LinuxSandbox {
                filesystem: config.filesystem.duplicate(),
                bwrap_path,
                socat_path,
                python_path,
                http_proxy_port: None,
                socks_proxy_port: None,
            }),
            None => Err(SandboxError::CommandNotFound(String::from_str("bubblewrap (bwrap) is not installed"))),
        }
    }

    /// Sets the ports of the two proxies.
    pub fn set_proxy_ports(&mut self, http_port: u16, socks_port: u16)
        ensures
            final(self)@.filesystem == old(self)@.filesystem,
            final(self)@.bwrap_path == old(self)@.bwrap_path,
            final(self)@.http_proxy_port == Some(http_port),
            final(self)@.socks_proxy_port == Some(socks_port),
    {
        self.http_proxy_port = Some(http_port);
        self.socks_proxy_port = Some(socks_port);
    }

    /// The writable paths, expanded; a path that does not expand is a
    /// configuration error.
    pub fn writable_candidates(&self) -> (r: Result<Vec<String>, SandboxError>)
        ensures
            r matches Ok(v) ==> expansion_of(self@.filesystem.allow_write, texts(v@)),
            no_variables(self@.filesystem.allow_write) ==> r is Ok,
            r matches Err(e) ==> e is Config,
    {
        expand_paths(&self.filesystem.allow_write)
    }

    /// Appends the filesystem arguments.
    fn add_filesystem_args(args: &mut Vec<String>, writable: &Vec<(String, bool)>)
        ensures
            texts(final(args)@) == texts(old(args)@) + filesystem_args(path_flags(writable@)),
    {
        push_arg(args, "--ro-bind");
        push_arg(args, "/");
        push_arg(args, "/");
        let ghost start = texts(args@);
        let mut i: usize = 0;
        while i < writable.len()
            invariant
                i <= writable@.len(),
                texts(args@) == start + bind_args(path_flags(writable@.subrange(0, i as int))),
            decreases writable@.len() - i,
        {
            proof {
                let next = path_flags(writable@.subrange(0, i + 1));
                assert(next.drop_last() =~= path_flags(writable@.subrange(0, i as int)));
                assert(next.last() == (writable@[i as int].0@, writable@[i as int].1));
            }
            if writable[i].1 {
                push_arg(args, "--bind");
                push_arg(args, writable[i].0.as_str());
                push_arg(args, writable[i].0.as_str());
            }
            assert(texts(args@) =~= start + bind_args(path_flags(writable@.subrange(0, i + 1))));
            i = i + 1;
        }
        assert(writable@.subrange(0, i as int) =~= writable@);
        push_arg(args, "--tmpfs");
        push_arg(args, "/tmp");
        push_arg(args, "--dev");
        push_arg(args, "/dev");
        push_arg(args, "--proc");
        push_arg(args, "/proc");
        assert(texts(args@) =~= texts(old(args)@) + filesystem_args(path_flags(writable@)));
    }

    /// The helper's command line for `command`. `writable` holds each
    /// expanded writable path with whether it exists; only existing ones are
    /// bound read-write.
    pub fn wrap_command(&self, command: &str, writable: &Vec<(String, bool)>) -> (r: String)
        ensures
            r@ == bwrap_command(
                self@.bwrap_path,
                sandbox_args(path_flags(writable@), self@.http_proxy_port, command@),
            ),
    {
        let mut args: Vec<String> = Vec::new();
        push_arg(&mut args, "--unshare-net");
        push_arg(&mut args, "--unshare-ipc");
        Self::add_filesystem_args(&mut args, writable);
        let ghost before_env = texts(args@);
        if let Some(port) = self.http_proxy_port {
            let mut url = String::from_str("http://localhost:");
            let digits = decimal_string(port);
            url.append(digits.as_str());
            assert(url@ =~= proxy_url(port));
            push_arg(&mut args, "--setenv");
            push_arg(&mut args, "HTTP_PROXY");
            push_arg(&mut args, url.as_str());
            push_arg(&mut args, "--setenv");
            push_arg(&mut args, "HTTPS_PROXY");
            push_arg(&mut args, url.as_str());
        }
        assert(texts(args@) =~= before_env + proxy_env_args(self.http_proxy_port));
        push_arg(&mut args, "sh");
        push_arg(&mut args, "-c");
        push_arg(&mut args, command);
        assert(texts(args@) =~= sandbox_args(path_flags(writable@), self@.http_proxy_port, command@));
        let joined = join(&args);
        let mut r = self.bwrap_path.clone();
        r.append(" ");
        r.append(joined.as_str());
        assert(args@.map_values(|w: String| w@) =~= texts(args@));
        assert(r@ =~= bwrap_command(
            self@.bwrap_path,
            sandbox_args(path_flags(writable@), self@.http_proxy_port, command@),
        ));
        r
    }
}

} // verus!

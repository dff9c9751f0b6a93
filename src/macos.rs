//! The macOS isolation profile: a mandatory-access-control profile whose
//! statements apply in order, later ones overriding earlier ones.

use vstd::prelude::*;
use crate::config::{expand_paths, expansion_of, all_plain, no_variables, FilesystemConfig, SandboxRuntimeConfig};
use crate::error::SandboxError;
use crate::shell::{quote, shell_quoted};
use crate::text::{decimal, decimal_string};

verus! {

/// The profile's opening: version, deny-by-default, and the process, sysctl
/// and mach operations every program needs.
pub open spec fn baseline_lines() -> Seq<Seq<char>> {
    seq![
        "(version 1)"@,
        "(deny default)"@,
        "(allow process*)"@,
        "(allow sysctl*)"@,
        "(allow mach*)"@,
    ]
}

/// The statement that allows outbound traffic to one local proxy port.
pub open spec fn network_rule(port: u16) -> Seq<char> {
    "(allow network* (remote ip \"localhost:"@ + decimal(port as nat) + "\"))"@
}

/// A statement about a path subtree.
pub open spec fn subpath_rule(action: Seq<char>, path: Seq<char>) -> Seq<char> {
    "("@ + action + " (subpath \""@ + path + "\"))"@
}

pub open spec fn deny_read_rule(path: Seq<char>) -> Seq<char> {
    subpath_rule("deny file-read*"@, path)
}

pub open spec fn allow_write_rule(path: Seq<char>) -> Seq<char> {
    subpath_rule("allow file-write*"@, path)
}

pub open spec fn deny_write_rule(path: Seq<char>) -> Seq<char> {
    subpath_rule("deny file-write*"@, path)
}

/// The network statements: one per proxy port that is set.
pub open spec fn network_lines(http: Option<u16>, socks: Option<u16>) -> Seq<Seq<char>> {
    (match http {
        Some(p) => seq![network_rule(p)],
        None => Seq::empty(),
    }) + (match socks {
        Some(p) => seq![network_rule(p)],
        None => Seq::empty(),
    })
}

/// The statements before the per-path rules.
pub open spec fn head_lines(http: Option<u16>, socks: Option<u16>) -> Seq<Seq<char>> {
    baseline_lines() + network_lines(http, socks) + seq!["(allow file-read*)"@]
}

/// The profile's statements in order: baseline, proxy ports, reads allowed
/// then denied per path, writes allowed per path, then writes denied per path.
pub open spec fn profile_lines(
    http: Option<u16>,
    socks: Option<u16>,
    deny_read: Seq<Seq<char>>,
    allow_write: Seq<Seq<char>>,
    deny_write: Seq<Seq<char>>,
) -> Seq<Seq<char>> {
    head_lines(http, socks) + deny_read.map_values(|p: Seq<char>| deny_read_rule(p))
        + allow_write.map_values(|p: Seq<char>| allow_write_rule(p)) + deny_write.map_values(
        |p: Seq<char>| deny_write_rule(p),
    )
}

/// Lines, each followed by a newline.
pub open spec fn join_lines(lines: Seq<Seq<char>>) -> Seq<char>
    decreases lines.len(),
{
    if lines.len() == 0 {
        Seq::empty()
    } else {
        join_lines(lines.drop_last()) + lines.last() + seq!['\n']
    }
}

/// The profile text.
pub open spec fn profile_text(
    http: Option<u16>,
    socks: Option<u16>,
    deny_read: Seq<Seq<char>>,
    allow_write: Seq<Seq<char>>,
    deny_write: Seq<Seq<char>>,
) -> Seq<char> {
    join_lines(profile_lines(http, socks, deny_read, allow_write, deny_write))
}

/// Appends one line and its newline.
fn push_line(out: &mut String, line: &str, Ghost(lines): Ghost<Seq<Seq<char>>>)
    requires
        old(out)@ == join_lines(lines),
    ensures
        final(out)@ == join_lines(lines.push(line@)),
{
    out.append(line);
    out.append("\n");
    proof {
        reveal_strlit("\n");
        assert(lines.push(line@).drop_last() =~= lines);
    }
    assert(final(out)@ =~= join_lines(lines.push(line@)));
}

fn build_subpath_rule(action: &str, path: &str) -> (r: String)
    ensures
        r@ == subpath_rule(action@, path@),
{
    let mut r = String::from_str("(");
    r.append(action);
    r.append(" (subpath \"");
    r.append(path);
    r.append("\"))");
    assert(r@ =~= subpath_rule(action@, path@));
    r
}

fn build_network_rule(port: u16) -> (r: String)
    ensures
        r@ == network_rule(port),
{
    let mut r = String::from_str("(allow network* (remote ip \"localhost:");
    let digits = decimal_string(port);
    r.append(digits.as_str());
    r.append("\"))");
    assert(r@ =~= network_rule(port));
    r
}

/// Appends one subpath rule per path.
fn push_rules(
    out: &mut String,
    action: &str,
    paths: &Vec<String>,
    Ghost(lines): Ghost<Seq<Seq<char>>>,
) -> (r: Ghost<Seq<Seq<char>>>)
    requires
        old(out)@ == join_lines(lines),
    ensures
        r@ == lines + paths@.map_values(|p: String| subpath_rule(action@, p@)),
        final(out)@ == join_lines(r@),
{
    let ghost mut acc = lines;
    let mut i: usize = 0;
    while i < paths.len()
        invariant
            i <= paths@.len(),
            acc == lines + paths@.subrange(0, i as int).map_values(|p: String| subpath_rule(action@, p@)),
            out@ == join_lines(acc),
        decreases paths@.len() - i,
    {
        let rule = build_subpath_rule(action, paths[i].as_str());
        push_line(out, rule.as_str(), Ghost(acc));
        proof {
            acc = acc.push(rule@);
            assert(paths@.subrange(0, i + 1).map_values(|p: String| subpath_rule(action@, p@))
                =~= paths@.subrange(0, i as int).map_values(|p: String| subpath_rule(action@, p@)).push(
                rule@,
            ));
        }
        i = i + 1;
    }
    assert(paths@.subrange(0, i as int) =~= paths@);
    Ghost(acc)
}

/// Renders the profile from proxy ports and already expanded paths.
pub fn render_profile(
    http: Option<u16>,
    socks: Option<u16>,
    deny_read: &Vec<String>,
    allow_write: &Vec<String>,
    deny_write: &Vec<String>,
) -> (r: String)
    ensures
        r@ == profile_text(
            http,
            socks,
            deny_read@.map_values(|p: String| p@),
            allow_write@.map_values(|p: String| p@),
            deny_write@.map_values(|p: String| p@),
        ),
{
    let mut out = String::new();
    let ghost mut lines: Seq<Seq<char>> = Seq::empty();
    assert(out@ =~= join_lines(lines));
    push_line(&mut out, "(version 1)", Ghost(lines));
    proof { lines = lines.push("(version 1)"@); }
    push_line(&mut out, "(deny default)", Ghost(lines));
    proof { lines = lines.push("(deny default)"@); }
    push_line(&mut out, "(allow process*)", Ghost(lines));
    proof { lines = lines.push("(allow process*)"@); }
    push_line(&mut out, "(allow sysctl*)", Ghost(lines));
    proof { lines = lines.push("(allow sysctl*)"@); }
    push_line(&mut out, "(allow mach*)", Ghost(lines));
    proof { lines = lines.push("(allow mach*)"@); }
    assert(lines =~= baseline_lines());
    if let Some(port) = http {
        let rule = build_network_rule(port);
        push_line(&mut out, rule.as_str(), Ghost(lines));
        proof { lines = lines.push(rule@); }
    }
    if let Some(port) = socks {
        let rule = build_network_rule(port);
        push_line(&mut out, rule.as_str(), Ghost(lines));
        proof { lines = lines.push(rule@); }
    }
    assert(lines =~= baseline_lines() + network_lines(http, socks));
    push_line(&mut out, "(allow file-read*)", Ghost(lines));
    proof { lines = lines.push("(allow file-read*)"@); }
    assert(lines =~= head_lines(http, socks));
    let after_reads = push_rules(&mut out, "deny file-read*", deny_read, Ghost(lines));
    let after_allows = push_rules(&mut out, "allow file-write*", allow_write, after_reads);
    let after_denies = push_rules(&mut out, "deny file-write*", deny_write, after_allows);
    proof {
        let dr = deny_read@.map_values(|p: String| p@);
        let aw = allow_write@.map_values(|p: String| p@);
        let dw = deny_write@.map_values(|p: String| p@);
        assert(deny_read@.map_values(|p: String| subpath_rule("deny file-read*"@, p@))
            =~= dr.map_values(|p: Seq<char>| deny_read_rule(p)));
        assert(allow_write@.map_values(|p: String| subpath_rule("allow file-write*"@, p@))
            =~= aw.map_values(|p: Seq<char>| allow_write_rule(p)));
        assert(deny_write@.map_values(|p: String| subpath_rule("deny file-write*"@, p@))
            =~= dw.map_values(|p: Seq<char>| deny_write_rule(p)));
        assert(after_denies@ =~= profile_lines(http, socks, dr, aw, dw));
    }
    out
}

/// A deny-write statement never reads as an allow-write statement.
proof fn lemma_deny_write_is_not_allow_write(x: Seq<char>, y: Seq<char>)
    ensures
        deny_write_rule(x) != allow_write_rule(y),
{
    reveal_strlit("(");
    reveal_strlit("deny file-write*");
    reveal_strlit("allow file-write*");
    assert(deny_write_rule(x)[1] == 'd');
    assert(allow_write_rule(y)[1] == 'a');
}

/// Write denial takes precedence: for a path listed both as writable and as
/// write-denied, the profile holds its allow-write statement, then later its
/// deny-write statement, and no allow-write statement for it after that.
pub proof fn lemma_deny_write_overrides_allow_write(
    http: Option<u16>,
    socks: Option<u16>,
    deny_read: Seq<Seq<char>>,
    allow_write: Seq<Seq<char>>,
    deny_write: Seq<Seq<char>>,
    i: int,
    j: int,
)
    requires
        0 <= i < allow_write.len(),
        0 <= j < deny_write.len(),
        allow_write[i] == deny_write[j],
    ensures
        ({
            let lines = profile_lines(http, socks, deny_read, allow_write, deny_write);
            let a = head_lines(http, socks).len() + deny_read.len() + i;
            let d = head_lines(http, socks).len() + deny_read.len() + allow_write.len() + j;
            &&& a < d < lines.len()
            &&& lines[a] == allow_write_rule(allow_write[i])
            &&& lines[d] == deny_write_rule(allow_write[i])
            &&& forall|k: int| d < k < lines.len() ==> lines[k] != allow_write_rule(allow_write[i])
        }),
{
    let lines = profile_lines(http, socks, deny_read, allow_write, deny_write);
    let base = head_lines(http, socks).len() + deny_read.len() + allow_write.len();
    assert forall|k: int| base + j < k < lines.len() implies lines[k] != allow_write_rule(allow_write[i]) by {
        assert(lines[k] == deny_write_rule(deny_write[k - base]));
        lemma_deny_write_is_not_allow_write(deny_write[k - base], allow_write[i]);
    }
}

/// The macOS sandbox: builds the profile and the command that runs under it.
pub struct MacOSSandbox {
    filesystem: FilesystemConfig,
    http_proxy_port: Option<u16>,
    socks_proxy_port: Option<u16>,
}

/// The macOS sandbox's settings as plain values.
pub struct MacOSSettings {
    pub filesystem: crate::config::FilesystemPolicy,
    pub http_proxy_port: Option<u16>,
    pub socks_proxy_port: Option<u16>,
}

impl View for MacOSSandbox {
    type V = MacOSSettings;

    closed spec fn view(&self) -> MacOSSettings {
        MacOSSettings {
            filesystem: self.filesystem@,
            http_proxy_port: self.http_proxy_port,
            socks_proxy_port: self.socks_proxy_port,
        }
    }
}

/// The command that runs `command` through the profile executor with the
/// profile file at `profile_path`.
pub open spec fn sandbox_exec_command(profile_path: Seq<char>, command: Seq<char>) -> Seq<char> {
    "sandbox-exec -f "@ + profile_path + " sh -c "@ + shell_quoted(command)
}

impl MacOSSandbox {
    /// Creates the sandbox; the profile executor must be present.
    pub fn new(config: &SandboxRuntimeConfig, executor_available: bool) -> (r: Result<MacOSSandbox, SandboxError>)
        ensures
            r is Ok <==> executor_available,
            r matches Ok(s) ==> s@.filesystem == config.filesystem@ && s@.http_proxy_port is None
                && s@.socks_proxy_port is None,
            r matches Err(e) ==> e is UnsupportedPlatform,
    {
        if !executor_available {
            return Err(SandboxError::UnsupportedPlatform(String::from_str("sandbox-exec is not available on this system")));
        }
        Ok(MacOSSandbox { filesystem: config.filesystem.duplicate(), http_proxy_port: None, socks_proxy_port: None })
    }

    /// Sets the ports of the two proxies that the profile lets traffic reach.
    pub fn set_proxy_ports(&mut self, http_port: u16, socks_port: u16)
        ensures
            final(self)@.filesystem == old(self)@.filesystem,
            final(self)@.http_proxy_port == Some(http_port),
            final(self)@.socks_proxy_port == Some(socks_port),
    {
        self.http_proxy_port = Some(http_port);
        self.socks_proxy_port = Some(socks_port);
    }

    /// Generates the profile text, with every policy path expanded. A path
    /// that does not expand (an unknown variable) is a configuration error;
    /// paths with nothing to expand are used as they are.
    pub fn generate_profile(&self) -> (r: Result<String, SandboxError>)
        ensures
            r matches Ok(t) ==> exists|dr: Seq<Seq<char>>, aw: Seq<Seq<char>>, dw: Seq<Seq<char>>|
                expansion_of(self@.filesystem.deny_read, dr) && expansion_of(self@.filesystem.allow_write, aw)
                    && expansion_of(self@.filesystem.deny_write, dw) && t@ == profile_text(
                    self@.http_proxy_port,
                    self@.socks_proxy_port,
                    dr,
                    aw,
                    dw,
                ),
            all_plain(self@.filesystem.deny_read) && all_plain(self@.filesystem.allow_write) && all_plain(
                self@.filesystem.deny_write,
            ) ==> (r matches Ok(t) && t@ == profile_text(
                self@.http_proxy_port,
                self@.socks_proxy_port,
                self@.filesystem.deny_read,
                self@.filesystem.allow_write,
                self@.filesystem.deny_write,
            )),
            no_variables(self@.filesystem.deny_read) && no_variables(self@.filesystem.allow_write)
                && no_variables(self@.filesystem.deny_write) ==> r is Ok,
            r matches Err(e) ==> e is Config,
    {
        let deny_read = expand_paths(&self.filesystem.deny_read)?;
        let allow_write = expand_paths(&self.filesystem.allow_write)?;
        let deny_write = expand_paths(&self.filesystem.deny_write)?;
        let t = render_profile(self.http_proxy_port, self.socks_proxy_port, &deny_read, &allow_write, &deny_write);
        proof {
            let dr = deny_read@.map_values(|p: String| p@);
            let aw = allow_write@.map_values(|p: String| p@);
            let dw = deny_write@.map_values(|p: String| p@);
            assert(dr =~= crate::config::texts(deny_read@));
            assert(aw =~= crate::config::texts(allow_write@));
            assert(dw =~= crate::config::texts(deny_write@));
            if all_plain(self@.filesystem.deny_read) && all_plain(self@.filesystem.allow_write) && all_plain(
                self@.filesystem.deny_write,
            ) {
                assert(dr =~= self@.filesystem.deny_read);
                assert(aw =~= self@.filesystem.allow_write);
                assert(dw =~= self@.filesystem.deny_write);
            }
        }
        Ok(t)
    }

    /// The command that runs `command` under the profile stored at `profile_path`.
    pub fn wrap_command(&self, command: &str, profile_path: &str) -> (r: String)
        ensures
            r@ == sandbox_exec_command(profile_path@, command@),
    {
        let mut r = String::from_str("sandbox-exec -f ");
        r.append(profile_path);
        r.append(" sh -c ");
        let quoted = quote(command);
        r.append(quoted.as_str());
        assert(r@ =~= sandbox_exec_command(profile_path@, command@));
        r
    }
}

} // verus!

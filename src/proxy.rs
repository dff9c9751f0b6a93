//! The two filtering proxies. Each holds the compiled policy and the port
//! its listener was bound to; the decisions they take per request are here,
//! the sockets are served by the caller.

use vstd::prelude::*;
use std::sync::Arc;
use crate::config::texts;
use crate::domain::{all_compile, host_allowed, DomainFilter, DomainPolicy};
use crate::error::SandboxError;

verus! {

/// A proxy's state: its policy, and the port it listens on (0 before it is started).
pub struct ProxyState {
    pub policy: DomainPolicy,
    pub port: u16,
}

/// The HTTP filtering proxy.
pub struct HttpProxy {
    filter: Arc<DomainFilter>,
    port: u16,
}

impl View for HttpProxy {
    type V = ProxyState;

    closed spec fn view(&self) -> ProxyState {
        ProxyState { policy: (*self.filter)@, port: self.port }
    }
}

impl HttpProxy {
    /// Compiles the policy; a pattern that does not compile is a configuration error.
    pub fn new(allowed_domains: Vec<String>, denied_domains: Vec<String>) -> (r: Result<HttpProxy, SandboxError>)
        ensures
            r is Ok <==> all_compile(texts(allowed_domains@)) && all_compile(texts(denied_domains@)),
            r matches Ok(p) ==> p@.policy.allowed == texts(allowed_domains@) && p@.policy.denied
                == texts(denied_domains@) && p@.port == 0,
            r matches Err(e) ==> e is Config,
    {
        let filter = DomainFilter::new(&allowed_domains, &denied_domains)?;
        Ok(HttpProxy { filter: Arc::new(filter), port: 0 })
    }

    /// Records the port the proxy's listener was bound to, and returns it.
    pub fn start(&mut self, bound_port: u16) -> (r: u16)
        ensures
            r == bound_port,
            final(self)@.port == bound_port,
            final(self)@.policy == old(self)@.policy,
    {
        self.port = bound_port;
        bound_port
    }

    /// The port the proxy listens on.
    pub fn port(&self) -> (r: u16)
        ensures
            r == self@.port,
    {
        self.port
    }

    /// The policy, shared with the connections being served.
    pub fn filter(&self) -> (r: &Arc<DomainFilter>)
        ensures
            (*r)@ == self@.policy,
    {
        &self.filter
    }
}

/// The SOCKS5 filtering proxy.
pub struct SocksProxy {
    filter: Arc<DomainFilter>,
    port: u16,
}

impl View for SocksProxy {
    type V = ProxyState;

    closed spec fn view(&self) -> ProxyState {
        ProxyState { policy: (*self.filter)@, port: self.port }
    }
}

impl SocksProxy {
    /// Compiles the policy; a pattern that does not compile is a configuration error.
    pub fn new(allowed_domains: Vec<String>, denied_domains: Vec<String>) -> (r: Result<SocksProxy, SandboxError>)
        ensures
            r is Ok <==> all_compile(texts(allowed_domains@)) && all_compile(texts(denied_domains@)),
            r matches Ok(p) ==> p@.policy.allowed == texts(allowed_domains@) && p@.policy.denied
                == texts(denied_domains@) && p@.port == 0,
            r matches Err(e) ==> e is Config,
    {
        let filter = DomainFilter::new(&allowed_domains, &denied_domains)?;
        Ok(SocksProxy { filter: Arc::new(filter), port: 0 })
    }

    /// Records the port the proxy's listener was bound to, and returns it.
    pub fn start(&mut self, bound_port: u16) -> (r: u16)
        ensures
            r == bound_port,
            final(self)@.port == bound_port,
            final(self)@.policy == old(self)@.policy,
    {
        self.port = bound_port;
        bound_port
    }

    /// The port the proxy listens on.
    pub fn port(&self) -> (r: u16)
        ensures
            r == self@.port,
    {
        self.port
    }

    /// The policy, shared with the connections being served.
    pub fn filter(&self) -> (r: &Arc<DomainFilter>)
        ensures
            (*r)@ == self@.policy,
    {
        &self.filter
    }
}

/// The host part of a `Host` header: what precedes the first colon.
pub open spec fn host_part(header: Seq<char>) -> Seq<char>
    decreases header.len(),
{
    if header.len() == 0 {
        header
    } else if header[0] == ':' {
        Seq::empty()
    } else {
        seq![header[0]] + host_part(header.drop_first())
    }
}

/// The host part is the text before the first colon, or all of it without one.
pub proof fn lemma_host_part(header: Seq<char>, j: int)
    requires
        0 <= j <= header.len(),
        j == header.len() || header[j] == ':',
        forall|k: int| 0 <= k < j ==> header[k] != ':',
    ensures
        host_part(header) == header.subrange(0, j),
    decreases j,
{
    if j == 0 {
        assert(header.subrange(0, 0) =~= Seq::<char>::empty());
        if header.len() > 0 {
            assert(header[0] == ':');
        }
    } else {
        let rest = header.drop_first();
        assert forall|k: int| 0 <= k < j - 1 implies rest[k] != ':' by {
            assert(rest[k] == header[k + 1]);
        }
        lemma_host_part(rest, j - 1);
        assert(header.subrange(0, j) =~= seq![header[0]] + rest.subrange(0, j - 1));
    }
}

/// The host a request is for: the URI's host, else the `Host` header without
/// its port, else empty.
pub open spec fn request_host_spec(uri_host: Option<Seq<char>>, host_header: Option<Seq<char>>) -> Seq<char> {
    match uri_host {
        Some(h) => h,
        None => match host_header {
            Some(h) => host_part(h),
            None => Seq::empty(),
        },
    }
}

/// The `Host` header without its port.
pub fn header_host(header: &str) -> (r: String)
    ensures
        r@ == host_part(header@),
{
    let n = header.unicode_len();
    let mut j: usize = 0;
    while j < n && header.get_char(j) != ':'
        invariant
            n == header@.len(),
            j <= n,
            forall|k: int| 0 <= k < j ==> header@[k] != ':',
        decreases n - j,
    {
        j = j + 1;
    }
    proof {
        lemma_host_part(header@, j as int);
    }
    String::from_str(header.substring_char(0, j))
}

/// The host a request is for: the URI's host, else the `Host` header without
/// its port, else empty.
pub fn request_host(uri_host: Option<&str>, host_header: Option<&str>) -> (r: String)
    ensures
        r@ == request_host_spec(
            match uri_host {
                Some(h) => Some(h@),
                None => None,
            },
            match host_header {
                Some(h) => Some(h@),
                None => None,
            },
        ),
{
    match uri_host {
        Some(h) => String::from_str(h),
        None => match host_header {
            Some(h) => header_host(h),
            None => String::new(),
        },
    }
}

/// An HTTP response to send back.
#[derive(Debug)]
pub struct HttpResponse {
    /// The status code.
    pub status: u16,
    /// The body.
    pub body: String,
}

/// The body of a refusal.
pub open spec fn blocked_message(host: Seq<char>) -> Seq<char> {
    "Access to "@ + host + " is blocked by sandbox policy"@
}

fn blocked_text(host: &str) -> (r: String)
    ensures
        r@ == blocked_message(host@),
{
    let mut r = String::from_str("Access to ");
    r.append(host);
    r.append(" is blocked by sandbox policy");
    r
}

/// Answers one proxied HTTP request. A host the policy refuses gets 403 with
/// a policy-violation body; an allowed CONNECT gets 200 with an empty body,
/// so the tunnel can be set up; any other allowed request gets 200 and a
/// fixed body, without being forwarded.
pub fn handle_request(filter: &DomainFilter, host: &str, is_connect: bool) -> (r: HttpResponse)
    ensures
        !host_allowed(host@, filter@.allowed, filter@.denied) ==> r.status == 403 && r.body@ == blocked_message(
            host@,
        ),
        host_allowed(host@, filter@.allowed, filter@.denied) && is_connect ==> r.status == 200 && r.body@
            == Seq::<char>::empty(),
        host_allowed(host@, filter@.allowed, filter@.denied) && !is_connect ==> r.status == 200 && r.body@
            == "Proxied request"@,
{
    if !filter.is_allowed(host) {
        return HttpResponse { status: 403, body: blocked_text(host) };
    }
    if is_connect {
        return HttpResponse { status: 200, body: String::new() };
    }
    HttpResponse { status: 200, body: String::from_str("Proxied request") }
}

/// What the SOCKS5 proxy does with a requested target.
#[derive(Debug)]
pub enum SocksDecision {
    /// Open the upstream connection and relay.
    Connect,
    /// Fail the handshake with this policy error; nothing is opened upstream.
    Refuse(String),
}

/// Decides a SOCKS5 request for `target` (a domain name, or an IP address in
/// its text form): the upstream connection is opened only when the policy
/// admits the target.
pub fn decide_socks(filter: &DomainFilter, target: &str) -> (r: SocksDecision)
    ensures
        r is Connect <==> host_allowed(target@, filter@.allowed, filter@.denied),
        r matches SocksDecision::Refuse(m) ==> m@ == blocked_message(target@),
{
    if filter.is_allowed(target) {
        SocksDecision::Connect
    } else {
        SocksDecision::Refuse(blocked_text(target))
    }
}

/// The SOCKS5 reply to a connect request: version 5, the reply code
/// (0 succeeded, 2 connection not allowed by ruleset), a reserved zero, and
/// the unspecified IPv4 address 0.0.0.0 with port 0.
pub open spec fn socks_reply_bytes(allowed: bool) -> Seq<u8> {
    seq![5u8, if allowed { 0u8 } else { 2u8 }, 0u8, 1u8, 0u8, 0u8, 0u8, 0u8, 0u8, 0u8]
}

/// The SOCKS5 reply for a decided request.
pub fn socks_reply(decision: &SocksDecision) -> (r: Vec<u8>)
    ensures
        r@ == socks_reply_bytes(decision is Connect),
{
    let code: u8 = match decision {
        SocksDecision::Connect => 0,
        SocksDecision::Refuse(_) => 2,
    };
    let r = vec![5u8, code, 0u8, 1u8, 0u8, 0u8, 0u8, 0u8, 0u8, 0u8];
    assert(r@ =~= socks_reply_bytes(decision is Connect));
    r
}

} // verus!

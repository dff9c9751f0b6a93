use sandbox_runtime::domain::{domain_to_regex, is_domain_allowed, DomainFilter};
use sandbox_runtime::proxy::{decide_socks, handle_request, request_host, HttpProxy, SocksDecision, SocksProxy};
use sandbox_runtime::SandboxError;

fn strings(items: &[&str]) -> Vec<String> {
    items.iter().map(|s| s.to_string()).collect()
}

#[test]
fn http_proxy_test_domain_matching() {
    let allowed = vec![
        domain_to_regex("*.example.com").unwrap(),
        domain_to_regex("google.com").unwrap(),
    ];
    let denied = vec![domain_to_regex("evil.example.com").unwrap()];

    assert!(is_domain_allowed("api.example.com", &allowed, &denied));
    assert!(is_domain_allowed("google.com", &allowed, &denied));
    assert!(!is_domain_allowed("evil.example.com", &allowed, &denied));
    assert!(!is_domain_allowed("other.com", &allowed, &denied));
}

#[test]
fn socks_proxy_test_domain_matching() {
    let allowed = vec![
        domain_to_regex("*.github.com").unwrap(),
        domain_to_regex("gitlab.com").unwrap(),
    ];
    let denied = vec![domain_to_regex("malicious.github.com").unwrap()];

    assert!(is_domain_allowed("api.github.com", &allowed, &denied));
    assert!(is_domain_allowed("gitlab.com", &allowed, &denied));
    assert!(!is_domain_allowed("malicious.github.com", &allowed, &denied));
    assert!(!is_domain_allowed("other.com", &allowed, &denied));
}

#[test]
fn literal_pattern_matches_only_itself() {
    let filter = DomainFilter::new(&strings(&["example.com"]), &vec![]).unwrap();
    assert!(filter.is_allowed("example.com"));
    assert!(!filter.is_allowed("www.example.com"));
    assert!(!filter.is_allowed("example.com.evil.net"));
    assert!(!filter.is_allowed("exampleXcom"));
    assert!(!filter.is_allowed("Example.com"));
    assert!(!filter.is_allowed(""));
}

#[test]
fn wildcard_matches_subdomains_only() {
    let filter = DomainFilter::new(&strings(&["*.example.com"]), &vec![]).unwrap();
    assert!(filter.is_allowed("api.example.com"));
    assert!(filter.is_allowed("a.b.example.com"));
    assert!(!filter.is_allowed("example.com"));
    assert!(!filter.is_allowed("api.example.org"));
}

#[test]
fn denial_wins_over_allowance() {
    let filter = DomainFilter::new(&strings(&["*.example.com", "api.example.com"]), &strings(&["api.example.com"]))
        .unwrap();
    assert!(!filter.is_allowed("api.example.com"));
    assert!(filter.is_allowed("www.example.com"));
}

#[test]
fn empty_allow_list_defaults_to_allow() {
    let open = DomainFilter::new(&vec![], &vec![]).unwrap();
    assert!(open.is_allowed("anything.com"));
    let deny_only = DomainFilter::new(&vec![], &strings(&["blocked.com"])).unwrap();
    assert!(!deny_only.is_allowed("blocked.com"));
    assert!(deny_only.is_allowed("anything.com"));
}

#[test]
fn end_to_end_policy() {
    let filter = DomainFilter::new(&strings(&["*.example.com"]), &strings(&["evil.example.com"])).unwrap();
    assert!(filter.is_allowed("api.example.com"));
    assert!(!filter.is_allowed("evil.example.com"));
    assert!(!filter.is_allowed("other.com"));
}

#[test]
fn punctuation_in_patterns_is_literal() {
    let filter = DomainFilter::new(&strings(&["a+b.com", "(x)", "[oops"]), &vec![]).unwrap();
    assert!(filter.is_allowed("a+b.com"));
    assert!(!filter.is_allowed("aab.com"));
    assert!(filter.is_allowed("(x)"));
    assert!(!filter.is_allowed("x"));
    assert!(filter.is_allowed("[oops"));
    assert!(domain_to_regex("bad(pattern").is_ok());
    assert!(matches!(HttpProxy::new(strings(&["(unclosed"]), vec![]), Ok(_)));
    let r: Result<_, SandboxError> = domain_to_regex("\\d");
    let p = r.unwrap();
    assert!(p.matches("\\d"));
    assert!(!p.matches("7"));
}

#[test]
fn star_matches_any_run_including_newlines() {
    let any = DomainFilter::new(&strings(&["*"]), &vec![]).unwrap();
    assert!(any.is_allowed("\n"));
    assert!(any.is_allowed(""));
    let filter = DomainFilter::new(&vec![], &strings(&["*.evil.com"])).unwrap();
    assert!(!filter.is_allowed("x\n.evil.com"));
    assert!(!filter.is_allowed("a.evil.com"));
    assert!(filter.is_allowed("evil.com"));
}

#[test]
fn http_proxy_test_proxy_creation() {
    let mut proxy = HttpProxy::new(strings(&["*.example.com"]), strings(&["evil.com"])).unwrap();
    assert_eq!(proxy.port(), 0);
    let port = proxy.start(43128);
    assert!(port > 0);
    assert_eq!(proxy.port(), 43128);
    assert!(proxy.filter().is_allowed("api.example.com"));
    assert!(!proxy.filter().is_allowed("evil.com"));
}

#[test]
fn socks_proxy_test_proxy_creation() {
    let mut proxy = SocksProxy::new(strings(&["*.github.com"]), strings(&["evil.com"])).unwrap();
    let port = proxy.start(41080);
    assert!(port > 0);
    assert_eq!(proxy.port(), 41080);
}

#[test]
fn request_host_prefers_uri_then_header_without_port() {
    assert_eq!(request_host(Some("api.example.com"), Some("other.com")), "api.example.com");
    assert_eq!(request_host(None, Some("example.com:8080")), "example.com");
    assert_eq!(request_host(None, Some("example.com")), "example.com");
    assert_eq!(request_host(None, None), "");
}

#[test]
fn http_decisions() {
    let filter = DomainFilter::new(&strings(&["*.example.com"]), &strings(&["evil.example.com"])).unwrap();
    let refused = handle_request(&filter, "evil.example.com", false);
    assert_eq!(refused.status, 403);
    assert_eq!(refused.body, "Access to evil.example.com is blocked by sandbox policy");
    let tunnel = handle_request(&filter, "api.example.com", true);
    assert_eq!(tunnel.status, 200);
    assert_eq!(tunnel.body, "");
    let plain = handle_request(&filter, "api.example.com", false);
    assert_eq!(plain.status, 200);
    assert_eq!(plain.body, "Proxied request");
    let refused_tunnel = handle_request(&filter, "other.com", true);
    assert_eq!(refused_tunnel.status, 403);
}

#[test]
fn socks_denied_target_is_never_connected() {
    let filter = DomainFilter::new(&strings(&["*.github.com"]), &strings(&["malicious.github.com"])).unwrap();
    match decide_socks(&filter, "malicious.github.com") {
        SocksDecision::Refuse(msg) => {
            assert_eq!(msg, "Access to malicious.github.com is blocked by sandbox policy")
        }
        SocksDecision::Connect => panic!("a denied target was connected"),
    }
    assert!(matches!(decide_socks(&filter, "api.github.com"), SocksDecision::Connect));
    assert!(matches!(decide_socks(&filter, "10.0.0.1"), SocksDecision::Refuse(_)));
    let by_ip = DomainFilter::new(&strings(&["10.0.0.1"]), &vec![]).unwrap();
    assert!(matches!(decide_socks(&by_ip, "10.0.0.1"), SocksDecision::Connect));
    assert!(matches!(decide_socks(&by_ip, "10.0.0.10"), SocksDecision::Refuse(_)));
}

#[test]
fn socks_reply_codes() {
    let ok = sandbox_runtime::proxy::socks_reply(&SocksDecision::Connect);
    assert_eq!(ok, vec![5, 0, 0, 1, 0, 0, 0, 0, 0, 0]);
    let refused = sandbox_runtime::proxy::socks_reply(&SocksDecision::Refuse("no".to_string()));
    assert_eq!(refused, vec![5, 2, 0, 1, 0, 0, 0, 0, 0, 0]);
}

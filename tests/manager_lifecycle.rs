use sandbox_runtime::config::{DockerConfig, FilesystemConfig, NetworkConfig};
use sandbox_runtime::manager::{ExecutionPlan, HostFacts};
use sandbox_runtime::platform::Platform;
use sandbox_runtime::violation_store::{Violation, ViolationType};
use sandbox_runtime::{SandboxError, SandboxManager, SandboxRuntimeConfig};

fn example_config() -> SandboxRuntimeConfig {
    SandboxRuntimeConfig {
        network: NetworkConfig { allowed_domains: vec!["*.example.com".to_string()], ..Default::default() },
        filesystem: FilesystemConfig { allow_write: vec![".".to_string()], ..Default::default() },
        ..Default::default()
    }
}

fn host(platform: Platform) -> HostFacts {
    HostFacts {
        platform,
        bwrap_path: Some("/usr/bin/bwrap".to_string()),
        socat_path: None,
        python_path: None,
        sandbox_exec_available: true,
        writable_paths: vec![(".".to_string(), true)],
        profile_path: "/tmp/srt-profile-7.sb".to_string(),
    }
}

fn initialized(config: SandboxRuntimeConfig) -> SandboxManager {
    let mut manager = SandboxManager::new(config).unwrap();
    manager.initialize(3128, 1080).unwrap();
    manager
}

#[test]
fn test_sandbox_manager_creation() {
    let manager = SandboxManager::new(example_config());
    assert!(manager.is_ok());
}

#[test]
fn execute_before_initialize_fails() {
    let manager = SandboxManager::new(example_config()).unwrap();
    assert!(!manager.is_initialized());
    assert!(matches!(manager.execute("ls", &host(Platform::Linux)), Err(SandboxError::Execution(_))));
    assert!(matches!(manager.wrap_command("ls", &host(Platform::MacOS)), Err(SandboxError::Execution(_))));
}

#[test]
fn reset_twice_leaves_uninitialized() {
    let mut manager = initialized(example_config());
    assert!(manager.is_initialized());
    assert!(manager.reset().is_ok());
    assert!(manager.reset().is_ok());
    assert!(!manager.is_initialized());
    assert!(matches!(manager.execute("ls", &host(Platform::Linux)), Err(SandboxError::Execution(_))));
}

#[test]
fn initialize_is_idempotent() {
    let mut manager = initialized(example_config());
    assert!(manager.initialize(9, 10).is_ok());
    let wrapped = manager.wrap_command("true", &host(Platform::Linux)).unwrap();
    assert!(wrapped.command_line.contains("http://localhost:3128"));
}

#[test]
fn linux_execution_is_wrapped_with_proxy_port() {
    let manager = initialized(example_config());
    match manager.execute("echo hi", &host(Platform::Linux)).unwrap() {
        ExecutionPlan::Wrapped(w) => {
            assert_eq!(
                w.command_line,
                "/usr/bin/bwrap --unshare-net --unshare-ipc --ro-bind / / --bind . . \
                 --tmpfs /tmp --dev /dev --proc /proc \
                 --setenv HTTP_PROXY http://localhost:3128 --setenv HTTPS_PROXY http://localhost:3128 \
                 sh -c 'echo hi'"
            );
            assert!(w.profile.is_none());
        }
        ExecutionPlan::InContainer => panic!("no container configured"),
    }
}

#[test]
fn macos_execution_carries_its_profile() {
    let manager = initialized(example_config());
    let wrapped = manager.wrap_command("ls -la", &host(Platform::MacOS)).unwrap();
    assert_eq!(wrapped.command_line, "sandbox-exec -f /tmp/srt-profile-7.sb sh -c 'ls -la'");
    let profile = wrapped.profile.unwrap();
    assert_eq!(profile.path, "/tmp/srt-profile-7.sb");
    assert!(profile.contents.contains("(allow network* (remote ip \"localhost:3128\"))"));
    assert!(profile.contents.contains("(allow network* (remote ip \"localhost:1080\"))"));
    assert!(profile.contents.contains("(allow file-write* (subpath \".\"))"));
}

#[test]
fn missing_isolation_tools_are_errors() {
    let manager = initialized(example_config());
    let mut facts = host(Platform::Linux);
    facts.bwrap_path = None;
    assert!(matches!(manager.wrap_command("ls", &facts), Err(SandboxError::CommandNotFound(_))));
    let mut facts = host(Platform::MacOS);
    facts.sandbox_exec_available = false;
    assert!(matches!(manager.wrap_command("ls", &facts), Err(SandboxError::UnsupportedPlatform(_))));
    match manager.wrap_command("ls", &host(Platform::Windows)) {
        Err(SandboxError::UnsupportedPlatform(msg)) => assert_eq!(msg, "Platform windows is not supported"),
        other => panic!("unexpected: {:?}", other),
    }
}

#[test]
fn container_configuration_bypasses_the_os_sandbox() {
    let mut config = example_config();
    config.docker = Some(DockerConfig {
        image: "alpine:latest".to_string(),
        name: None,
        workdir: None,
        env: vec![],
        volumes: vec![],
        network_mode: None,
        auto_remove: true,
        user: None,
        nano_cpus: None,
        memory_limit: None,
    });
    let manager = SandboxManager::new(config.clone()).unwrap();
    assert!(matches!(manager.execute("ls", &host(Platform::Linux)), Ok(ExecutionPlan::InContainer)));
    assert!(manager.docker_config().is_some());
    let manager = initialized(config);
    let wrapped = manager.wrap_command("ls", &host(Platform::Linux)).unwrap();
    assert_eq!(wrapped.command_line, "docker run --rm alpine:latest ls");
}

#[test]
fn initialized_proxies_carry_the_configured_policy() {
    let mut config = example_config();
    config.network.denied_domains = vec!["evil.example.com".to_string()];
    let mut manager = SandboxManager::new(config).unwrap();
    assert!(manager.http_filter().is_none());
    manager.initialize(3128, 1080).unwrap();
    for filter in [manager.http_filter().unwrap(), manager.socks_filter().unwrap()] {
        assert!(filter.is_allowed("api.example.com"));
        assert!(!filter.is_allowed("evil.example.com"));
        assert!(!filter.is_allowed("other.com"));
    }
}

#[test]
fn linux_binds_only_existing_expanded_paths() {
    let mut config = example_config();
    config.filesystem.allow_write = vec!["/work".to_string(), "/gone".to_string()];
    let manager = initialized(config);
    let mut facts = host(Platform::Linux);
    facts.writable_paths = vec![("/work".to_string(), true), ("/gone".to_string(), false)];
    let wrapped = manager.wrap_command("true", &facts).unwrap();
    assert!(wrapped.command_line.contains("--bind /work /work"));
    assert!(!wrapped.command_line.contains("/gone"));
    facts.writable_paths = vec![];
    let wrapped = manager.wrap_command("true", &facts).unwrap();
    assert!(!wrapped.command_line.contains("--bind "));
}

#[test]
fn manager_records_violations() {
    let mut manager = SandboxManager::new(example_config()).unwrap();
    manager.record_violation(Violation {
        violation_type: ViolationType::Network,
        target: "evil.com".to_string(),
        process: "curl".to_string(),
        timestamp: 3,
    });
    assert_eq!(manager.violation_store().count(), 1);
}

use sandbox_runtime::config::{expand_path, FilesystemConfig, NetworkConfig};
use sandbox_runtime::linux::LinuxSandbox;
use sandbox_runtime::macos::{render_profile, MacOSSandbox};
use sandbox_runtime::{SandboxError, SandboxRuntimeConfig};

fn strings(items: &[&str]) -> Vec<String> {
    items.iter().map(|s| s.to_string()).collect()
}

#[test]
fn test_linux_sandbox_creation() {
    let config = SandboxRuntimeConfig {
        network: NetworkConfig::default(),
        filesystem: FilesystemConfig { allow_write: vec![".".to_string()], ..Default::default() },
        ..Default::default()
    };

    let sandbox = LinuxSandbox::new(&config, Some("/usr/bin/bwrap".to_string()), None, None);
    assert!(sandbox.is_ok());
}

#[test]
fn linux_sandbox_needs_bubblewrap() {
    let config = SandboxRuntimeConfig::default();
    let sandbox = LinuxSandbox::new(&config, None, None, None);
    assert!(matches!(sandbox, Err(SandboxError::CommandNotFound(_))));
}

#[test]
fn test_path_expansion() {
    let expanded = expand_path("~/.ssh").unwrap();
    assert!(expanded.contains(".ssh"));
}

#[test]
fn tilde_is_replaced_by_the_home_directory() {
    let expanded = expand_path("~/work").unwrap();
    assert!(!expanded.starts_with('~'));
    assert!(expanded.ends_with("/work"));
}

#[test]
fn plain_paths_are_not_expanded_and_unknown_variables_fail() {
    assert_eq!(expand_path("/tmp/work").unwrap(), "/tmp/work");
    let r = expand_path("$SRT_UNSET_VARIABLE_FOR_THIS_CHECK/x");
    assert!(matches!(r, Err(SandboxError::Config(_))));
}

#[test]
fn linux_command_line() {
    let config = SandboxRuntimeConfig::default();
    let mut sandbox = LinuxSandbox::new(&config, Some("/usr/bin/bwrap".to_string()), None, None).unwrap();
    sandbox.set_proxy_ports(3128, 1080);
    let writable = vec![("/work".to_string(), true), ("/missing".to_string(), false)];
    let line = sandbox.wrap_command("echo hi", &writable);
    assert_eq!(
        line,
        "/usr/bin/bwrap --unshare-net --unshare-ipc --ro-bind / / --bind /work /work \
         --tmpfs /tmp --dev /dev --proc /proc \
         --setenv HTTP_PROXY http://localhost:3128 --setenv HTTPS_PROXY http://localhost:3128 \
         sh -c 'echo hi'"
    );
}

#[test]
fn linux_command_line_without_proxy_port() {
    let config = SandboxRuntimeConfig::default();
    let sandbox = LinuxSandbox::new(&config, Some("bwrap".to_string()), None, None).unwrap();
    let line = sandbox.wrap_command("ls", &vec![]);
    assert_eq!(line, "bwrap --unshare-net --unshare-ipc --ro-bind / / --tmpfs /tmp --dev /dev --proc /proc sh -c ls");
}

#[test]
fn test_macos_sandbox_creation() {
    let config = SandboxRuntimeConfig {
        network: NetworkConfig::default(),
        filesystem: FilesystemConfig {
            allow_write: vec![".".to_string()],
            deny_read: vec!["~/.ssh".to_string()],
            ..Default::default()
        },
        ..Default::default()
    };

    let sandbox = MacOSSandbox::new(&config, true);
    assert!(sandbox.is_ok());
}

#[test]
fn macos_sandbox_needs_executor() {
    let config = SandboxRuntimeConfig::default();
    assert!(matches!(MacOSSandbox::new(&config, false), Err(SandboxError::UnsupportedPlatform(_))));
}

#[test]
fn test_profile_generation() {
    let config = SandboxRuntimeConfig {
        network: NetworkConfig::default(),
        filesystem: FilesystemConfig { allow_write: vec![".".to_string()], ..Default::default() },
        ..Default::default()
    };

    let mut sandbox = MacOSSandbox::new(&config, true).unwrap();
    sandbox.set_proxy_ports(3128, 1080);

    let profile = sandbox.generate_profile().unwrap();
    assert!(profile.contains("localhost:3128"));
    assert!(profile.contains("localhost:1080"));
}

#[test]
fn profile_text_is_exact() {
    let profile = render_profile(
        Some(8080),
        None,
        &strings(&["/secret"]),
        &strings(&["/work"]),
        &strings(&["/work/.git"]),
    );
    assert_eq!(
        profile,
        "(version 1)\n(deny default)\n(allow process*)\n(allow sysctl*)\n(allow mach*)\n\
         (allow network* (remote ip \"localhost:8080\"))\n(allow file-read*)\n\
         (deny file-read* (subpath \"/secret\"))\n(allow file-write* (subpath \"/work\"))\n\
         (deny file-write* (subpath \"/work/.git\"))\n"
    );
}

#[test]
fn write_denial_follows_write_allowance() {
    let config = SandboxRuntimeConfig {
        filesystem: FilesystemConfig {
            allow_write: strings(&["/data", "/both"]),
            deny_write: strings(&["/both"]),
            ..Default::default()
        },
        ..Default::default()
    };
    let mut sandbox = MacOSSandbox::new(&config, true).unwrap();
    sandbox.set_proxy_ports(1, 2);
    let profile = sandbox.generate_profile().unwrap();
    let allow = profile.find("(allow file-write* (subpath \"/both\"))").unwrap();
    let deny = profile.find("(deny file-write* (subpath \"/both\"))").unwrap();
    assert!(allow < deny);
    assert!(!profile[deny..].contains("(allow file-write* (subpath \"/both\"))"));
}

#[test]
fn macos_command_quotes_the_command() {
    let config = SandboxRuntimeConfig::default();
    let sandbox = MacOSSandbox::new(&config, true).unwrap();
    assert_eq!(
        sandbox.wrap_command("echo it's", "/tmp/srt-profile-1.sb"),
        "sandbox-exec -f /tmp/srt-profile-1.sb sh -c 'echo it'\\''s'"
    );
    assert_eq!(sandbox.wrap_command("ls", "/p.sb"), "sandbox-exec -f /p.sb sh -c ls");
}

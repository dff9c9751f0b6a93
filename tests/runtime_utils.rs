use sandbox_runtime::config::DockerNetworkMode;
use sandbox_runtime::docker::volume_mount;
use sandbox_runtime::exec::{get_command_path, CommandOutput};
use sandbox_runtime::platform::{arch_label, Platform};
use sandbox_runtime::seccomp::SeccompFilter;
use sandbox_runtime::text::{char_is_whitespace, contains_str, decimal_string, trim_white_space};
use sandbox_runtime::violation_store::is_denial_line;
use sandbox_runtime::SandboxError;

#[test]
fn test_filter_path() {
    let arch = arch_label("x86_64");
    let exists = std::path::Path::new(&SeccompFilter::filter_path(arch)).exists();
    let result = SeccompFilter::get_filter_path(arch, exists);
    println!("Filter path: {:?}", result);
}

#[test]
fn test_python_helper_path() {
    let exists = std::path::Path::new(&SeccompFilter::python_helper_path()).exists();
    let result = SeccompFilter::get_python_helper_path(exists);
    assert!(result.is_ok() || result.is_err());
}

#[test]
fn test_is_supported() {
    let found = std::path::Path::new(&SeccompFilter::filter_path("x64")).exists();
    assert!(SeccompFilter::is_supported(true, found) || !SeccompFilter::is_supported(true, found));
}

#[test]
fn seccomp_paths_and_command() {
    assert_eq!(SeccompFilter::filter_path("arm64"), "vendor/seccomp/arm64/unix-block.bpf");
    assert_eq!(SeccompFilter::get_filter_path("x64", true).unwrap(), "vendor/seccomp/x64/unix-block.bpf");
    match SeccompFilter::get_filter_path("x64", false) {
        Err(SandboxError::Config(m)) => assert_eq!(m, "Seccomp BPF filter not found for architecture: x64"),
        other => panic!("unexpected: {:?}", other),
    }
    assert!(matches!(SeccompFilter::get_python_helper_path(false), Err(SandboxError::Config(_))));
    assert_eq!(
        SeccompFilter::apply_filter_command("f.bpf", "h.py", "ls -l"),
        "python3 h.py f.bpf -- ls -l"
    );
    assert!(!SeccompFilter::is_supported(false, true));
    assert!(SeccompFilter::is_supported(true, true));
}

#[test]
fn test_platform_detection() {
    let platform = Platform::from_os_name("linux");
    assert!(platform.is_supported() || platform == Platform::Windows);
}

#[test]
fn platform_names() {
    assert_eq!(Platform::from_os_name("macos"), Platform::MacOS);
    assert_eq!(Platform::from_os_name("windows"), Platform::Windows);
    assert_eq!(Platform::from_os_name("freebsd"), Platform::Unknown);
    assert_eq!(Platform::Linux.as_str(), "linux");
    assert!(Platform::MacOS.is_macos() && !Platform::MacOS.is_linux());
    assert!(!Platform::Windows.is_supported());
}

#[test]
fn test_arch_detection() {
    let arch = arch_label("x86_64");
    assert!(arch == "x64" || arch == "arm64" || arch == "unknown");
    assert_eq!(arch_label("aarch64"), "arm64");
    assert_eq!(arch_label("x86_64"), "x64");
    assert_eq!(arch_label("riscv64"), "unknown");
}

#[test]
fn command_output_and_lookup() {
    let found = CommandOutput { status: 0, stdout: "  /usr/bin/ls\n".to_string(), stderr: String::new() };
    assert!(found.success());
    assert_eq!(get_command_path("ls", &found).unwrap(), "/usr/bin/ls");
    let missing = CommandOutput { status: 1, stdout: String::new(), stderr: String::new() };
    assert!(!missing.success());
    match get_command_path("nonexistent_command_12345", &missing) {
        Err(SandboxError::CommandNotFound(c)) => assert_eq!(c, "nonexistent_command_12345"),
        other => panic!("unexpected: {:?}", other),
    }
}

#[test]
fn text_helpers() {
    assert_eq!(decimal_string(0), "0");
    assert_eq!(decimal_string(8080), "8080");
    assert_eq!(decimal_string(65535), "65535");
    assert_eq!(trim_white_space("\t a b \n"), "a b");
    assert_eq!(trim_white_space("   "), "");
    assert!(contains_str("deny file-read-data", "file-read"));
    assert!(!contains_str("file", "file-read"));
    assert!(contains_str("x", ""));
}

#[test]
fn volumes_and_network_modes() {
    assert_eq!(volume_mount("/tmp:/tmp"), ("/tmp".to_string(), "/tmp".to_string()));
    assert_eq!(volume_mount("/host/a:/work"), ("/host/a".to_string(), "/work".to_string()));
    assert_eq!(volume_mount("/data"), ("/data".to_string(), "/data".to_string()));
    assert_eq!(volume_mount("a:b:c"), ("a:b:c".to_string(), "a:b:c".to_string()));
    assert_eq!(DockerNetworkMode::Bridge.mode_name(), "bridge");
    assert_eq!(DockerNetworkMode::NoNetwork.mode_name(), "none");
    assert_eq!(DockerNetworkMode::Custom("net1".to_string()).mode_name(), "net1");
}

#[test]
fn error_messages() {
    assert_eq!(SandboxError::Config("x".to_string()).message(), "Configuration error: x");
    assert_eq!(SandboxError::Other("plain".to_string()).message(), "plain");
    assert_eq!(SandboxError::from("s".to_string()).message(), "s");
}

#[test]
fn white_space_agrees_with_std() {
    for code in 0..=0x10FFFFu32 {
        if let Some(c) = char::from_u32(code) {
            assert_eq!(char_is_whitespace(c), c.is_whitespace(), "U+{:04X}", code);
        }
    }
}

#[test]
fn denial_lines() {
    assert!(is_denial_line("Sandbox: cat(1) deny(1) file-read-data /x"));
    assert!(!is_denial_line("Sandbox: allow network-outbound"));
}

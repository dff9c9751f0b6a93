//! Process-level sandboxing: a domain-pattern policy shared by an HTTP and a
//! SOCKS5 filtering proxy, isolation-profile builders for Linux and macOS, a
//! violation store, and the manager that orchestrates them.

pub mod error;
pub mod text;
pub mod domain;
pub mod violation_store;
pub mod shell;
pub mod config;
pub mod macos;
pub mod linux;
pub mod proxy;
pub mod platform;
pub mod manager;
pub mod exec;
pub mod seccomp;
pub mod docker;

pub use config::{FilesystemConfig, NetworkConfig, SandboxRuntimeConfig};
pub use error::SandboxError;
pub use manager::SandboxManager;
pub use violation_store::ViolationStore;

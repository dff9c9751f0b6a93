//! Error taxonomy of the sandbox runtime.

use vstd::prelude::*;

verus! {

/// Errors that the sandbox runtime reports; each carries a message.
#[derive(Debug)]
pub enum SandboxError {
    /// An I/O operation failed.
    Io(String),
    /// The configuration is invalid (a bad domain pattern, a path that does not expand).
    Config(String),
    /// The manager is in the wrong state, or the child process failed.
    Execution(String),
    /// No isolation mechanism exists for this platform.
    UnsupportedPlatform(String),
    /// A proxy server failed.
    Proxy(String),
    /// The container driver failed.
    Docker(String),
    /// A configuration document could not be encoded or decoded.
    Serialization(String),
    /// A required external tool is missing.
    CommandNotFound(String),
    /// A policy breach was signalled.
    Violation(String),
    /// Any other failure.
    Other(String),
}

/// The human-readable text of an error: a label for its kind, then its message.
pub open spec fn error_text(e: SandboxError) -> Seq<char> {
    match e {
        SandboxError::Io(m) => "IO error: "@ + m@,
        SandboxError::Config(m) => "Configuration error: "@ + m@,
        SandboxError::Execution(m) => "Sandbox execution error: "@ + m@,
        SandboxError::UnsupportedPlatform(m) => "Platform not supported: "@ + m@,
        SandboxError::Proxy(m) => "Proxy error: "@ + m@,
        SandboxError::Docker(m) => "Docker error: "@ + m@,
        SandboxError::Serialization(m) => "Serialization error: "@ + m@,
        SandboxError::CommandNotFound(m) => "Command not found: "@ + m@,
        SandboxError::Violation(m) => "Sandbox violation: "@ + m@,
        SandboxError::Other(m) => m@,
    }
}

impl SandboxError {
    /// The text shown to a user for this error.
    pub fn message(&self) -> (r: String)
        ensures
            r@ == error_text(*self),
    {
        match self {
            SandboxError::Io(m) => String::from_str("IO error: ").concat(m.as_str()),
            SandboxError::Config(m) => String::from_str("Configuration error: ").concat(m.as_str()),
            SandboxError::Execution(m) => String::from_str("Sandbox execution error: ").concat(
                m.as_str(),
            ),
            SandboxError::UnsupportedPlatform(m) => String::from_str(
                "Platform not supported: ",
            ).concat(m.as_str()),
            SandboxError::Proxy(m) => String::from_str("Proxy error: ").concat(m.as_str()),
            SandboxError::Docker(m) => String::from_str("Docker error: ").concat(m.as_str()),
            SandboxError::Serialization(m) => String::from_str("Serialization error: ").concat(
                m.as_str(),
            ),
            SandboxError::CommandNotFound(m) => String::from_str("Command not found: ").concat(
                m.as_str(),
            ),
            SandboxError::Violation(m) => String::from_str("Sandbox violation: ").concat(
                m.as_str(),
            ),
            SandboxError::Other(m) => m.clone(),
        }
    }
}

impl From<String> for SandboxError {
    fn from(s: String) -> (r: SandboxError)
        ensures
            r == SandboxError::Other(s),
    {
        SandboxError::Other(s)
    }
}

impl vstd::std_specs::convert::FromSpecImpl<String> for SandboxError {
    open spec fn obeys_from_spec() -> bool {
        true
    }

    open spec fn from_spec(s: String) -> SandboxError {
        SandboxError::Other(s)
    }
}

} // verus!

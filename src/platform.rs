//! Platforms and architectures, as the runtime tells them apart.

use vstd::prelude::*;
use crate::text::str_eq;

verus! {

/// The platforms the runtime knows.
#[derive(Debug, Clone, Copy, PartialEq, Eq, Structural)]
pub enum Platform {
    /// macOS.
    MacOS,
    /// Linux.
    Linux,
    /// Windows (no isolation mechanism yet).
    Windows,
    /// Anything else.
    Unknown,
}

/// The platform's name.
pub open spec fn platform_name(p: Platform) -> Seq<char> {
    match p {
        Platform::MacOS => "macos"@,
        Platform::Linux => "linux"@,
        Platform::Windows => "windows"@,
        Platform::Unknown => "unknown"@,
    }
}

/// The platform an operating-system name stands for.
pub open spec fn platform_of(os: Seq<char>) -> Platform {
    if os == "macos"@ {
        Platform::MacOS
    } else if os == "linux"@ {
        Platform::Linux
    } else if os == "windows"@ {
        Platform::Windows
    } else {
        Platform::Unknown
    }
}

impl Platform {
    /// Whether this is macOS.
    pub fn is_macos(&self) -> (r: bool)
        ensures
            r == (*self == Platform::MacOS),
    {
        *self == Platform::MacOS
    }

    /// Whether this is Linux.
    pub fn is_linux(&self) -> (r: bool)
        ensures
            r == (*self == Platform::Linux),
    {
        *self == Platform::Linux
    }

    /// Whether the runtime has an isolation mechanism here: macOS and Linux.
    pub fn is_supported(&self) -> (r: bool)
        ensures
            r == (*self == Platform::MacOS || *self == Platform::Linux),
    {
        *self == Platform::MacOS || *self == Platform::Linux
    }

    /// The platform's name.
    pub fn as_str(&self) -> (r: &'static str)
        ensures
            r@ == platform_name(*self),
    {
        match self {
            Platform::MacOS => "macos",
            Platform::Linux => "linux",
            Platform::Windows => "windows",
            Platform::Unknown => "unknown",
        }
    }

    /// The platform an operating-system name (as Rust's target names it) stands for.
    pub fn from_os_name(os: &str) -> (r: Platform)
        ensures
            r == platform_of(os@),
    {
        if str_eq(os, "macos") {
            Platform::MacOS
        } else if str_eq(os, "linux") {
            Platform::Linux
        } else if str_eq(os, "windows") {
            Platform::Windows
        } else {
            Platform::Unknown
        }
    }
}

/// The short architecture label for a target architecture name.
pub open spec fn arch_label_of(arch: Seq<char>) -> Seq<char> {
    if arch == "x86_64"@ {
        "x64"@
    } else if arch == "aarch64"@ {
        "arm64"@
    } else {
        "unknown"@
    }
}

/// The short architecture label (`x64`, `arm64`, `unknown`) for a target
/// architecture name.
pub fn arch_label(arch: &str) -> (r: &'static str)
    ensures
        r@ == arch_label_of(arch@),
{
    if str_eq(arch, "x86_64") {
        "x64"
    } else if str_eq(arch, "aarch64") {
        "arm64"
    } else {
        "unknown"
    }
}

} // verus!

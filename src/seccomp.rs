//! Where the pre-built seccomp filter and its helper live, and the command
//! that applies the filter before running a command.

use vstd::prelude::*;
use crate::error::SandboxError;

verus! {

/// Locates the seccomp filter artifacts.
pub struct SeccompFilter;

/// The relative path of the pre-built filter for an architecture.
pub open spec fn filter_path_of(arch: Seq<char>) -> Seq<char> {
    "vendor/seccomp/"@ + arch + "/unix-block.bpf"@
}

/// The relative path of the helper script that applies the filter.
pub open spec fn helper_path_spec() -> Seq<char> {
    "vendor/seccomp-src/apply-seccomp-and-exec.py"@
}

impl SeccompFilter {
    /// The relative path of the pre-built filter for an architecture.
    pub fn filter_path(arch: &str) -> (r: String)
        ensures
            r@ == filter_path_of(arch@),
    {
        let mut r = String::from_str("vendor/seccomp/");
        r.append(arch);
        r.append("/unix-block.bpf");
        r
    }

    /// The filter's path, given whether it exists on disk; a missing filter
    /// is a configuration error.
    pub fn get_filter_path(arch: &str, exists: bool) -> (r: Result<String, SandboxError>)
        ensures
            r is Ok <==> exists,
            r matches Ok(p) ==> p@ == filter_path_of(arch@),
            r matches Err(e) ==> e is Config && e->Config_0@
                == "Seccomp BPF filter not found for architecture: "@ + arch@,
    {
        if exists {
            Ok(Self::filter_path(arch))
        } else {
            let mut msg = String::from_str("Seccomp BPF filter not found for architecture: ");
            msg.append(arch);
            Err(SandboxError::Config(msg))
        }
    }

    /// The relative path of the helper script.
    pub fn python_helper_path() -> (r: String)
        ensures
            r@ == helper_path_spec(),
    {
        String::from_str("vendor/seccomp-src/apply-seccomp-and-exec.py")
    }

    /// The helper's path, given whether it exists on disk; a missing helper
    /// is a configuration error.
    pub fn get_python_helper_path(exists: bool) -> (r: Result<String, SandboxError>)
        ensures
            r is Ok <==> exists,
            r matches Ok(p) ==> p@ == helper_path_spec(),
            r matches Err(e) ==> e is Config && e->Config_0@ == "Seccomp Python helper not found"@,
    {
        if exists {
            Ok(Self::python_helper_path())
        } else {
            Err(SandboxError::Config(String::from_str("Seccomp Python helper not found")))
        }
    }

    /// The command that applies the filter and then runs `command`.
    pub fn apply_filter_command(filter_path: &str, helper_path: &str, command: &str) -> (r: String)
        ensures
            r@ == "python3 "@ + helper_path@ + " "@ + filter_path@ + " -- "@ + command@,
    {
        let mut r = String::from_str("python3 ");
        r.append(helper_path);
        r.append(" ");
        r.append(filter_path);
        r.append(" -- ");
        r.append(command);
        r
    }

    /// Whether the filter can be used: only on Linux, and only when the
    /// pre-built filter was found.
    pub fn is_supported(is_linux: bool, filter_found: bool) -> (r: bool)
        ensures
            r == (is_linux && filter_found),
    {
        is_linux && filter_found
    }
}

} // verus!

//! What the machine reports of its operating system.

use vstd::prelude::*;

verus! {

/// The name and the version of the operating system, where they are known.
pub struct HostInfo {
    pub os_name: Option<String>,
    pub os_version: Option<String>,
}

/// Calls `sysinfo::System::name`, which reads the system's name from the
/// running machine. Nothing is claimed of the answer: it is whatever the
/// machine says, or nothing.
#[verifier::external_body]
fn get_os_name() -> (name: Option<String>) {
    sysinfo::System::name()
}

/// Calls `sysinfo::System::os_version`, which reads the system's version from
/// the running machine. Nothing is claimed of the answer.
#[verifier::external_body]
fn get_os_version() -> (version: Option<String>) {
    sysinfo::System::os_version()
}

impl HostInfo {
    /// Asks the running machine for its operating system's name and version.
    pub fn detect() -> (host: HostInfo) {
        let os_name = get_os_name();
        let os_version = get_os_version();
        HostInfo { os_name, os_version }
    }
}

} // verus!

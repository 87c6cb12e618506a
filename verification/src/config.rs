//! The settings that the library reads.

use vstd::prelude::*;

verus! {

/// A container engine.
#[derive(Clone, Copy, Debug, PartialEq, Eq, Structural)]
pub enum SandboxEngine {
    Docker,
    Podman,
}

impl SandboxEngine {
    /// The name of the engine's executable.
    pub open spec fn binary(self) -> Seq<char> {
        match self {
            SandboxEngine::Docker => "docker"@,
            SandboxEngine::Podman => "podman"@,
        }
    }

    /// The name of the engine's executable.
    pub fn binary_name(&self) -> (r: &'static str)
        ensures
            r@ == self.binary(),
    {
        match self {
            SandboxEngine::Docker => "docker",
            SandboxEngine::Podman => "podman",
        }
    }
}

/// The network of a sandbox.
#[derive(Clone, Copy, Debug, PartialEq, Eq, Structural)]
pub enum SandboxNetwork {
    /// No network at all.
    Off,
    /// The engine's default bridge.
    Bridge,
}

/// Settings of the sandbox that workers run in.
#[derive(Debug)]
pub struct SandboxConfig {
    pub engine: SandboxEngine,
    /// The image, by its digest.
    pub image: String,
    pub network: SandboxNetwork,
    /// Disk space that stays free on the host, in MiB.
    pub reserved_host_disk_mb: u64,
}

/// Settings of the daemon.
#[derive(Debug)]
pub struct Config {
    /// Failures after which a circuit opens.
    pub circuit_failure_threshold: u32,
    /// Delays of the circuit backoff, in seconds.
    pub circuit_backoff_seconds: Vec<u64>,
    /// Seconds after which an open circuit lets one probe through.
    pub circuit_open_interval_seconds: u64,
    /// Seconds after which work behind an open circuit needs attention.
    pub circuit_max_degraded_seconds: u64,
    /// Root of the repository storage.
    pub repo_storage_root: String,
    /// The sandbox, if workers run in one.
    pub sandbox: Option<SandboxConfig>,
    /// Directory of the durable state.
    pub state_dir: String,
    /// Label of tickets that ask for code.
    pub ticket_label_code: String,
    /// Label of tickets that ask for an investigation.
    pub ticket_label_investigation: String,
    /// Repositories that are watched.
    pub watched_repos: Vec<String>,
    /// Directory under which workers run.
    pub workdir_base: String,
}

} // verus!

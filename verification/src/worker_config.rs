//! Configuration of a worker, built from the values of its environment
//! variables.

use vstd::prelude::*;
use crate::config::{number_or, or_default, ConfigError};
use crate::text::{opt_view, parsed_unsigned};

verus! {

/// The VM image that is cloned where none is configured.
pub open spec fn default_image() -> Seq<char> {
    "ghcr.io/cirruslabs/macos-tahoe-xcode:latest"@
}

/// Configuration of a worker.
#[derive(Debug, Clone)]
pub struct Config {
    /// URL of the orchestrator API.
    pub orchestrator_url: String,
    /// This worker's hostname.
    pub hostname: String,
    /// Maximum number of concurrent jobs.
    pub capacity: u32,
    /// The VM image to clone.
    pub tart_base_image: String,
    /// Job timeout in minutes.
    pub job_timeout_minutes: u64,
    /// Number of VMs in the pool.
    pub vm_pool_size: u32,
    /// Command or script run once in each VM when it is initialised.
    pub vm_setup_script: Option<String>,
    /// Secret for authenticating with the orchestrator, if any.
    pub worker_secret_key: Option<String>,
    /// Directory for persistent data, such as the worker's identifier.
    pub data_dir: String,
}

impl Config {
    /// Builds the configuration from the values of `ORCHESTRATOR_URL`,
    /// `WORKER_HOSTNAME`, `WORKER_CAPACITY`, `TART_BASE_IMAGE`,
    /// `JOB_TIMEOUT_MINUTES`, `VM_POOL_SIZE`, `VM_SETUP_SCRIPT`,
    /// `WORKER_SECRET_KEY` and `WORKER_DATA_DIR`, each `None` where the
    /// variable is not set, together with the machine's own hostname and
    /// the `.alloy` directory of the user's home, where they are known.
    ///
    /// The orchestrator URL is required. The hostname falls back to the
    /// machine's, then to `unknown`; the capacity defaults to 2, the
    /// timeout to 60 minutes, the pool size to 1, and the data directory to
    /// the home's `.alloy`, then to `/tmp/alloy-worker`.
    pub fn from_vars(
        orchestrator_url: Option<String>,
        hostname: Option<String>,
        machine_hostname: Option<String>,
        capacity: Option<String>,
        tart_base_image: Option<String>,
        job_timeout_minutes: Option<String>,
        vm_pool_size: Option<String>,
        vm_setup_script: Option<String>,
        worker_secret_key: Option<String>,
        data_dir: Option<String>,
        home_data_dir: Option<String>,
    ) -> (r: Result<Config, ConfigError>)
        ensures
            match r {
                Ok(c) => {
                    &&& orchestrator_url is Some && c.orchestrator_url@ == orchestrator_url->0@
                    &&& c.hostname@ == match hostname {
                        Some(h) => h@,
                        None => match machine_hostname {
                            Some(m) => m@,
                            None => "unknown"@,
                        },
                    }
                    &&& match capacity {
                        Some(v) => parsed_unsigned(v@, u32::MAX as nat) == Some(c.capacity as nat),
                        None => c.capacity == 2,
                    }
                    &&& c.tart_base_image@ == match tart_base_image {
                        Some(i) => i@,
                        None => default_image(),
                    }
                    &&& match job_timeout_minutes {
                        Some(v) => parsed_unsigned(v@, u64::MAX as nat) == Some(
                            c.job_timeout_minutes as nat,
                        ),
                        None => c.job_timeout_minutes == 60,
                    }
                    &&& match vm_pool_size {
                        Some(v) => parsed_unsigned(v@, u32::MAX as nat) == Some(
                            c.vm_pool_size as nat,
                        ),
                        None => c.vm_pool_size == 1,
                    }
                    &&& opt_view(c.vm_setup_script) == opt_view(vm_setup_script)
                    &&& opt_view(c.worker_secret_key) == opt_view(worker_secret_key)
                    &&& c.data_dir@ == match data_dir {
                        Some(d) => d@,
                        None => match home_data_dir {
                            Some(h) => h@,
                            None => "/tmp/alloy-worker"@,
                        },
                    }
                },
                Err(ConfigError::MissingOrchestratorUrl) => orchestrator_url is None,
                Err(ConfigError::InvalidCapacity) => orchestrator_url is Some && capacity is Some
                    && parsed_unsigned(capacity->0@, u32::MAX as nat) is None,
                Err(ConfigError::InvalidTimeout) => orchestrator_url is Some && number_ok(
                    capacity,
                    u32::MAX as nat,
                ) && job_timeout_minutes is Some && parsed_unsigned(
                    job_timeout_minutes->0@,
                    u64::MAX as nat,
                ) is None,
                Err(ConfigError::InvalidPoolSize) => orchestrator_url is Some && number_ok(
                    capacity,
                    u32::MAX as nat,
                ) && number_ok(job_timeout_minutes, u64::MAX as nat) && vm_pool_size is Some
                    && parsed_unsigned(vm_pool_size->0@, u32::MAX as nat) is None,
                Err(_) => false,
            },
    {
        let orchestrator_url = match orchestrator_url {
            Some(u) => u,
            None => {
                return Err(ConfigError::MissingOrchestratorUrl);
            },
        };
        let hostname = match hostname {
            Some(h) => h,
            None => or_default(machine_hostname, "unknown"),
        };
        let capacity: u32 = match number_or(&capacity, 2, u32::MAX as u64) {
            Some(n) => n as u32,
            None => {
                return Err(ConfigError::InvalidCapacity);
            },
        };
        let job_timeout_minutes = match number_or(&job_timeout_minutes, 60, u64::MAX) {
            Some(n) => n,
            None => {
                return Err(ConfigError::InvalidTimeout);
            },
        };
        let vm_pool_size: u32 = match number_or(&vm_pool_size, 1, u32::MAX as u64) {
            Some(n) => n as u32,
            None => {
                return Err(ConfigError::InvalidPoolSize);
            },
        };
        let data_dir = match data_dir {
            Some(d) => d,
            None => or_default(home_data_dir, "/tmp/alloy-worker"),
        };
        Ok(
            Config {
                orchestrator_url,
                hostname,
                capacity,
                tart_base_image: or_default(
                    tart_base_image,
                    "ghcr.io/cirruslabs/macos-tahoe-xcode:latest",
                ),
                job_timeout_minutes,
                vm_pool_size,
                vm_setup_script,
                worker_secret_key,
                data_dir,
            },
        )
    }
}

/// Whether a variable is unset or holds a number up to `max`.
pub open spec fn number_ok(value: Option<String>, max: nat) -> bool {
    match value {
        Some(v) => parsed_unsigned(v@, max) is Some,
        None => true,
    }
}

} // verus!

//! Soak testing coordination for upgrade simulation.
//!
//! Soak-test workers run alongside a rollup manager; version transitions are coordinated based on
//! height polling, and the soak test ends with the manager.
use vstd::prelude::*;

use crate::runner::RunnerError;
use crate::soak_manager::{
    self, salts_representable, SoakMachine, SoakManagerError, SoakManagerView, SoakWorkerConfig,
};
use crate::upgrade_simulator::error::TestCaseError;
use crate::upgrade_simulator::test_case::SoakTestingConfig;

pub use crate::soak_manager::{start_soak_process, wait_for_height, wait_for_sequencer_ready};

verus! {

/// Combined soak testing configuration and version binaries.
///
/// This type unifies `SoakTestingConfig` with the version-specific soak binaries
/// and their stop heights, ensuring they're always provided together.
#[derive(Debug)]
pub struct SoakManagerConfig {
    /// The soak testing configuration (worker count, salt, etc.).
    pub config: SoakTestingConfig,
    /// Soak binary paths paired with their stop heights.
    pub versions: Vec<(String, u64)>,
}

impl DeepView for SoakManagerConfig {
    type V = SoakManagerView;

    open spec fn deep_view(&self) -> SoakManagerView {
        SoakManagerView {
            config: SoakWorkerConfig {
                num_workers: self.config.num_workers,
                salt: self.config.salt,
            },
            versions: self.versions.deep_view(),
        }
    }
}

impl SoakManagerConfig {
    /// Create a new soak manager config.
    pub fn new(config: SoakTestingConfig, versions: Vec<(String, u64)>) -> (r: Self)
        ensures
            r == (SoakManagerConfig { config, versions }),
    {
        SoakManagerConfig { config, versions }
    }

    /// Create the soak config for resync testing.
    ///
    /// During resync, the rollup replays existing transactions and won't accept
    /// new ones until it catches up. Soak testing only runs during the extra
    /// blocks phase at the end.
    ///
    /// Returns `None` if `extra_blocks_after_resync` is 0.
    pub fn for_resync(&self, extra_blocks_after_resync: u64) -> (r: Option<Self>)
        requires
            extra_blocks_after_resync > 0 ==> self.versions@.len() > 0,
            self.deep_view().resync_representable(extra_blocks_after_resync),
        ensures
            r is None <==> extra_blocks_after_resync == 0,
            r.deep_view() == self.deep_view().resync(extra_blocks_after_resync),
    {
        if extra_blocks_after_resync == 0 {
            return None;
        }
        let count: usize = self.versions.len();
        let last = &self.versions[count - 1];
        assert(self.deep_view().versions.last() == (last.0@, last.1));
        assert(0 <= self.config.num_workers * (count as u32)) by (nonlinear_arith);
        let config = SoakTestingConfig {
            num_workers: self.config.num_workers,
            salt: self.config.salt + self.config.num_workers * (count as u32),
        };
        let mut versions: Vec<(String, u64)> = Vec::new();
        versions.push((last.0.clone(), last.1 + extra_blocks_after_resync));
        assert(versions.deep_view() =~= seq![
            (last.0@, (last.1 + extra_blocks_after_resync) as u64),
        ]);
        Some(SoakManagerConfig { config, versions })
    }
}

/// How the task that runs a rollup manager came to its end.
#[derive(Debug)]
pub enum ManagerEnd {
    Ended(Result<(), RunnerError>),
    Panicked(String),
}

/// Coordinate soak testing alongside the rollup manager.
///
/// Monitors height to detect version transitions, stopping and restarting
/// soak workers at each transition point. The end of the manager is the shutdown signal, and once
/// all versions are through there is no limit to the wait for it.
pub fn run_soak_coordinator(soak_config: SoakManagerConfig, api_url: String) -> (m: SoakMachine)
    requires
        salts_representable(soak_config.deep_view()),
    ensures
        m.wf(),
        m.config.deep_view() == soak_config.deep_view(),
        m.api_url == api_url,
        m.settle_millis is None,
        m.salt == soak_config.config.salt,
        m.phase == m.begin(0),
{
    let config = SoakWorkerConfig {
        num_workers: soak_config.config.num_workers,
        salt: soak_config.config.salt,
    };
    let config = soak_manager::SoakManagerConfig::new(config, soak_config.versions);
    soak_manager::run_soak_coordinator(config, api_url, None)
}

/// The error of a test case that the failure of a soak test is.
pub open spec fn soak_failure(e: SoakManagerError) -> TestCaseError {
    match e {
        SoakManagerError::SoakTestStartFailed(m) => TestCaseError::SoakTestStartFailed(m),
        SoakManagerError::SoakTestFailed { exit_code } => TestCaseError::SoakTestFailed {
            exit_code,
        },
    }
}

/// The error of a test case that the failure of a soak test is.
pub fn soak_error(e: SoakManagerError) -> (r: TestCaseError)
    ensures
        r == soak_failure(e),
{
    match e {
        SoakManagerError::SoakTestStartFailed(m) => TestCaseError::SoakTestStartFailed(m),
        SoakManagerError::SoakTestFailed { exit_code } => TestCaseError::SoakTestFailed {
            exit_code,
        },
    }
}

/// What a coordinated run amounts to: a failure of the soak test goes before that of the manager.
pub fn coordinated_result(soak: Result<(), SoakManagerError>, manager: ManagerEnd) -> (r: Result<
    (),
    TestCaseError,
>)
    ensures
        match (soak, manager) {
            (Err(e), _) => r == Err::<(), TestCaseError>(soak_failure(e)),
            (Ok(()), ManagerEnd::Panicked(m)) => r == Err::<(), TestCaseError>(
                TestCaseError::ManagerTaskPanic(m),
            ),
            (Ok(()), ManagerEnd::Ended(Err(e))) => r == Err::<(), TestCaseError>(
                TestCaseError::Runner(e),
            ),
            (Ok(()), ManagerEnd::Ended(Ok(()))) => r is Ok,
        },
{
    match soak {
        Err(e) => Err(soak_error(e)),
        Ok(()) => match manager {
            ManagerEnd::Panicked(m) => Err(TestCaseError::ManagerTaskPanic(m)),
            ManagerEnd::Ended(Err(e)) => Err(TestCaseError::Runner(e)),
            ManagerEnd::Ended(Ok(())) => Ok(()),
        },
    }
}

} // verus!

//! Test framework that takes rollups through upgrades under the rollup manager.
//!
//! - Builds of rollup binaries from commits, cached
//! - Node layouts with one master and any number of replicas
//! - Resync testing: clearing state and replaying from DA data
//! - Soak testing: transaction load during an upgrade

pub mod builder;
pub mod case_laws;
pub mod docker;
pub mod error;
pub mod failure_laws;
pub mod layout_laws;
pub mod node_config;
pub mod node_laws;
pub mod node_runner;
pub mod phase_laws;
pub mod preparation_laws;
pub mod replies_read;
pub mod run;
pub mod soak;
pub mod test_case;

pub use builder::{BuilderError, RollupBuilder, DEFAULT_REPO_URL};
pub use error::TestCaseError;
pub use run::run_test_case;
pub use test_case::{load_test_case, SoakTestingConfig, TestCase, VersionSpec};

//! Manager for rollup nodes that carries a chain through hard-fork upgrades.

pub mod artifact_builder;
pub mod build_cache;
pub mod build_laws;
pub mod checkpoint;
pub mod config;
pub mod journal;
pub mod json;
pub mod mock_laws;
pub mod mock_rollup;
pub mod path;
pub mod process;
pub mod rollup_api;
pub mod run_laws;
pub mod runner;
pub mod setup_laws;
pub mod soak_laws;
pub mod soak_manager;
pub mod test_utils;
pub mod text;
pub mod upgrade_simulator;
pub mod version_laws;
pub mod versioned_setup;

pub use checkpoint::{
    load_checkpoint, write_checkpoint, Checkpoint, CheckpointConfig, CheckpointError,
};
pub use config::{ConfigError, ManagerConfig, RollupVersion};
pub use rollup_api::{parse_http_port, RollupApiClient, RollupApiError};
pub use runner::{run, run_with_options, RunnerError};

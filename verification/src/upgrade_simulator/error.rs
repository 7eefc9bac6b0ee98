//! Error types for the upgrade simulator.
use vstd::prelude::*;

use crate::build_cache::BuilderError;
use crate::process::ExitStatus;
use crate::rollup_api::RollupApiError;
use crate::runner::RunnerError;
use crate::upgrade_simulator::docker::DockerError;

verus! {

/// Errors that can occur when running a test case. In contracts a text is `Seq<char>`.
#[derive(Debug)]
pub enum TestCaseError<S = String> {
    /// A rollup could not be built.
    Build(BuilderError<S>),
    /// The directory of the test case cannot be resolved.
    InvalidTestCaseRoot(S, S),
    /// The path of a binary cannot be resolved.
    InvalidBinaryPath(S, S),
    /// The path of a config file cannot be resolved.
    InvalidConfigPath(S, S),
    /// The directory of a test case has no name.
    InvalidDirName(S),
    /// The description of a test case could not be read.
    ReadTestCase { path: S, source: S },
    /// The description of a test case could not be decoded.
    ParseTestCase { path: S, source: S },
    /// A version has two migrations.
    AmbiguousMigrationFile { version: usize, migration: S, migration_sh: S },
    /// The path of a migration cannot be resolved.
    InvalidMigrationPath { version: usize, path: S, source: S },
    /// A config file is missing.
    ConfigNotFound(S),
    /// A config file could not be read.
    ReadConfig { path: S, source: S },
    /// An interpolated config file could not be written.
    WriteConfig { path: S, source: S },
    /// A config file could not be decoded.
    ParseConfig { path: S, source: S },
    /// Two versions use different storage paths.
    StoragePathMismatch { first: S, version: usize, other: S },
    /// The run directory could not be created.
    CreateRunDir(S, S),
    /// The run directory could not be cleared.
    ClearRunDir(S, S),
    /// A storage directory could not be created.
    CreateStorageDir(S, S),
    /// A storage directory could not be cleared.
    ClearStorageDir(S, S),
    /// The working directory could not be changed.
    WorkingDir(S),
    /// The rollup manager failed.
    Runner(RunnerError),
    /// No HTTP port could be read from a config file.
    HttpPortParse(RollupApiError),
    /// The soak workers could not be started.
    SoakTestStartFailed(S),
    /// The soak workers failed.
    SoakTestFailed { exit_code: i32 },
    /// The task that runs the rollup manager panicked.
    ManagerTaskPanic(S),
    /// A docker operation failed.
    Docker(DockerError<S>),
    /// The test case has no versions.
    NoVersions,
    /// Two nodes use one port.
    PortConflict { port: u16, node1: S, node2: S },
    /// Two nodes use one storage path.
    StoragePathConflict { path: S, node1: S, node2: S },
    /// A version has another number of replicas than the first one.
    ReplicaCountMismatch { version: usize, count: usize, expected: usize },
    /// A version's config files are of another mode than expected.
    ConfigModeMismatch { version: usize, mode: S, expected_mode: S },
    /// A node's settings differ between versions.
    CrossVersionMismatch { node_type: S, field: S, v0_value: S, version: usize, other_value: S },
    /// The task that runs a node panicked.
    NodeTaskPanic { node_type: S, source: S },
    /// A node's manager could not be started.
    ManagerSpawn { node_type: S, source: S },
    /// A node's manager failed.
    ManagerNonZeroExit { node_type: S, status: ExitStatus },
    /// A node's manager could not be waited for.
    ManagerWait { node_type: S, source: S },
    /// A node's manager config could not be written.
    WriteManagerConfig { node_type: S, source: S },
    /// The rollup manager could not be built.
    BuildManager(S),
    /// A manager config could not be encoded.
    SerializeManagerConfig(S),
    /// The test was interrupted by a signal.
    Interrupted,
    /// The mock-da-server could not be started.
    MockDaSpawn(S),
}

impl DeepView for TestCaseError {
    type V = TestCaseError<Seq<char>>;

    open spec fn deep_view(&self) -> TestCaseError<Seq<char>> {
        match *self {
            TestCaseError::Build(a) => TestCaseError::Build(a.deep_view()),
            TestCaseError::InvalidTestCaseRoot(a, b) => TestCaseError::InvalidTestCaseRoot(a@, b@),
            TestCaseError::InvalidBinaryPath(a, b) => TestCaseError::InvalidBinaryPath(a@, b@),
            TestCaseError::InvalidConfigPath(a, b) => TestCaseError::InvalidConfigPath(a@, b@),
            TestCaseError::InvalidDirName(a) => TestCaseError::InvalidDirName(a@),
            TestCaseError::ReadTestCase { path, source } => TestCaseError::ReadTestCase {
                path: path@,
                source: source@,
            },
            TestCaseError::ParseTestCase { path, source } => TestCaseError::ParseTestCase {
                path: path@,
                source: source@,
            },
            TestCaseError::AmbiguousMigrationFile { version, migration, migration_sh } => TestCaseError::AmbiguousMigrationFile {
                version,
                migration: migration@,
                migration_sh: migration_sh@,
            },
            TestCaseError::InvalidMigrationPath { version, path, source } => TestCaseError::InvalidMigrationPath {
                version,
                path: path@,
                source: source@,
            },
            TestCaseError::ConfigNotFound(a) => TestCaseError::ConfigNotFound(a@),
            TestCaseError::ReadConfig { path, source } => TestCaseError::ReadConfig {
                path: path@,
                source: source@,
            },
            TestCaseError::WriteConfig { path, source } => TestCaseError::WriteConfig {
                path: path@,
                source: source@,
            },
            TestCaseError::ParseConfig { path, source } => TestCaseError::ParseConfig {
                path: path@,
                source: source@,
            },
            TestCaseError::StoragePathMismatch { first, version, other } => TestCaseError::StoragePathMismatch {
                first: first@,
                version,
                other: other@,
            },
            TestCaseError::CreateRunDir(a, b) => TestCaseError::CreateRunDir(a@, b@),
            TestCaseError::ClearRunDir(a, b) => TestCaseError::ClearRunDir(a@, b@),
            TestCaseError::CreateStorageDir(a, b) => TestCaseError::CreateStorageDir(a@, b@),
            TestCaseError::ClearStorageDir(a, b) => TestCaseError::ClearStorageDir(a@, b@),
            TestCaseError::WorkingDir(a) => TestCaseError::WorkingDir(a@),
            TestCaseError::Runner(a) => TestCaseError::Runner(a),
            TestCaseError::HttpPortParse(a) => TestCaseError::HttpPortParse(a),
            TestCaseError::SoakTestStartFailed(a) => TestCaseError::SoakTestStartFailed(a@),
            TestCaseError::SoakTestFailed { exit_code } => TestCaseError::SoakTestFailed {
                exit_code,
            },
            TestCaseError::ManagerTaskPanic(a) => TestCaseError::ManagerTaskPanic(a@),
            TestCaseError::Docker(a) => TestCaseError::Docker(a.deep_view()),
            TestCaseError::NoVersions => TestCaseError::NoVersions,
            TestCaseError::PortConflict { port, node1, node2 } => TestCaseError::PortConflict {
                port,
                node1: node1@,
                node2: node2@,
            },
            TestCaseError::StoragePathConflict { path, node1, node2 } => TestCaseError::StoragePathConflict {
                path: path@,
                node1: node1@,
                node2: node2@,
            },
            TestCaseError::ReplicaCountMismatch { version, count, expected } => TestCaseError::ReplicaCountMismatch {
                version,
                count,
                expected,
            },
            TestCaseError::ConfigModeMismatch { version, mode, expected_mode } => TestCaseError::ConfigModeMismatch {
                version,
                mode: mode@,
                expected_mode: expected_mode@,
            },
            TestCaseError::CrossVersionMismatch { node_type, field, v0_value, version, other_value } => TestCaseError::CrossVersionMismatch {
                node_type: node_type@,
                field: field@,
                v0_value: v0_value@,
                version,
                other_value: other_value@,
            },
            TestCaseError::NodeTaskPanic { node_type, source } => TestCaseError::NodeTaskPanic {
                node_type: node_type@,
                source: source@,
            },
            TestCaseError::ManagerSpawn { node_type, source } => TestCaseError::ManagerSpawn {
                node_type: node_type@,
                source: source@,
            },
            TestCaseError::ManagerNonZeroExit { node_type, status } => TestCaseError::ManagerNonZeroExit {
                node_type: node_type@,
                status,
            },
            TestCaseError::ManagerWait { node_type, source } => TestCaseError::ManagerWait {
                node_type: node_type@,
                source: source@,
            },
            TestCaseError::WriteManagerConfig { node_type, source } => TestCaseError::WriteManagerConfig {
                node_type: node_type@,
                source: source@,
            },
            TestCaseError::BuildManager(a) => TestCaseError::BuildManager(a@),
            TestCaseError::SerializeManagerConfig(a) => TestCaseError::SerializeManagerConfig(a@),
            TestCaseError::Interrupted => TestCaseError::Interrupted,
            TestCaseError::MockDaSpawn(a) => TestCaseError::MockDaSpawn(a@),
        }
    }
}

} // verus!

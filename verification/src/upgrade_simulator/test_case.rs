//! Test case definition and loading.
//!
//! A test case specifies versions to upgrade through and the node layout
//! (master + optional replicas). Layout detection happens at load time.
use vstd::prelude::*;

use crate::config::{FileRead, RollupVersion, VersionView};
use crate::journal::{
    flag_at, outcome, test_case_at, text_at, HostCall, HostCallView, HostReply, Journal, Outcome,
    Stop,
};
use crate::path::{file_name, join_path, joined_path, parent, parent_path, path_file_name};
use crate::soak_manager::{SoakManagerConfig, SoakManagerView, SoakWorkerConfig};
use crate::upgrade_simulator::builder::{
    rollup_build, soak_build, RollupBuilder, DEFAULT_REPO_URL,
};
use crate::upgrade_simulator::error::TestCaseError;
use crate::upgrade_simulator::node_config::{
    conflict_free, detect_all_nodes, detected_nodes_are_in_order, detected_settings_agree,
    first_conflict, has_settings, is_node_list, layout_keys, nodes_detected,
    valid_means_conflict_free, validate_keys, NodeKey, NodeView,
};
use crate::upgrade_simulator::node_runner::NodeVersions;

pub use crate::upgrade_simulator::node_config::NodeType;

verus! {

/// Configuration for a single node across all versions.
#[derive(Debug)]
pub struct NodeInfo {
    /// Type of this node.
    pub node_type: NodeType,
    /// Config file paths for each version (indexed by version number).
    pub config_paths: Vec<String>,
    /// HTTP port for the rollup API (must be same across all versions).
    pub http_port: u16,
    /// Storage path (must be same across all versions).
    pub storage_path: String,
}

impl DeepView for NodeInfo {
    type V = NodeView;

    open spec fn deep_view(&self) -> NodeView {
        NodeView {
            node_type: self.node_type,
            config_paths: self.config_paths.deep_view(),
            http_port: self.http_port,
            storage_path: self.storage_path@,
        }
    }
}

/// Configuration for soak testing during upgrade simulation.
#[derive(Debug, Clone, Copy, PartialEq, Eq, Structural)]
pub struct SoakTestingConfig {
    /// Number of concurrent soak test workers (default: 5).
    pub num_workers: u32,
    /// RNG salt for reproducibility (default: 0).
    /// Use different salts when restarting to avoid transaction overlap.
    pub salt: u32,
}

/// The number of soak workers where a test case names none.
pub fn default_num_workers() -> (n: u32)
    ensures
        n == 5,
{
    5
}

/// The number of extra blocks after a resync where a test case names none.
pub fn default_extra_resync_blocks() -> (n: u64)
    ensures
        n == 10,
{
    10
}

/// Specification for a single rollup version in a test case.
#[derive(Debug)]
pub struct VersionSpec {
    /// Git commit hash to build from.
    pub commit: String,
    /// Start height (None for first version).
    pub start_height: Option<u64>,
    /// Stop height for this version.
    pub stop_height: u64,
}

impl Clone for VersionSpec {
    fn clone(&self) -> (r: Self)
        ensures
            r == *self,
    {
        VersionSpec {
            commit: self.commit.clone(),
            start_height: self.start_height,
            stop_height: self.stop_height,
        }
    }
}

/// The content of `test_case.toml`. In contracts the list of versions is a `Seq`.
#[derive(Debug)]
pub struct TestCaseFile<L = Vec<VersionSpec>> {
    /// Optional repository URL override.
    pub repo_url: Option<String>,
    /// Extra blocks to run after resync (defaults to 10).
    pub extra_blocks_after_resync: u64,
    /// Optional soak testing configuration.
    pub soak_testing: Option<SoakTestingConfig>,
    pub versions: L,
}

impl View for TestCaseFile {
    type V = TestCaseFile<Seq<VersionSpec>>;

    open spec fn view(&self) -> TestCaseFile<Seq<VersionSpec>> {
        TestCaseFile {
            repo_url: self.repo_url,
            extra_blocks_after_resync: self.extra_blocks_after_resync,
            soak_testing: self.soak_testing,
            versions: self.versions@,
        }
    }
}

impl Clone for TestCaseFile {
    fn clone(&self) -> (r: Self)
        ensures
            r@ == self@,
    {
        let mut versions: Vec<VersionSpec> = Vec::new();
        let mut i: usize = 0;
        while i < self.versions.len()
            invariant
                i <= self.versions.len(),
                versions@ == self.versions@.take(i as int),
            decreases self.versions.len() - i,
        {
            versions.push(self.versions[i].clone());
            assert(self.versions@.take(i + 1) =~= self.versions@.take(i as int).push(
                self.versions@[i as int],
            ));
            i = i + 1;
        }
        assert(self.versions@.take(i as int) =~= self.versions@);
        let repo_url = match &self.repo_url {
            Some(url) => Some(url.clone()),
            None => None,
        };
        TestCaseFile {
            repo_url,
            extra_blocks_after_resync: self.extra_blocks_after_resync,
            soak_testing: self.soak_testing,
            versions,
        }
    }
}

/// A test case definition specifying versions to upgrade through.
#[derive(Debug)]
pub struct TestCase {
    /// Human-readable name for this test case (derived from subdirectory name).
    pub name: String,
    /// Repository URL to clone (defaults to DEFAULT_REPO_URL).
    pub repo_url: String,
    /// The versions to run through, in order.
    pub versions: Vec<VersionSpec>,
    /// Extra blocks to run after resync completes on the last version.
    /// This helps verify the rollup can continue producing blocks after resyncing.
    pub extra_blocks_after_resync: u64,
    /// Optional soak testing configuration.
    /// When present, generates transaction load during the upgrade test.
    pub soak_testing: Option<SoakTestingConfig>,
    /// Node configurations. nodes[0] is always master, nodes[1..] are replicas.
    /// Single-node tests have exactly one node.
    pub nodes: Vec<NodeInfo>,
}

/// The text of a test case.
#[verifier::ext_equal]
pub struct TestCaseView {
    pub name: Seq<char>,
    pub repo_url: Seq<char>,
    pub versions: Seq<VersionSpec>,
    pub extra_blocks_after_resync: u64,
    pub soak_testing: Option<SoakTestingConfig>,
    pub nodes: Seq<NodeView>,
}

impl DeepView for TestCase {
    type V = TestCaseView;

    open spec fn deep_view(&self) -> TestCaseView {
        TestCaseView {
            name: self.name@,
            repo_url: self.repo_url@,
            versions: self.versions@,
            extra_blocks_after_resync: self.extra_blocks_after_resync,
            soak_testing: self.soak_testing,
            nodes: self.nodes.deep_view(),
        }
    }
}

impl TestCaseView {
    /// Every node has a config file for every version.
    pub open spec fn complete(self) -> bool {
        forall|n: int|
            0 <= n < self.nodes.len() ==> (#[trigger] self.nodes[n]).config_paths.len()
                >= self.versions.len()
    }
}

/// A binary for a commit, resolved.
pub open spec fn binary_resolved(
    built: Outcome<Seq<char>, crate::build_cache::BuilderError<Seq<char>>>,
    replies: Seq<HostReply>,
) -> Outcome<Seq<char>, TestCaseError<Seq<char>>> {
    match built {
        Outcome::Asks(call, stop) => Outcome::Asks(call, stop),
        Outcome::Fails(e, next) => Outcome::Fails(TestCaseError::Build(e), next),
        Outcome::Gives(path, next) => match text_at(replies, next) {
            None => Outcome::Asks(HostCallView::Canonicalize { path }, next),
            Some(Err(m)) => Outcome::Fails(
                TestCaseError::InvalidBinaryPath(path, m@),
                next + 1,
            ),
            Some(Ok(resolved)) => Outcome::Gives(resolved@, next + 1),
        },
    }
}

/// The migration in a version's directory: a file called `migration` or `migration.sh`. Where both
/// are there, it is unclear which one is meant.
pub open spec fn migration_discovered(
    dir: Seq<char>,
    version: nat,
    replies: Seq<HostReply>,
    at: nat,
) -> Outcome<Option<Seq<char>>, TestCaseError<Seq<char>>> {
    let migration = joined_path(dir, "migration"@);
    let migration_sh = joined_path(dir, "migration.sh"@);
    match flag_at(replies, at) {
        None => Outcome::Asks(HostCallView::IsFile { path: migration }, at),
        Some(has_migration) => match flag_at(replies, at + 1) {
            None => Outcome::Asks(HostCallView::IsFile { path: migration_sh }, at + 1),
            Some(has_migration_sh) => if has_migration && has_migration_sh {
                Outcome::Fails(
                    TestCaseError::AmbiguousMigrationFile {
                        version: version as usize,
                        migration,
                        migration_sh,
                    },
                    at + 2,
                )
            } else if !has_migration && !has_migration_sh {
                Outcome::Gives(None, at + 2)
            } else {
                let path = if has_migration {
                    migration
                } else {
                    migration_sh
                };
                match text_at(replies, at + 2) {
                    None => Outcome::Asks(HostCallView::Canonicalize { path }, at + 2),
                    Some(Err(m)) => Outcome::Fails(
                        TestCaseError::InvalidMigrationPath {
                            version: version as usize,
                            path,
                            source: m@,
                        },
                        at + 3,
                    ),
                    Some(Ok(resolved)) => Outcome::Gives(Some(resolved@), at + 3),
                }
            },
        },
    }
}

/// Discover an optional migration script for a version directory.
///
/// Supported file names are `migration` and `migration.sh`.
/// If both exist, returns an error to avoid ambiguity.
pub fn discover_version_migration(version_dir: &str, version_idx: usize, journal: &mut Journal) -> (r:
    Result<Option<String>, Stop<TestCaseError>>)
    ensures
        outcome(r, *final(journal)) == migration_discovered(
            version_dir@,
            version_idx as nat,
            old(journal).replies@,
            old(journal).next as nat,
        ),
        final(journal).replies == old(journal).replies,
{
    let migration = join_path(version_dir, "migration");
    let migration_sh = join_path(version_dir, "migration.sh");
    let has_migration = journal.ask_flag(HostCall::IsFile { path: migration.clone() })?;
    let has_migration_sh = journal.ask_flag(HostCall::IsFile { path: migration_sh.clone() })?;
    if has_migration && has_migration_sh {
        return Err(
            Stop::Fail(
                TestCaseError::AmbiguousMigrationFile {
                    version: version_idx,
                    migration,
                    migration_sh,
                },
            ),
        );
    }
    let path = if has_migration {
        migration
    } else if has_migration_sh {
        migration_sh
    } else {
        return Ok(None);
    };
    match journal.ask_text(HostCall::Canonicalize { path: path.clone() })? {
        Ok(resolved) => Ok(Some(resolved)),
        Err(source) => Err(
            Stop::Fail(
                TestCaseError::InvalidMigrationPath { version: version_idx, path, source },
            ),
        ),
    }
}

/// The soak binaries of a list of versions with their stop heights, where those before them are
/// `done`.
pub open spec fn soak_versions_built(
    builder: RollupBuilder,
    versions: Seq<VersionSpec>,
    done: Seq<(Seq<char>, u64)>,
    replies: Seq<HostReply>,
    at: nat,
) -> Outcome<Seq<(Seq<char>, u64)>, TestCaseError<Seq<char>>>
    decreases versions.len(),
{
    if versions.len() == 0 {
        Outcome::Gives(done, at)
    } else {
        match binary_resolved(
            builder.binary(versions[0].commit@, soak_build(), replies, at),
            replies,
        ) {
            Outcome::Asks(call, stop) => Outcome::Asks(call, stop),
            Outcome::Fails(e, next) => Outcome::Fails(e, next),
            Outcome::Gives(binary, next) => soak_versions_built(
                builder,
                versions.skip(1),
                done.push((binary, versions[0].stop_height)),
                replies,
                next,
            ),
        }
    }
}

/// The path of a version's config file, resolved.
pub open spec fn config_resolved(path: Seq<char>, replies: Seq<HostReply>, at: nat) -> Outcome<
    Seq<char>,
    TestCaseError<Seq<char>>,
> {
    match text_at(replies, at) {
        None => Outcome::Asks(HostCallView::Canonicalize { path }, at),
        Some(Err(m)) => Outcome::Fails(TestCaseError::InvalidConfigPath(path, m@), at + 1),
        Some(Ok(resolved)) => Outcome::Gives(resolved@, at + 1),
    }
}

/// The migration next to a config file.
pub open spec fn migration_of(
    config_path: Seq<char>,
    version: nat,
    replies: Seq<HostReply>,
    at: nat,
) -> Outcome<Option<Seq<char>>, TestCaseError<Seq<char>>> {
    match parent(config_path) {
        None => Outcome::Fails(
            TestCaseError::InvalidConfigPath(
                config_path,
                "config path has no parent directory"@,
            ),
            at,
        ),
        Some(dir) => migration_discovered(dir, version, replies, at),
    }
}

/// One version of a node: its binary, its config file, and its migration.
pub open spec fn node_version_built(
    builder: RollupBuilder,
    spec: VersionSpec,
    version: nat,
    config: Seq<char>,
    replies: Seq<HostReply>,
    at: nat,
) -> Outcome<VersionView, TestCaseError<Seq<char>>> {
    match binary_resolved(builder.binary(spec.commit@, rollup_build(), replies, at), replies) {
        Outcome::Asks(call, stop) => Outcome::Asks(call, stop),
        Outcome::Fails(e, next) => Outcome::Fails(e, next),
        Outcome::Gives(rollup_binary, built) => match config_resolved(config, replies, built) {
            Outcome::Asks(call, stop) => Outcome::Asks(call, stop),
            Outcome::Fails(e, next) => Outcome::Fails(e, next),
            Outcome::Gives(config_path, found) => match migration_of(
                config_path,
                version,
                replies,
                found,
            ) {
                Outcome::Asks(call, stop) => Outcome::Asks(call, stop),
                Outcome::Fails(e, next) => Outcome::Fails(e, next),
                Outcome::Gives(migration_path, next) => Outcome::Gives(
                    VersionView {
                        rollup_binary,
                        config_path,
                        migration_path,
                        start_height: spec.start_height,
                        stop_height: Some(spec.stop_height),
                    },
                    next,
                ),
            },
        },
    }
}

/// The versions of a node, where those before them are `done`.
pub open spec fn node_versions_built(
    builder: RollupBuilder,
    specs: Seq<VersionSpec>,
    configs: Seq<Seq<char>>,
    done: Seq<VersionView>,
    replies: Seq<HostReply>,
    at: nat,
) -> Outcome<Seq<VersionView>, TestCaseError<Seq<char>>>
    decreases specs.len() - done.len(),
{
    if done.len() >= specs.len() {
        Outcome::Gives(done, at)
    } else {
        let i = done.len() as int;
        match node_version_built(builder, specs[i], done.len(), configs[i], replies, at) {
            Outcome::Asks(call, stop) => Outcome::Asks(call, stop),
            Outcome::Fails(e, next) => Outcome::Fails(e, next),
            Outcome::Gives(version, next) => node_versions_built(
                builder,
                specs,
                configs,
                done.push(version),
                replies,
                next,
            ),
        }
    }
}

/// The versions of all nodes, where those of the nodes before them are `done`.
pub open spec fn all_versions_built(
    builder: RollupBuilder,
    specs: Seq<VersionSpec>,
    nodes: Seq<NodeView>,
    done: Seq<Seq<VersionView>>,
    replies: Seq<HostReply>,
    at: nat,
) -> Outcome<Seq<Seq<VersionView>>, TestCaseError<Seq<char>>>
    decreases nodes.len() - done.len(),
{
    if done.len() >= nodes.len() {
        Outcome::Gives(done, at)
    } else {
        match node_versions_built(
            builder,
            specs,
            nodes[done.len() as int].config_paths,
            seq![],
            replies,
            at,
        ) {
            Outcome::Asks(call, stop) => Outcome::Asks(call, stop),
            Outcome::Fails(e, next) => Outcome::Fails(e, next),
            Outcome::Gives(versions, next) => all_versions_built(
                builder,
                specs,
                nodes,
                done.push(versions),
                replies,
                next,
            ),
        }
    }
}

impl TestCaseView {
    /// The soak manager configuration, where soak testing is configured.
    pub open spec fn soak_config_built(
        self,
        builder: RollupBuilder,
        replies: Seq<HostReply>,
        at: nat,
    ) -> Outcome<Option<SoakManagerView>, TestCaseError<Seq<char>>> {
        match self.soak_testing {
            None => Outcome::Gives(None, at),
            Some(soak) => match soak_versions_built(builder, self.versions, seq![], replies, at) {
                Outcome::Asks(call, stop) => Outcome::Asks(call, stop),
                Outcome::Fails(e, next) => Outcome::Fails(e, next),
                Outcome::Gives(versions, next) => Outcome::Gives(
                    Some(
                        SoakManagerView {
                            config: SoakWorkerConfig {
                                num_workers: soak.num_workers,
                                salt: soak.salt,
                            },
                            versions,
                        },
                    ),
                    next,
                ),
            },
        }
    }

    /// The versions of all nodes.
    pub open spec fn node_versions(self, builder: RollupBuilder, replies: Seq<HostReply>, at: nat)
        -> Outcome<Seq<Seq<VersionView>>, TestCaseError<Seq<char>>> {
        all_versions_built(builder, self.versions, self.nodes, seq![], replies, at)
    }
}

/// Resolves the path of a binary that was built.
fn resolve_binary(
    built: Result<String, Stop<crate::build_cache::BuilderError>>,
    journal: &mut Journal,
) -> (r: Result<String, Stop<TestCaseError>>)
    ensures
        outcome(r, *final(journal)) == binary_resolved(
            outcome(built, *old(journal)),
            old(journal).replies@,
        ),
        final(journal).replies == old(journal).replies,
{
    let binary = match built {
        Ok(binary) => binary,
        Err(Stop::Ask(call)) => {
            return Err(Stop::Ask(call));
        },
        Err(Stop::Fail(e)) => {
            return Err(Stop::Fail(TestCaseError::Build(e)));
        },
    };
    match journal.ask_text(HostCall::Canonicalize { path: binary.clone() })? {
        Ok(resolved) => Ok(resolved),
        Err(m) => Err(Stop::Fail(TestCaseError::InvalidBinaryPath(binary, m))),
    }
}

impl TestCase {
    /// Get the number of replicas (0 for single-node tests).
    pub fn num_replicas(&self) -> (n: usize)
        ensures
            n == if self.nodes@.len() > 0 {
                self.nodes@.len() - 1
            } else {
                0
            },
    {
        if self.nodes.len() > 0 {
            self.nodes.len() - 1
        } else {
            0
        }
    }

    /// Whether every node has a config file for every version.
    pub fn is_complete(&self) -> (b: bool)
        ensures
            b == self.deep_view().complete(),
    {
        let ghost view = self.deep_view();
        let mut n: usize = 0;
        while n < self.nodes.len()
            invariant
                n <= self.nodes.len(),
                view == self.deep_view(),
                forall|i: int|
                    0 <= i < n ==> (#[trigger] view.nodes[i]).config_paths.len()
                        >= view.versions.len(),
            decreases self.nodes.len() - n,
        {
            assert(view.nodes[n as int] == self.nodes@[n as int].deep_view());
            if self.nodes[n].config_paths.len() < self.versions.len() {
                return false;
            }
            n = n + 1;
        }
        true
    }

    /// Build soak manager config if soak testing is enabled.
    ///
    /// Returns `None` if soak testing is not configured.
    /// Builds soak binaries for each version and pairs them with stop heights.
    pub fn build_soak_config(&self, builder: &RollupBuilder, journal: &mut Journal) -> (r: Result<
        Option<SoakManagerConfig>,
        Stop<TestCaseError>,
    >)
        ensures
            outcome(r, *final(journal)) == self.deep_view().soak_config_built(
                *builder,
                old(journal).replies@,
                old(journal).next as nat,
            ),
            final(journal).replies == old(journal).replies,
    {
        let soak = match &self.soak_testing {
            Some(soak) => *soak,
            None => {
                return Ok(None);
            },
        };
        let config = SoakWorkerConfig { num_workers: soak.num_workers, salt: soak.salt };
        let versions = self.build_soak_versions(builder, journal)?;
        Ok(Some(SoakManagerConfig::new(config, versions)))
    }

    fn build_soak_versions(&self, builder: &RollupBuilder, journal: &mut Journal) -> (r: Result<
        Vec<(String, u64)>,
        Stop<TestCaseError>,
    >)
        ensures
            outcome(r, *final(journal)) == soak_versions_built(
                *builder,
                self.versions@,
                seq![],
                old(journal).replies@,
                old(journal).next as nat,
            ),
            final(journal).replies == old(journal).replies,
    {
        let ghost replies = journal.replies@;
        let ghost all = self.versions@;
        let ghost whole = soak_versions_built(
            *builder,
            all,
            seq![],
            replies,
            journal.next as nat,
        );
        let mut versions: Vec<(String, u64)> = Vec::new();
        let mut i: usize = 0;
        assert(all.skip(0) =~= all);
        assert(versions.deep_view() =~= seq![]);
        while i < self.versions.len()
            invariant
                i <= self.versions.len(),
                all == self.versions@,
                replies == journal.replies@,
                journal.replies == old(journal).replies,
                whole == soak_versions_built(
                    *builder,
                    all,
                    seq![],
                    replies,
                    old(journal).next as nat,
                ),
                whole == soak_versions_built(
                    *builder,
                    all.skip(i as int),
                    versions.deep_view(),
                    replies,
                    journal.next as nat,
                ),
            decreases self.versions.len() - i,
        {
            let spec = &self.versions[i];
            let ghost done = versions.deep_view();
            assert(all.skip(i as int)[0] == spec);
            assert(all.skip(i as int).skip(1) =~= all.skip(i + 1));
            let built = builder.get_soak_binary(spec.commit.as_str(), journal);
            let binary = resolve_binary(built, journal)?;
            let version = (binary, spec.stop_height);
            versions.push(version);
            assert(versions.deep_view() =~= done.push(version.deep_view()));
            i = i + 1;
        }
        Ok(versions)
    }

    /// Build RollupVersions for all nodes.
    ///
    /// Returns a flat structure where nodes[0] is master, nodes[1..] are replicas.
    pub fn build_node_versions(&self, builder: &RollupBuilder, journal: &mut Journal) -> (r: Result<
        NodeVersions,
        Stop<TestCaseError>,
    >)
        requires
            self.deep_view().complete(),
        ensures
            outcome(r, *final(journal)) == self.deep_view().node_versions(
                *builder,
                old(journal).replies@,
                old(journal).next as nat,
            ),
            final(journal).replies == old(journal).replies,
    {
        let ghost replies = journal.replies@;
        let ghost specs = self.versions@;
        let ghost all = self.nodes.deep_view();
        let ghost whole = all_versions_built(
            *builder,
            specs,
            all,
            seq![],
            replies,
            journal.next as nat,
        );
        let mut nodes: Vec<Vec<RollupVersion>> = Vec::new();
        assert(nodes.deep_view() =~= seq![]);
        while nodes.len() < self.nodes.len()
            invariant
                nodes.len() <= self.nodes.len(),
                self.deep_view().complete(),
                specs == self.versions@,
                all == self.nodes.deep_view(),
                replies == journal.replies@,
                journal.replies == old(journal).replies,
                whole == all_versions_built(
                    *builder,
                    specs,
                    all,
                    seq![],
                    replies,
                    old(journal).next as nat,
                ),
                whole == all_versions_built(
                    *builder,
                    specs,
                    all,
                    nodes.deep_view(),
                    replies,
                    journal.next as nat,
                ),
            decreases self.nodes.len() - nodes.len(),
        {
            let node = &self.nodes[nodes.len()];
            let ghost done = nodes.deep_view();
            assert(all[done.len() as int] == node.deep_view());
            assert(self.deep_view().nodes[done.len() as int] == node.deep_view());
            let versions = self.build_versions_for_node(builder, node, journal)?;
            nodes.push(versions);
            assert(nodes.deep_view() =~= done.push(versions.deep_view()));
        }
        Ok(NodeVersions { nodes })
    }

    /// Build RollupVersions for a single node.
    ///
    /// Uses the node's config paths (one per version) to construct RollupVersions.
    fn build_versions_for_node(
        &self,
        builder: &RollupBuilder,
        node: &NodeInfo,
        journal: &mut Journal,
    ) -> (r: Result<Vec<RollupVersion>, Stop<TestCaseError>>)
        requires
            node.config_paths@.len() >= self.versions@.len(),
        ensures
            outcome(r, *final(journal)) == node_versions_built(
                *builder,
                self.versions@,
                node.config_paths.deep_view(),
                seq![],
                old(journal).replies@,
                old(journal).next as nat,
            ),
            final(journal).replies == old(journal).replies,
    {
        let ghost replies = journal.replies@;
        let ghost specs = self.versions@;
        let ghost configs = node.config_paths.deep_view();
        let ghost whole = node_versions_built(
            *builder,
            specs,
            configs,
            seq![],
            replies,
            journal.next as nat,
        );
        let mut versions: Vec<RollupVersion> = Vec::new();
        assert(versions.deep_view() =~= seq![]);
        while versions.len() < self.versions.len()
            invariant
                versions.len() <= self.versions.len(),
                node.config_paths@.len() >= self.versions@.len(),
                specs == self.versions@,
                configs == node.config_paths.deep_view(),
                replies == journal.replies@,
                journal.replies == old(journal).replies,
                whole == node_versions_built(
                    *builder,
                    specs,
                    configs,
                    seq![],
                    replies,
                    old(journal).next as nat,
                ),
                whole == node_versions_built(
                    *builder,
                    specs,
                    configs,
                    versions.deep_view(),
                    replies,
                    journal.next as nat,
                ),
            decreases self.versions.len() - versions.len(),
        {
            let i: usize = versions.len();
            let ghost done = versions.deep_view();
            let version = build_version(
                builder,
                &self.versions[i],
                i,
                &node.config_paths[i],
                journal,
            )?;
            versions.push(version);
            assert(versions.deep_view() =~= done.push(version.deep_view()));
        }
        Ok(versions)
    }
}

fn build_version(
    builder: &RollupBuilder,
    spec: &VersionSpec,
    version: usize,
    config: &String,
    journal: &mut Journal,
) -> (r: Result<RollupVersion, Stop<TestCaseError>>)
    ensures
        outcome(r, *final(journal)) == node_version_built(
            *builder,
            *spec,
            version as nat,
            config@,
            old(journal).replies@,
            old(journal).next as nat,
        ),
        final(journal).replies == old(journal).replies,
{
    let built = builder.get_binary(spec.commit.as_str(), journal);
    let rollup_binary = resolve_binary(built, journal)?;
    let config_path = match journal.ask_text(HostCall::Canonicalize { path: config.clone() })? {
        Ok(path) => path,
        Err(m) => {
            return Err(Stop::Fail(TestCaseError::InvalidConfigPath(config.clone(), m)));
        },
    };
    let migration_path = match parent_path(config_path.as_str()) {
        Some(dir) => discover_version_migration(dir.as_str(), version, journal)?,
        None => {
            return Err(
                Stop::Fail(
                    TestCaseError::InvalidConfigPath(
                        config_path,
                        "config path has no parent directory".to_string(),
                    ),
                ),
            );
        },
    };
    Ok(
        RollupVersion {
            rollup_binary,
            config_path,
            migration_path,
            start_height: spec.start_height,
            stop_height: Some(spec.stop_height),
        },
    )
}

/// A test case, loaded from its directory.
pub open spec fn test_case_loaded(dir: Seq<char>, replies: Seq<HostReply>, at: nat) -> Outcome<
    TestCaseView,
    TestCaseError<Seq<char>>,
> {
    let path = joined_path(dir, "test_case.toml"@);
    match file_name(dir) {
        None => Outcome::Fails(TestCaseError::InvalidDirName(dir), at),
        Some(name) => match test_case_at(replies, at) {
            None => Outcome::Asks(HostCallView::ReadTestCase { path }, at),
            Some(FileRead::Unreadable(m)) => Outcome::Fails(
                TestCaseError::ReadTestCase { path, source: m@ },
                at + 1,
            ),
            Some(FileRead::Malformed(m)) => Outcome::Fails(
                TestCaseError::ParseTestCase { path, source: m@ },
                at + 1,
            ),
            Some(FileRead::Parsed(file)) => if file.versions.len() == 0 {
                Outcome::Fails(TestCaseError::NoVersions, at + 1)
            } else {
                match nodes_detected(
                    dir,
                    file.versions.len(),
                    "simple (config.toml)"@,
                    replies,
                    at + 1,
                ) {
                    Outcome::Asks(call, stop) => Outcome::Asks(call, stop),
                    Outcome::Fails(e, next) => Outcome::Fails(e, next),
                    Outcome::Gives(nodes, next) => match first_conflict(layout_keys(nodes), 0) {
                        Some(e) => Outcome::Fails(e, next),
                        None => Outcome::Gives(
                            TestCaseView {
                                name,
                                repo_url: match file.repo_url {
                                    Some(url) => url@,
                                    None => DEFAULT_REPO_URL@,
                                },
                                versions: file.versions,
                                extra_blocks_after_resync: file.extra_blocks_after_resync,
                                soak_testing: file.soak_testing,
                                nodes,
                            },
                            next,
                        ),
                    },
                }
            },
        },
    }
}

/// Detect node layout from a test case directory.
fn detect_nodes(test_case_dir: &str, num_versions: usize, journal: &mut Journal) -> (r: Result<
    Vec<NodeInfo>,
    Stop<TestCaseError>,
>)
    requires
        0 < num_versions,
    ensures
        outcome(r, *final(journal)) == nodes_detected(
            test_case_dir@,
            num_versions as nat,
            "simple (config.toml)"@,
            old(journal).replies@,
            old(journal).next as nat,
        ),
        final(journal).replies == old(journal).replies,
{
    let mut found = detect_all_nodes(
        test_case_dir,
        num_versions,
        "simple (config.toml)",
        journal,
    )?;
    let ghost all = found.deep_view();
    let mut nodes: Vec<NodeInfo> = Vec::new();
    assert(nodes.deep_view() =~= all.take(0));
    while found.len() > 0
        invariant
            nodes.len() + found.len() == all.len(),
            nodes.deep_view() == all.take(nodes.len() as int),
            found.deep_view() == all.skip(nodes.len() as int),
        decreases found.len(),
    {
        let ghost n = nodes.len() as int;
        let ghost before = nodes.deep_view();
        let ghost rest = found.deep_view();
        let node = found.remove(0);
        assert(rest[0] == node.deep_view());
        assert(all.skip(n)[0] == all[n]);
        let info = NodeInfo {
            node_type: node.node_type,
            config_paths: node.config_paths,
            http_port: node.http_port,
            storage_path: node.storage_path,
        };
        nodes.push(info);
        assert(info.deep_view() == all[n]);
        assert(nodes.deep_view() =~= before.push(all[n]));
        assert(all.take(n + 1) =~= all.take(n).push(all[n]));
        assert(found.deep_view() =~= rest.skip(1));
        assert(all.skip(n).skip(1) =~= all.skip(n + 1));
    }
    assert(nodes.deep_view() =~= all);
    Ok(nodes)
}

/// Validate that nodes have no port or storage path conflicts.
fn validate_nodes(nodes: &Vec<NodeInfo>) -> (r: Result<(), TestCaseError>)
    ensures
        match first_conflict(layout_keys(nodes.deep_view()), 0) {
            None => r is Ok,
            Some(e) => r is Err && r->Err_0.deep_view() == e,
        },
{
    let ghost all = layout_keys(nodes.deep_view());
    let mut keys: Vec<NodeKey> = Vec::new();
    let mut i: usize = 0;
    assert(keys.deep_view() =~= all.take(0));
    while i < nodes.len()
        invariant
            i <= nodes.len(),
            all == layout_keys(nodes.deep_view()),
            keys.deep_view() == all.take(i as int),
        decreases nodes.len() - i,
    {
        let node = &nodes[i];
        let ghost before = keys.deep_view();
        assert(nodes.deep_view()[i as int] == node.deep_view());
        let key = (node.node_type, node.http_port, node.storage_path.clone());
        keys.push(key);
        assert(keys.deep_view() =~= before.push(key.deep_view()));
        assert(all.take(i + 1) =~= before.push(all[i as int]));
        i = i + 1;
    }
    assert(all.take(i as int) =~= all);
    validate_keys(&keys)
}

/// Load a test case from a directory containing test_case.toml.
///
/// The test case name is derived from the directory name.
/// Node layout is detected from config files in version subdirectories.
pub fn load_test_case(test_case_dir: &String, journal: &mut Journal) -> (r: Result<
    TestCase,
    Stop<TestCaseError>,
>)
    ensures
        outcome(r, *final(journal)) == test_case_loaded(
            test_case_dir@,
            old(journal).replies@,
            old(journal).next as nat,
        ),
        final(journal).replies == old(journal).replies,
{
    let name = match path_file_name(test_case_dir) {
        Some(name) => name,
        None => {
            return Err(Stop::Fail(TestCaseError::InvalidDirName(test_case_dir.clone())));
        },
    };
    let path = join_path(test_case_dir, "test_case.toml");
    let file = match journal.ask_test_case(path.clone())? {
        FileRead::Unreadable(source) => {
            return Err(Stop::Fail(TestCaseError::ReadTestCase { path, source }));
        },
        FileRead::Malformed(source) => {
            return Err(Stop::Fail(TestCaseError::ParseTestCase { path, source }));
        },
        FileRead::Parsed(file) => file,
    };
    if file.versions.len() == 0 {
        return Err(Stop::Fail(TestCaseError::NoVersions));
    }
    let nodes = detect_nodes(test_case_dir, file.versions.len(), journal)?;
    match validate_nodes(&nodes) {
        Ok(()) => {},
        Err(e) => {
            return Err(Stop::Fail(e));
        },
    }
    let repo_url = match file.repo_url {
        Some(url) => url,
        None => DEFAULT_REPO_URL.to_string(),
    };
    Ok(
        TestCase {
            name,
            repo_url,
            versions: file.versions,
            extra_blocks_after_resync: file.extra_blocks_after_resync,
            soak_testing: file.soak_testing,
            nodes,
        },
    )
}

/// A test case that has been loaded has versions, a master, a config file for every node and
/// version, and no two nodes that share a port or a storage path; and the config files of a node
/// agree on its port and its storage path.
pub proof fn loaded_test_case_is_sound(dir: Seq<char>, replies: Seq<HostReply>, at: nat)
    ensures
        test_case_loaded(dir, replies, at) matches Outcome::Gives(case, _) ==> {
            &&& case.versions.len() > 0
            &&& case.nodes.len() > 0
            &&& case.nodes[0].node_type is Master
            &&& case.complete()
            &&& conflict_free(layout_keys(case.nodes))
            &&& forall|i: int|
                0 <= i < case.nodes.len() ==> has_settings(replies, #[trigger] case.nodes[i])
        },
{
    match test_case_at(replies, at) {
        Some(FileRead::Parsed(file)) => {
            let versions = file.versions.len();
            let mode = "simple (config.toml)"@;
            detected_nodes_are_in_order(dir, versions, mode, replies, at + 1);
            detected_settings_agree(dir, versions, mode, replies, at + 1);
            match nodes_detected(dir, versions, mode, replies, at + 1) {
                Outcome::Gives(nodes, _) => {
                    let replication = choose|replication: bool| #[trigger]
                        is_node_list(nodes, dir, versions, replication);
                    assert(is_node_list(nodes, dir, versions, replication));
                    valid_means_conflict_free(layout_keys(nodes));
                },
                _ => {},
            }
        },
        _ => {},
    }
}

/// Whether a node's versions are those of a test case, in order, each with its heights.
pub open spec fn runs_versions(versions: Seq<VersionView>, specs: Seq<VersionSpec>) -> bool {
    &&& versions.len() == specs.len()
    &&& forall|i: int|
        0 <= i < specs.len() ==> {
            &&& (#[trigger] versions[i]).start_height == specs[i].start_height
            &&& versions[i].stop_height == Some(specs[i].stop_height)
        }
}

proof fn node_runs_versions(
    builder: RollupBuilder,
    specs: Seq<VersionSpec>,
    configs: Seq<Seq<char>>,
    done: Seq<VersionView>,
    replies: Seq<HostReply>,
    at: nat,
)
    requires
        done.len() <= specs.len(),
        runs_versions(done, specs.take(done.len() as int)),
    ensures
        node_versions_built(builder, specs, configs, done, replies, at) matches Outcome::Gives(
            versions,
            _,
        ) ==> runs_versions(versions, specs),
    decreases specs.len() - done.len(),
{
    if done.len() < specs.len() {
        let i = done.len() as int;
        match node_version_built(builder, specs[i], done.len(), configs[i], replies, at) {
            Outcome::Gives(version, next) => {
                let more = done.push(version);
                assert forall|k: int| 0 <= k < more.len() implies {
                    &&& (#[trigger] more[k]).start_height == specs.take(i + 1)[k].start_height
                    &&& more[k].stop_height == Some(specs.take(i + 1)[k].stop_height)
                } by {
                    if k < i {
                        assert(done[k].stop_height == Some(specs.take(i)[k].stop_height));
                    }
                }
                node_runs_versions(builder, specs, configs, more, replies, next);
            },
            _ => {},
        }
    } else {
        assert(specs.take(done.len() as int) =~= specs);
    }
}

proof fn all_nodes_run_versions(
    builder: RollupBuilder,
    specs: Seq<VersionSpec>,
    nodes: Seq<NodeView>,
    done: Seq<Seq<VersionView>>,
    replies: Seq<HostReply>,
    at: nat,
)
    requires
        done.len() <= nodes.len(),
        forall|n: int| 0 <= n < done.len() ==> runs_versions(#[trigger] done[n], specs),
    ensures
        all_versions_built(builder, specs, nodes, done, replies, at) matches Outcome::Gives(all, _)
            ==> {
            &&& all.len() == nodes.len()
            &&& forall|n: int| 0 <= n < all.len() ==> runs_versions(#[trigger] all[n], specs)
        },
    decreases nodes.len() - done.len(),
{
    if done.len() < nodes.len() {
        let configs = nodes[done.len() as int].config_paths;
        assert(runs_versions(Seq::<VersionView>::empty(), specs.take(0)));
        node_runs_versions(builder, specs, configs, seq![], replies, at);
        match node_versions_built(builder, specs, configs, seq![], replies, at) {
            Outcome::Gives(versions, next) => {
                let more = done.push(versions);
                assert forall|n: int| 0 <= n < more.len() implies runs_versions(
                    #[trigger] more[n],
                    specs,
                ) by {
                    if n < done.len() {
                        assert(runs_versions(done[n], specs));
                    }
                }
                all_nodes_run_versions(builder, specs, nodes, more, replies, next);
            },
            _ => {},
        }
    }
}

/// Every node of a test case runs all of its versions, in order and with their heights.
pub proof fn every_node_runs_every_version(
    case: TestCaseView,
    builder: RollupBuilder,
    replies: Seq<HostReply>,
    at: nat,
)
    ensures
        case.node_versions(builder, replies, at) matches Outcome::Gives(all, _) ==> {
            &&& all.len() == case.nodes.len()
            &&& forall|n: int|
                0 <= n < all.len() ==> runs_versions(#[trigger] all[n], case.versions)
        },
{
    all_nodes_run_versions(builder, case.versions, case.nodes, seq![], replies, at);
}

proof fn soak_stop_heights(
    builder: RollupBuilder,
    versions: Seq<VersionSpec>,
    done: Seq<(Seq<char>, u64)>,
    replies: Seq<HostReply>,
    at: nat,
)
    ensures
        soak_versions_built(builder, versions, done, replies, at) matches Outcome::Gives(all, _)
            ==> {
            &&& all.len() == done.len() + versions.len()
            &&& forall|i: int| 0 <= i < done.len() ==> all[i] == done[i]
            &&& forall|i: int|
                done.len() <= i < all.len() ==> (#[trigger] all[i]).1 == versions[i
                    - done.len()].stop_height
        },
    decreases versions.len(),
{
    if versions.len() > 0 {
        match binary_resolved(
            builder.binary(versions[0].commit@, soak_build(), replies, at),
            replies,
        ) {
            Outcome::Gives(binary, next) => {
                let more = done.push((binary, versions[0].stop_height));
                soak_stop_heights(builder, versions.skip(1), more, replies, next);
                match soak_versions_built(builder, versions, done, replies, at) {
                    Outcome::Gives(all, _) => {
                        assert forall|i: int| 0 <= i < done.len() implies all[i] == done[i] by {
                            assert(all[i] == more[i]);
                        }
                        assert(all[done.len() as int] == more[done.len() as int]);
                    },
                    _ => {},
                }
            },
            _ => {},
        }
    }
}

/// The soak test of a test case has a set of workers per version, which stop at its stop height.
pub proof fn soak_follows_versions(
    case: TestCaseView,
    builder: RollupBuilder,
    replies: Seq<HostReply>,
    at: nat,
)
    ensures
        case.soak_config_built(builder, replies, at) matches Outcome::Gives(soak, _) ==> {
            &&& soak is Some <==> case.soak_testing is Some
            &&& soak matches Some(soak) ==> {
                &&& soak.config.num_workers == case.soak_testing->0.num_workers
                &&& soak.config.salt == case.soak_testing->0.salt
                &&& soak.versions.len() == case.versions.len()
                &&& forall|i: int|
                    0 <= i < soak.versions.len() ==> (#[trigger] soak.versions[i]).1
                        == case.versions[i].stop_height
            }
        },
{
    soak_stop_heights(builder, case.versions, seq![], replies, at);
}

} // verus!

//! Node configuration detection, loading, and validation.
//!
//! A test case directory holds a directory per version (`v0`, `v1`, and so on). In each of them
//! there is either the config of a single node (`config.toml`), or that of a master
//! (`config_master.toml`) with any number of replicas (`config_replica_0.toml` and so on).
use vstd::prelude::*;

use crate::config::FileRead;
use crate::journal::{
    flag_at, outcome, rollup_fields_at, HostCall, HostCallView, HostReply, Journal, Outcome, Stop,
};
use crate::path::{is_same_path, join_path, joined_path, same_path};
use crate::text::{concat2, concat3, decimal, decimal_text};
use crate::upgrade_simulator::error::TestCaseError;

verus! {

/// Type of node in a test case.
#[derive(Debug, Clone, Copy, PartialEq, Eq, Hash, Structural)]
pub enum NodeType {
    /// Master node (or single node in non-replication mode).
    Master,
    /// Replica node with its index (0-indexed).
    Replica(usize),
}

impl DeepView for NodeType {
    type V = NodeType;

    open spec fn deep_view(&self) -> NodeType {
        *self
    }
}

impl NodeType {
    /// The name of the node.
    pub open spec fn name(self) -> Seq<char> {
        match self {
            NodeType::Master => "master"@,
            NodeType::Replica(i) => "replica_"@ + decimal(i as nat),
        }
    }

    /// The name of the node.
    pub fn to_string(&self) -> (s: String)
        ensures
            s@ == self.name(),
    {
        match self {
            NodeType::Master => "master".to_string(),
            NodeType::Replica(i) => {
                let index = decimal_text(*i as u64);
                concat2("replica_", index.as_str())
            },
        }
    }
}

/// What a test case reads from a rollup's config file.
#[derive(Debug)]
pub struct RollupFields {
    /// The port of the rollup's HTTP API.
    pub http_port: u16,
    /// Where the rollup keeps its state.
    pub storage_path: String,
}

impl Clone for RollupFields {
    fn clone(&self) -> (r: Self)
        ensures
            r == *self,
    {
        RollupFields { http_port: self.http_port, storage_path: self.storage_path.clone() }
    }
}

/// Configuration for a single node across all versions.
#[derive(Debug)]
pub struct NodeConfig {
    /// Type of this node.
    pub node_type: NodeType,
    /// Config file paths for each version (indexed by version number).
    pub config_paths: Vec<String>,
    /// HTTP port for the rollup API (must be same across all versions).
    pub http_port: u16,
    /// Storage path (must be same across all versions).
    pub storage_path: String,
}

/// The text of a node's configuration.
#[verifier::ext_equal]
pub struct NodeView {
    pub node_type: NodeType,
    pub config_paths: Seq<Seq<char>>,
    pub http_port: u16,
    pub storage_path: Seq<char>,
}

impl DeepView for NodeConfig {
    type V = NodeView;

    open spec fn deep_view(&self) -> NodeView {
        NodeView {
            node_type: self.node_type,
            config_paths: self.config_paths.deep_view(),
            http_port: self.http_port,
            storage_path: self.storage_path@,
        }
    }
}

/// Complete node layout for a test case.
///
/// Single-node tests are represented as a master with an empty replicas vec.
#[derive(Debug)]
pub struct TestNodeLayout {
    /// Master node configuration.
    pub master: NodeConfig,
    /// Replica node configurations (empty for single-node tests).
    pub replicas: Vec<NodeConfig>,
    /// Whether this test case requires postgres (true if there are replicas).
    pub requires_postgres: bool,
}

/// The text of a node layout.
#[verifier::ext_equal]
pub struct LayoutView {
    pub master: NodeView,
    pub replicas: Seq<NodeView>,
    pub requires_postgres: bool,
}

impl DeepView for TestNodeLayout {
    type V = LayoutView;

    open spec fn deep_view(&self) -> LayoutView {
        LayoutView {
            master: self.master.deep_view(),
            replicas: self.replicas.deep_view(),
            requires_postgres: self.requires_postgres,
        }
    }
}

impl LayoutView {
    /// The nodes, master first.
    pub open spec fn nodes(self) -> Seq<NodeView> {
        seq![self.master] + self.replicas
    }
}

impl TestNodeLayout {
    /// Get the number of replicas.
    pub fn num_replicas(&self) -> (n: usize)
        ensures
            n == self.replicas@.len(),
    {
        self.replicas.len()
    }

    /// All nodes (master first, then replicas).
    pub fn all_nodes(&self) -> (nodes: Vec<&NodeConfig>)
        ensures
            nodes.deep_view() == self.deep_view().nodes(),
    {
        let mut nodes: Vec<&NodeConfig> = Vec::new();
        nodes.push(&self.master);
        let ghost all = self.replicas.deep_view();
        let mut i: usize = 0;
        assert(nodes.deep_view() =~= seq![self.master.deep_view()] + all.take(0));
        while i < self.replicas.len()
            invariant
                i <= self.replicas.len(),
                all == self.replicas.deep_view(),
                nodes.deep_view() == seq![self.master.deep_view()] + all.take(i as int),
            decreases self.replicas.len() - i,
        {
            let ghost before = nodes.deep_view();
            nodes.push(&self.replicas[i]);
            assert(nodes.deep_view() =~= before.push(all[i as int]));
            assert(all.take(i + 1) =~= all.take(i as int).push(all[i as int]));
            i = i + 1;
        }
        assert(all.take(i as int) =~= all);
        nodes
    }
}

/// The directory of a version.
pub open spec fn version_dir(root: Seq<char>, version: nat) -> Seq<char> {
    joined_path(root, "v"@ + decimal(version))
}

/// The config file of a replica.
pub open spec fn replica_config(dir: Seq<char>, replica: nat) -> Seq<char> {
    joined_path(dir, "config_replica_"@ + decimal(replica) + ".toml"@)
}

/// The config file of a master, or of a single node.
pub open spec fn master_config(dir: Seq<char>, replication: bool) -> Seq<char> {
    joined_path(
        dir,
        if replication {
            "config_master.toml"@
        } else {
            "config.toml"@
        },
    )
}

/// The config file of a node in a version: node 0 is the master, the others are the replicas.
pub open spec fn node_config_path(root: Seq<char>, version: nat, replication: bool, node: nat)
    -> Seq<char> {
    let dir = version_dir(root, version);
    if node == 0 {
        master_config(dir, replication)
    } else {
        replica_config(dir, (node - 1) as nat)
    }
}

/// The number of replicas whose config files are in a directory, contiguous from `count` on.
pub open spec fn replicas_counted(
    dir: Seq<char>,
    count: nat,
    replies: Seq<HostReply>,
    at: nat,
) -> Outcome<usize, TestCaseError<Seq<char>>>
    decreases replies.len() - at,
{
    match flag_at(replies, at) {
        None => Outcome::Asks(HostCallView::PathExists { path: replica_config(dir, count) }, at),
        Some(false) => Outcome::Gives(count as usize, at + 1),
        Some(true) => replicas_counted(dir, count + 1, replies, at + 1),
    }
}

/// Whether a directory has a master's config, rather than a single node's.
pub open spec fn replication_detected(dir: Seq<char>, replies: Seq<HostReply>, at: nat) -> Outcome<
    bool,
    TestCaseError<Seq<char>>,
> {
    match flag_at(replies, at) {
        None => Outcome::Asks(HostCallView::PathExists { path: master_config(dir, true) }, at),
        Some(true) => Outcome::Gives(true, at + 1),
        Some(false) => match flag_at(replies, at + 1) {
            None => Outcome::Asks(HostCallView::PathExists { path: master_config(dir, false) }, at + 1),
            Some(true) => Outcome::Gives(false, at + 2),
            Some(false) => Outcome::Fails(
                TestCaseError::ConfigNotFound(master_config(dir, false)),
                at + 2,
            ),
        },
    }
}

/// Whether a directory has a master's config, and its number of replicas. Replicas ask for a
/// master; `simple_mode` is what a directory without one is called.
pub open spec fn mode_detected(
    dir: Seq<char>,
    simple_mode: Seq<char>,
    replies: Seq<HostReply>,
    at: nat,
) -> Outcome<(bool, usize), TestCaseError<Seq<char>>> {
    match replication_detected(dir, replies, at) {
        Outcome::Asks(call, stop) => Outcome::Asks(call, stop),
        Outcome::Fails(e, next) => Outcome::Fails(e, next),
        Outcome::Gives(replication, found) => match replicas_counted(dir, 0, replies, found) {
            Outcome::Asks(call, stop) => Outcome::Asks(call, stop),
            Outcome::Fails(e, next) => Outcome::Fails(e, next),
            Outcome::Gives(replicas, next) => if replicas > 0 && !replication {
                Outcome::Fails(
                    TestCaseError::ConfigModeMismatch {
                        version: 0,
                        mode: simple_mode,
                        expected_mode: "replication (config_master.toml required with replicas)"@,
                    },
                    next,
                )
            } else {
                Outcome::Gives((replication, replicas), next)
            },
        },
    }
}

/// The config files of a version's nodes, from `node` up to `replicas`, are there.
pub open spec fn configs_found(
    root: Seq<char>,
    version: nat,
    replication: bool,
    replicas: nat,
    node: nat,
    replies: Seq<HostReply>,
    at: nat,
) -> Outcome<(), TestCaseError<Seq<char>>>
    decreases replicas + 1 - node,
{
    let path = node_config_path(root, version, replication, node);
    if node > replicas {
        Outcome::Gives((), at)
    } else {
        match flag_at(replies, at) {
            None => Outcome::Asks(HostCallView::PathExists { path }, at),
            Some(false) => Outcome::Fails(TestCaseError::ConfigNotFound(path), at + 1),
            Some(true) => configs_found(
                root,
                version,
                replication,
                replicas,
                node + 1,
                replies,
                at + 1,
            ),
        }
    }
}

/// A version has the config files of all nodes, and of no other replicas.
pub open spec fn version_checked(
    root: Seq<char>,
    version: nat,
    replication: bool,
    replicas: usize,
    replies: Seq<HostReply>,
    at: nat,
) -> Outcome<(), TestCaseError<Seq<char>>> {
    match configs_found(root, version, replication, replicas as nat, 0, replies, at) {
        Outcome::Asks(call, stop) => Outcome::Asks(call, stop),
        Outcome::Fails(e, next) => Outcome::Fails(e, next),
        Outcome::Gives(_, found) => match replicas_counted(
            version_dir(root, version),
            0,
            replies,
            found,
        ) {
            Outcome::Asks(call, stop) => Outcome::Asks(call, stop),
            Outcome::Fails(e, next) => Outcome::Fails(e, next),
            Outcome::Gives(count, next) => if count != replicas {
                Outcome::Fails(
                    TestCaseError::ReplicaCountMismatch {
                        version: version as usize,
                        count,
                        expected: replicas,
                    },
                    next,
                )
            } else {
                Outcome::Gives((), next)
            },
        },
    }
}

/// All versions from `version` on are in order.
pub open spec fn versions_checked(
    root: Seq<char>,
    versions: nat,
    version: nat,
    replication: bool,
    replicas: usize,
    replies: Seq<HostReply>,
    at: nat,
) -> Outcome<(), TestCaseError<Seq<char>>>
    decreases versions - version,
{
    if version >= versions {
        Outcome::Gives((), at)
    } else {
        match version_checked(root, version, replication, replicas, replies, at) {
            Outcome::Gives(_, next) => versions_checked(
                root,
                versions,
                version + 1,
                replication,
                replicas,
                replies,
                next,
            ),
            stopped => stopped,
        }
    }
}

/// What a rollup's config file holds.
pub open spec fn fields_extracted(path: Seq<char>, replies: Seq<HostReply>, at: nat) -> Outcome<
    (u16, Seq<char>),
    TestCaseError<Seq<char>>,
> {
    match rollup_fields_at(replies, at) {
        None => Outcome::Asks(HostCallView::ReadRollupConfig { path }, at),
        Some(FileRead::Unreadable(m)) => Outcome::Fails(
            TestCaseError::ReadConfig { path, source: m@ },
            at + 1,
        ),
        Some(FileRead::Malformed(m)) => Outcome::Fails(
            TestCaseError::ParseConfig { path, source: m@ },
            at + 1,
        ),
        Some(FileRead::Parsed(fields)) => Outcome::Gives(
            (fields.http_port, fields.storage_path@),
            at + 1,
        ),
    }
}

/// How two versions of a node differ, where they do.
pub open spec fn version_mismatch(
    node_type: NodeType,
    first: (u16, Seq<char>),
    version: nat,
    other: (u16, Seq<char>),
) -> Option<TestCaseError<Seq<char>>> {
    if other.0 != first.0 {
        Some(
            TestCaseError::CrossVersionMismatch {
                node_type: node_type.name(),
                field: "http_port"@,
                v0_value: decimal(first.0 as nat),
                version: version as usize,
                other_value: decimal(other.0 as nat),
            },
        )
    } else if !same_path(other.1, first.1) {
        Some(
            TestCaseError::CrossVersionMismatch {
                node_type: node_type.name(),
                field: "storage_path"@,
                v0_value: first.1,
                version: version as usize,
                other_value: other.1,
            },
        )
    } else {
        None
    }
}

/// A node's config files from `version` on agree with its first one.
pub open spec fn versions_agree(
    node_type: NodeType,
    paths: Seq<Seq<char>>,
    first: (u16, Seq<char>),
    version: nat,
    replies: Seq<HostReply>,
    at: nat,
) -> Outcome<(), TestCaseError<Seq<char>>>
    decreases paths.len() - version,
{
    if version >= paths.len() {
        Outcome::Gives((), at)
    } else {
        match fields_extracted(paths[version as int], replies, at) {
            Outcome::Asks(call, stop) => Outcome::Asks(call, stop),
            Outcome::Fails(e, next) => Outcome::Fails(e, next),
            Outcome::Gives(other, next) => match version_mismatch(
                node_type,
                first,
                version,
                other,
            ) {
                Some(e) => Outcome::Fails(e, next),
                None => versions_agree(node_type, paths, first, version + 1, replies, next),
            },
        }
    }
}

/// A node, with the port and the storage path that its config files agree on.
pub open spec fn node_built(
    node_type: NodeType,
    paths: Seq<Seq<char>>,
    replies: Seq<HostReply>,
    at: nat,
) -> Outcome<NodeView, TestCaseError<Seq<char>>> {
    match fields_extracted(paths[0], replies, at) {
        Outcome::Asks(call, stop) => Outcome::Asks(call, stop),
        Outcome::Fails(e, next) => Outcome::Fails(e, next),
        Outcome::Gives(first, read) => match versions_agree(
            node_type,
            paths,
            first,
            1,
            replies,
            read,
        ) {
            Outcome::Asks(call, stop) => Outcome::Asks(call, stop),
            Outcome::Fails(e, next) => Outcome::Fails(e, next),
            Outcome::Gives(_, next) => Outcome::Gives(
                NodeView {
                    node_type,
                    config_paths: paths,
                    http_port: first.0,
                    storage_path: first.1,
                },
                next,
            ),
        },
    }
}

/// The type of a node: node 0 is the master, the others are the replicas.
pub open spec fn type_of_node(node: nat) -> NodeType {
    if node == 0 {
        NodeType::Master
    } else {
        NodeType::Replica((node - 1) as usize)
    }
}

/// The config files of a node, one per version.
pub open spec fn node_config_paths(
    root: Seq<char>,
    versions: nat,
    replication: bool,
    node: nat,
) -> Seq<Seq<char>> {
    Seq::new(versions, |v: int| node_config_path(root, v as nat, replication, node))
}

/// The nodes from `done` on, up to the last of the replicas.
pub open spec fn nodes_built(
    root: Seq<char>,
    versions: nat,
    replication: bool,
    replicas: nat,
    done: Seq<NodeView>,
    replies: Seq<HostReply>,
    at: nat,
) -> Outcome<Seq<NodeView>, TestCaseError<Seq<char>>>
    decreases replicas + 1 - done.len(),
{
    if done.len() > replicas {
        Outcome::Gives(done, at)
    } else {
        match node_built(
            type_of_node(done.len()),
            node_config_paths(root, versions, replication, done.len()),
            replies,
            at,
        ) {
            Outcome::Asks(call, stop) => Outcome::Asks(call, stop),
            Outcome::Fails(e, next) => Outcome::Fails(e, next),
            Outcome::Gives(node, next) => nodes_built(
                root,
                versions,
                replication,
                replicas,
                done.push(node),
                replies,
                next,
            ),
        }
    }
}

/// The nodes of a test case directory, master first.
pub open spec fn nodes_detected(
    root: Seq<char>,
    versions: nat,
    simple_mode: Seq<char>,
    replies: Seq<HostReply>,
    at: nat,
) -> Outcome<Seq<NodeView>, TestCaseError<Seq<char>>> {
    match mode_detected(version_dir(root, 0), simple_mode, replies, at) {
        Outcome::Asks(call, stop) => Outcome::Asks(call, stop),
        Outcome::Fails(e, next) => Outcome::Fails(e, next),
        Outcome::Gives((replication, replicas), known) => match versions_checked(
            root,
            versions,
            0,
            replication,
            replicas,
            replies,
            known,
        ) {
            Outcome::Asks(call, stop) => Outcome::Asks(call, stop),
            Outcome::Fails(e, next) => Outcome::Fails(e, next),
            Outcome::Gives(_, checked) => nodes_built(
                root,
                versions,
                replication,
                replicas as nat,
                seq![],
                replies,
                checked,
            ),
        },
    }
}

fn version_dir_path(root: &str, version: usize) -> (p: String)
    ensures
        p@ == version_dir(root@, version as nat),
{
    let number = decimal_text(version as u64);
    let name = concat2("v", number.as_str());
    join_path(root, name.as_str())
}

fn replica_config_path(dir: &str, replica: usize) -> (p: String)
    ensures
        p@ == replica_config(dir@, replica as nat),
{
    let number = decimal_text(replica as u64);
    let name = concat3("config_replica_", number.as_str(), ".toml");
    join_path(dir, name.as_str())
}

fn master_config_path(dir: &str, replication: bool) -> (p: String)
    ensures
        p@ == master_config(dir@, replication),
{
    if replication {
        join_path(dir, "config_master.toml")
    } else {
        join_path(dir, "config.toml")
    }
}

fn config_path_of(root: &str, version: usize, replication: bool, node: usize) -> (p: String)
    ensures
        p@ == node_config_path(root@, version as nat, replication, node as nat),
{
    let dir = version_dir_path(root, version);
    if node == 0 {
        master_config_path(dir.as_str(), replication)
    } else {
        replica_config_path(dir.as_str(), node - 1)
    }
}

/// Count the number of replica config files in a version directory.
///
/// Replicas must be numbered contiguously starting from 0.
fn count_replica_configs(dir: &str, journal: &mut Journal) -> (r: Result<
    usize,
    Stop<TestCaseError>,
>)
    ensures
        outcome(r, *final(journal)) == replicas_counted(
            dir@,
            0,
            old(journal).replies@,
            old(journal).next as nat,
        ),
        final(journal).replies == old(journal).replies,
        r matches Ok(count) ==> count < final(journal).next <= final(journal).replies@.len(),
{
    let ghost replies = journal.replies@;
    let ghost whole = replicas_counted(dir@, 0, replies, journal.next as nat);
    let mut count: usize = 0;
    loop
        invariant
            replies == journal.replies@,
            journal.replies == old(journal).replies,
            count <= journal.next,
            whole == replicas_counted(dir@, 0, replies, old(journal).next as nat),
            whole == replicas_counted(dir@, count as nat, replies, journal.next as nat),
        decreases replies.len() - journal.next,
    {
        let path = replica_config_path(dir, count);
        if !journal.ask_flag(HostCall::PathExists { path })? {
            return Ok(count);
        }
        count = count + 1;
    }
}

/// Detect whether a version directory uses replication mode and count replicas.
fn detect_mode_and_replicas(dir: &str, simple_mode: &str, journal: &mut Journal) -> (r: Result<
    (bool, usize),
    Stop<TestCaseError>,
>)
    ensures
        outcome(r, *final(journal)) == mode_detected(
            dir@,
            simple_mode@,
            old(journal).replies@,
            old(journal).next as nat,
        ),
        final(journal).replies == old(journal).replies,
        r matches Ok((_, count)) ==> count < final(journal).next,
{
    let replication = if journal.ask_flag(
        HostCall::PathExists { path: master_config_path(dir, true) },
    )? {
        true
    } else {
        let simple = master_config_path(dir, false);
        if !journal.ask_flag(HostCall::PathExists { path: simple.clone() })? {
            return Err(Stop::Fail(TestCaseError::ConfigNotFound(simple)));
        }
        false
    };
    let replicas: usize = count_replica_configs(dir, journal)?;
    if replicas > 0 && !replication {
        return Err(
            Stop::Fail(
                TestCaseError::ConfigModeMismatch {
                    version: 0,
                    mode: simple_mode.to_string(),
                    expected_mode: "replication (config_master.toml required with replicas)"
                        .to_string(),
                },
            ),
        );
    }
    Ok((replication, replicas))
}

fn find_configs(
    root: &str,
    version: usize,
    replication: bool,
    replicas: usize,
    journal: &mut Journal,
) -> (r: Result<(), Stop<TestCaseError>>)
    requires
        replicas < usize::MAX,
    ensures
        outcome(r, *final(journal)) == configs_found(
            root@,
            version as nat,
            replication,
            replicas as nat,
            0,
            old(journal).replies@,
            old(journal).next as nat,
        ),
        final(journal).replies == old(journal).replies,
{
    let ghost replies = journal.replies@;
    let ghost v = version as nat;
    let ghost whole = configs_found(
        root@,
        v,
        replication,
        replicas as nat,
        0,
        replies,
        journal.next as nat,
    );
    let mut node: usize = 0;
    while node <= replicas
        invariant
            node <= replicas + 1,
            replicas < usize::MAX,
            v == version,
            replies == journal.replies@,
            journal.replies == old(journal).replies,
            whole == configs_found(
                root@,
                v,
                replication,
                replicas as nat,
                0,
                replies,
                old(journal).next as nat,
            ),
            whole == configs_found(
                root@,
                v,
                replication,
                replicas as nat,
                node as nat,
                replies,
                journal.next as nat,
            ),
        decreases replicas + 1 - node,
    {
        let path = config_path_of(root, version, replication, node);
        if !journal.ask_flag(HostCall::PathExists { path: path.clone() })? {
            return Err(Stop::Fail(TestCaseError::ConfigNotFound(path)));
        }
        node = node + 1;
    }
    Ok(())
}

fn check_versions(
    root: &str,
    versions: usize,
    replication: bool,
    replicas: usize,
    journal: &mut Journal,
) -> (r: Result<(), Stop<TestCaseError>>)
    requires
        replicas < usize::MAX,
    ensures
        outcome(r, *final(journal)) == versions_checked(
            root@,
            versions as nat,
            0,
            replication,
            replicas,
            old(journal).replies@,
            old(journal).next as nat,
        ),
        final(journal).replies == old(journal).replies,
{
    let ghost replies = journal.replies@;
    let ghost n = versions as nat;
    let ghost whole = versions_checked(
        root@,
        n,
        0,
        replication,
        replicas,
        replies,
        journal.next as nat,
    );
    let mut version: usize = 0;
    while version < versions
        invariant
            version <= versions,
            replicas < usize::MAX,
            n == versions,
            replies == journal.replies@,
            journal.replies == old(journal).replies,
            whole == versions_checked(
                root@,
                n,
                0,
                replication,
                replicas,
                replies,
                old(journal).next as nat,
            ),
            whole == versions_checked(
                root@,
                n,
                version as nat,
                replication,
                replicas,
                replies,
                journal.next as nat,
            ),
        decreases versions - version,
    {
        find_configs(root, version, replication, replicas, journal)?;
        let dir = version_dir_path(root, version);
        let count: usize = count_replica_configs(dir.as_str(), journal)?;
        if count != replicas {
            return Err(
                Stop::Fail(
                    TestCaseError::ReplicaCountMismatch { version, count, expected: replicas },
                ),
            );
        }
        version = version + 1;
    }
    Ok(())
}

/// Extract HTTP port and storage path from a rollup config file.
fn extract_config_fields(path: &String, journal: &mut Journal) -> (r: Result<
    (u16, String),
    Stop<TestCaseError>,
>)
    ensures
        outcome(r, *final(journal)) == fields_extracted(
            path@,
            old(journal).replies@,
            old(journal).next as nat,
        ),
        final(journal).replies == old(journal).replies,
{
    match journal.ask_rollup_fields(path.clone())? {
        FileRead::Unreadable(source) => {
            Err(Stop::Fail(TestCaseError::ReadConfig { path: path.clone(), source }))
        },
        FileRead::Malformed(source) => {
            Err(Stop::Fail(TestCaseError::ParseConfig { path: path.clone(), source }))
        },
        FileRead::Parsed(fields) => Ok((fields.http_port, fields.storage_path)),
    }
}

/// Build a node's configuration from a list of config paths (one per version).
fn build_node_config(node_type: NodeType, config_paths: Vec<String>, journal: &mut Journal) -> (r:
    Result<NodeConfig, Stop<TestCaseError>>)
    requires
        config_paths@.len() > 0,
    ensures
        outcome(r, *final(journal)) == node_built(
            node_type,
            config_paths.deep_view(),
            old(journal).replies@,
            old(journal).next as nat,
        ),
        final(journal).replies == old(journal).replies,
{
    let ghost paths = config_paths.deep_view();
    let (http_port, storage_path) = extract_config_fields(&config_paths[0], journal)?;
    let ghost first = (http_port, storage_path@);
    let ghost replies = journal.replies@;
    let ghost whole = versions_agree(node_type, paths, first, 1, replies, journal.next as nat);
    let ghost built = node_built(node_type, paths, replies, old(journal).next as nat);
    assert(built == match whole {
        Outcome::Asks(call, stop) => Outcome::Asks(call, stop),
        Outcome::Fails(e, next) => Outcome::Fails(e, next),
        Outcome::Gives(_, next) => Outcome::Gives(
            NodeView { node_type, config_paths: paths, http_port, storage_path: storage_path@ },
            next,
        ),
    });
    let mut version: usize = 1;
    while version < config_paths.len()
        invariant
            1 <= version <= config_paths.len(),
            paths == config_paths.deep_view(),
            first == (http_port, storage_path@),
            replies == journal.replies@,
            journal.replies == old(journal).replies,
            built == node_built(node_type, paths, replies, old(journal).next as nat),
            built == (match whole {
                Outcome::Asks(call, stop) => Outcome::Asks(call, stop),
                Outcome::Fails(e, next) => Outcome::Fails(e, next),
                Outcome::Gives(_, next) => Outcome::Gives(
                    NodeView {
                        node_type,
                        config_paths: paths,
                        http_port,
                        storage_path: storage_path@,
                    },
                    next,
                ),
            }),
            whole == versions_agree(
                node_type,
                paths,
                first,
                version as nat,
                replies,
                journal.next as nat,
            ),
        decreases config_paths.len() - version,
    {
        let (port, storage) = extract_config_fields(&config_paths[version], journal)?;
        if port != http_port {
            return Err(
                Stop::Fail(
                    TestCaseError::CrossVersionMismatch {
                        node_type: node_type.to_string(),
                        field: "http_port".to_string(),
                        v0_value: decimal_text(http_port as u64),
                        version,
                        other_value: decimal_text(port as u64),
                    },
                ),
            );
        }
        if !is_same_path(storage.as_str(), storage_path.as_str()) {
            return Err(
                Stop::Fail(
                    TestCaseError::CrossVersionMismatch {
                        node_type: node_type.to_string(),
                        field: "storage_path".to_string(),
                        v0_value: storage_path,
                        version,
                        other_value: storage,
                    },
                ),
            );
        }
        version = version + 1;
    }
    Ok(NodeConfig { node_type, config_paths, http_port, storage_path })
}

fn list_config_paths(root: &str, versions: usize, replication: bool, node: usize) -> (r: Vec<
    String,
>)
    ensures
        r.deep_view() == node_config_paths(root@, versions as nat, replication, node as nat),
{
    let ghost all = node_config_paths(root@, versions as nat, replication, node as nat);
    let mut paths: Vec<String> = Vec::new();
    let mut version: usize = 0;
    assert(paths.deep_view() =~= all.take(0));
    while version < versions
        invariant
            version <= versions,
            all == node_config_paths(root@, versions as nat, replication, node as nat),
            paths.deep_view() == all.take(version as int),
        decreases versions - version,
    {
        let ghost before = paths.deep_view();
        let path = config_path_of(root, version, replication, node);
        paths.push(path);
        assert(paths.deep_view() =~= before.push(path@));
        assert(all.take(version + 1) =~= before.push(all[version as int]));
        version = version + 1;
    }
    assert(all.take(version as int) =~= all);
    paths
}

fn build_nodes(
    root: &str,
    versions: usize,
    replication: bool,
    replicas: usize,
    journal: &mut Journal,
) -> (r: Result<Vec<NodeConfig>, Stop<TestCaseError>>)
    requires
        0 < versions,
        replicas < usize::MAX,
    ensures
        outcome(r, *final(journal)) == nodes_built(
            root@,
            versions as nat,
            replication,
            replicas as nat,
            seq![],
            old(journal).replies@,
            old(journal).next as nat,
        ),
        final(journal).replies == old(journal).replies,
        r matches Ok(nodes) ==> nodes@.len() == replicas + 1,
{
    let ghost replies = journal.replies@;
    let ghost n = versions as nat;
    let ghost m = replicas as nat;
    let ghost whole = nodes_built(
        root@,
        n,
        replication,
        m,
        seq![],
        replies,
        journal.next as nat,
    );
    let mut nodes: Vec<NodeConfig> = Vec::new();
    assert(nodes.deep_view() =~= seq![]);
    while nodes.len() <= replicas
        invariant
            0 < versions,
            replicas < usize::MAX,
            nodes.len() <= replicas + 1,
            n == versions,
            m == replicas,
            replies == journal.replies@,
            journal.replies == old(journal).replies,
            whole == nodes_built(
                root@,
                n,
                replication,
                m,
                seq![],
                replies,
                old(journal).next as nat,
            ),
            whole == nodes_built(
                root@,
                n,
                replication,
                m,
                nodes.deep_view(),
                replies,
                journal.next as nat,
            ),
        decreases replicas + 1 - nodes.len(),
    {
        let node: usize = nodes.len();
        let ghost done = nodes.deep_view();
        let node_type = if node == 0 {
            NodeType::Master
        } else {
            NodeType::Replica(node - 1)
        };
        let paths = list_config_paths(root, versions, replication, node);
        assert(paths@.len() == paths.deep_view().len());
        let built = build_node_config(node_type, paths, journal)?;
        nodes.push(built);
        assert(nodes.deep_view() =~= done.push(built.deep_view()));
    }
    Ok(nodes)
}

/// Detects the nodes of a test case directory, master first.
pub fn detect_all_nodes(root: &str, versions: usize, simple_mode: &str, journal: &mut Journal)
    -> (r: Result<Vec<NodeConfig>, Stop<TestCaseError>>)
    requires
        0 < versions,
    ensures
        outcome(r, *final(journal)) == nodes_detected(
            root@,
            versions as nat,
            simple_mode@,
            old(journal).replies@,
            old(journal).next as nat,
        ),
        final(journal).replies == old(journal).replies,
        r matches Ok(nodes) ==> nodes@.len() > 0,
{
    let v0_dir = version_dir_path(root, 0);
    let (replication, replicas) = detect_mode_and_replicas(v0_dir.as_str(), simple_mode, journal)?;
    check_versions(root, versions, replication, replicas, journal)?;
    build_nodes(root, versions, replication, replicas, journal)
}

/// What tells two nodes apart.
pub type NodeKey = (NodeType, u16, String);

/// The node before `k`, from `j` on, that has the port of node `k`.
pub open spec fn earlier_port(keys: Seq<(NodeType, u16, Seq<char>)>, k: int, j: int) -> Option<int>
    decreases k - j,
{
    if j >= k {
        None
    } else if keys[j].1 == keys[k].1 {
        Some(j)
    } else {
        earlier_port(keys, k, j + 1)
    }
}

/// The node before `k`, from `j` on, that has the storage path of node `k`.
pub open spec fn earlier_storage(keys: Seq<(NodeType, u16, Seq<char>)>, k: int, j: int) -> Option<
    int,
>
    decreases k - j,
{
    if j >= k {
        None
    } else if same_path(keys[j].2, keys[k].2) {
        Some(j)
    } else {
        earlier_storage(keys, k, j + 1)
    }
}

/// The first conflict that a node from `k` on has with an earlier one.
pub open spec fn first_conflict(keys: Seq<(NodeType, u16, Seq<char>)>, k: int) -> Option<
    TestCaseError<Seq<char>>,
>
    decreases keys.len() - k,
{
    if k >= keys.len() {
        None
    } else {
        match earlier_port(keys, k, 0) {
            Some(j) => Some(
                TestCaseError::PortConflict {
                    port: keys[k].1,
                    node1: keys[j].0.name(),
                    node2: keys[k].0.name(),
                },
            ),
            None => match earlier_storage(keys, k, 0) {
                Some(j) => Some(
                    TestCaseError::StoragePathConflict {
                        path: keys[k].2,
                        node1: keys[j].0.name(),
                        node2: keys[k].0.name(),
                    },
                ),
                None => first_conflict(keys, k + 1),
            },
        }
    }
}

/// No two nodes share a port or a storage path.
pub open spec fn conflict_free(keys: Seq<(NodeType, u16, Seq<char>)>) -> bool {
    forall|j: int, k: int|
        0 <= j < k < keys.len() ==> (#[trigger] keys[j]).1 != (#[trigger] keys[k]).1 && !same_path(
            keys[j].2,
            keys[k].2,
        )
}

proof fn earlier_is_first(keys: Seq<(NodeType, u16, Seq<char>)>, k: int, j: int)
    requires
        0 <= j,
        k < keys.len(),
    ensures
        match earlier_port(keys, k, j) {
            Some(i) => j <= i < k && keys[i].1 == keys[k].1,
            None => forall|i: int| j <= i < k ==> (#[trigger] keys[i]).1 != keys[k].1,
        },
        match earlier_storage(keys, k, j) {
            Some(i) => j <= i < k && same_path(keys[i].2, keys[k].2),
            None => forall|i: int| j <= i < k ==> !same_path((#[trigger] keys[i]).2, keys[k].2),
        },
    decreases k - j,
{
    if j < k {
        earlier_is_first(keys, k, j + 1);
    }
}

proof fn conflicts_from(keys: Seq<(NodeType, u16, Seq<char>)>, k: int)
    requires
        0 <= k,
    ensures
        first_conflict(keys, k) is None <==> forall|j: int, i: int|
            0 <= j < i < keys.len() && k <= i ==> (#[trigger] keys[j]).1 != (#[trigger] keys[i]).1
                && !same_path(keys[j].2, keys[i].2),
    decreases keys.len() - k,
{
    if k < keys.len() {
        earlier_is_first(keys, k, 0);
        conflicts_from(keys, k + 1);
    }
}

/// Nodes pass validation exactly where no two of them share a port or a storage path.
pub proof fn valid_means_conflict_free(keys: Seq<(NodeType, u16, Seq<char>)>)
    ensures
        first_conflict(keys, 0) is None <==> conflict_free(keys),
{
    conflicts_from(keys, 0);
}

/// Validates that no two nodes share a port or a storage path.
pub fn validate_keys(keys: &Vec<NodeKey>) -> (r: Result<(), TestCaseError>)
    ensures
        match first_conflict(keys.deep_view(), 0) {
            None => r is Ok,
            Some(e) => r is Err && r->Err_0.deep_view() == e,
        },
{
    let ghost view = keys.deep_view();
    let mut k: usize = 0;
    while k < keys.len()
        invariant
            k <= keys.len(),
            view == keys.deep_view(),
            first_conflict(view, 0) == first_conflict(view, k as int),
        decreases keys.len() - k,
    {
        let mut j: usize = 0;
        while j < k
            invariant
                j <= k < keys.len(),
                view == keys.deep_view(),
                first_conflict(view, 0) == first_conflict(view, k as int),
                earlier_port(view, k as int, 0) == earlier_port(view, k as int, j as int),
            decreases k - j,
        {
            assert(view[j as int].1 == keys[j as int].1 && view[k as int].1 == keys[k as int].1);
            if keys[j].1 == keys[k].1 {
                return Err(
                    TestCaseError::PortConflict {
                        port: keys[k].1,
                        node1: keys[j].0.to_string(),
                        node2: keys[k].0.to_string(),
                    },
                );
            }
            j = j + 1;
        }
        let mut j: usize = 0;
        while j < k
            invariant
                j <= k < keys.len(),
                view == keys.deep_view(),
                first_conflict(view, 0) == first_conflict(view, k as int),
                earlier_port(view, k as int, 0) is None,
                earlier_storage(view, k as int, 0) == earlier_storage(view, k as int, j as int),
            decreases k - j,
        {
            assert(view[j as int].2 == keys[j as int].2@ && view[k as int].2 == keys[k as int].2@);
            if is_same_path(keys[j].2.as_str(), keys[k].2.as_str()) {
                return Err(
                    TestCaseError::StoragePathConflict {
                        path: keys[k].2.clone(),
                        node1: keys[j].0.to_string(),
                        node2: keys[k].0.to_string(),
                    },
                );
            }
            j = j + 1;
        }
        k = k + 1;
    }
    Ok(())
}

/// What tells the nodes of a layout apart.
pub open spec fn layout_keys(nodes: Seq<NodeView>) -> Seq<(NodeType, u16, Seq<char>)> {
    nodes.map_values(|n: NodeView| (n.node_type, n.http_port, n.storage_path))
}

/// Validate that a node layout has no conflicts.
///
/// Checks:
/// - No duplicate ports across any nodes
/// - No duplicate storage paths across any nodes
pub fn validate_node_layout(layout: &TestNodeLayout) -> (r: Result<(), TestCaseError>)
    ensures
        match first_conflict(layout_keys(layout.deep_view().nodes()), 0) {
            None => r is Ok,
            Some(e) => r is Err && r->Err_0.deep_view() == e,
        },
{
    let nodes = layout.all_nodes();
    let ghost all = layout_keys(nodes.deep_view());
    let mut keys: Vec<NodeKey> = Vec::new();
    let mut i: usize = 0;
    assert(keys.deep_view() =~= all.take(0));
    while i < nodes.len()
        invariant
            i <= nodes.len(),
            all == layout_keys(nodes.deep_view()),
            keys.deep_view() == all.take(i as int),
        decreases nodes.len() - i,
    {
        let node = nodes[i];
        let ghost before = keys.deep_view();
        assert(nodes.deep_view()[i as int] == node.deep_view());
        let key = (node.node_type, node.http_port, node.storage_path.clone());
        keys.push(key);
        assert(keys.deep_view() =~= before.push(key.deep_view()));
        assert(all.take(i + 1) =~= before.push(all[i as int]));
        i = i + 1;
    }
    assert(all.take(i as int) =~= all);
    validate_keys(&keys)
}

/// A layout that the nodes make up: the first one is the master.
pub open spec fn layout_of(nodes: Seq<NodeView>) -> LayoutView {
    LayoutView {
        master: nodes[0],
        replicas: nodes.skip(1),
        requires_postgres: nodes.len() > 1,
    }
}

/// The layout of a test case directory, free of conflicts.
pub open spec fn layout_detected(
    root: Seq<char>,
    versions: nat,
    replies: Seq<HostReply>,
    at: nat,
) -> Outcome<LayoutView, TestCaseError<Seq<char>>> {
    if versions == 0 {
        Outcome::Fails(TestCaseError::NoVersions, at)
    } else {
        match nodes_detected(root, versions, "legacy (config.toml)"@, replies, at) {
            Outcome::Asks(call, stop) => Outcome::Asks(call, stop),
            Outcome::Fails(e, next) => Outcome::Fails(e, next),
            Outcome::Gives(nodes, next) => match first_conflict(layout_keys(nodes), 0) {
                Some(e) => Outcome::Fails(e, next),
                None => Outcome::Gives(layout_of(nodes), next),
            },
        }
    }
}

/// Detect the node layout from a test case directory.
///
/// This examines the config files in each version directory to determine:
/// - Whether this is a single-node test (config.toml) or replication test (config_master.toml + config_replica_N.toml)
/// - The number of replicas
/// - The HTTP port and storage path for each node
pub fn detect_node_layout(test_case_root: &str, num_versions: usize, journal: &mut Journal) -> (r:
    Result<TestNodeLayout, Stop<TestCaseError>>)
    ensures
        outcome(r, *final(journal)) == layout_detected(
            test_case_root@,
            num_versions as nat,
            old(journal).replies@,
            old(journal).next as nat,
        ),
        final(journal).replies == old(journal).replies,
{
    if num_versions == 0 {
        return Err(Stop::Fail(TestCaseError::NoVersions));
    }
    let mut nodes = detect_all_nodes(
        test_case_root,
        num_versions,
        "legacy (config.toml)",
        journal,
    )?;
    let ghost all = nodes.deep_view();
    let master = nodes.remove(0);
    assert(master.deep_view() == all[0]);
    assert(nodes.deep_view() =~= all.skip(1));
    let requires_postgres = nodes.len() > 0;
    let layout = TestNodeLayout { master, replicas: nodes, requires_postgres };
    assert(layout.deep_view().nodes() =~= all);
    match validate_node_layout(&layout) {
        Ok(()) => Ok(layout),
        Err(e) => Err(Stop::Fail(e)),
    }
}

/// Whether nodes are a master and its replicas, numbered from 0, each with its config file for
/// every version.
pub open spec fn is_node_list(
    nodes: Seq<NodeView>,
    root: Seq<char>,
    versions: nat,
    replication: bool,
) -> bool {
    &&& nodes.len() > 0
    &&& nodes.len() > 1 ==> replication
    &&& forall|i: int|
        0 <= i < nodes.len() ==> {
            &&& (#[trigger] nodes[i]).node_type == type_of_node(i as nat)
            &&& nodes[i].config_paths == node_config_paths(root, versions, replication, i as nat)
        }
}

proof fn built_nodes_in_order(
    root: Seq<char>,
    versions: nat,
    replication: bool,
    replicas: nat,
    done: Seq<NodeView>,
    replies: Seq<HostReply>,
    at: nat,
)
    requires
        done.len() <= replicas + 1,
        forall|i: int|
            0 <= i < done.len() ==> {
                &&& (#[trigger] done[i]).node_type == type_of_node(i as nat)
                &&& done[i].config_paths == node_config_paths(
                    root,
                    versions,
                    replication,
                    i as nat,
                )
            },
    ensures
        nodes_built(root, versions, replication, replicas, done, replies, at) matches Outcome::Gives(
            nodes,
            _,
        ) ==> {
            &&& nodes.len() == replicas + 1
            &&& forall|i: int|
                0 <= i < nodes.len() ==> {
                    &&& (#[trigger] nodes[i]).node_type == type_of_node(i as nat)
                    &&& nodes[i].config_paths == node_config_paths(
                        root,
                        versions,
                        replication,
                        i as nat,
                    )
                }
        },
    decreases replicas + 1 - done.len(),
{
    if done.len() <= replicas {
        match node_built(
            type_of_node(done.len()),
            node_config_paths(root, versions, replication, done.len()),
            replies,
            at,
        ) {
            Outcome::Gives(node, next) => {
                built_nodes_in_order(
                    root,
                    versions,
                    replication,
                    replicas,
                    done.push(node),
                    replies,
                    next,
                );
            },
            _ => {},
        }
    }
}

/// The nodes that are detected are a master and its replicas, in order, each with a config file
/// per version; and only a replicated test case has replicas.
pub proof fn detected_nodes_are_in_order(
    root: Seq<char>,
    versions: nat,
    simple_mode: Seq<char>,
    replies: Seq<HostReply>,
    at: nat,
)
    ensures
        nodes_detected(root, versions, simple_mode, replies, at) matches Outcome::Gives(nodes, _)
            ==> exists|replication: bool| #[trigger]
            is_node_list(nodes, root, versions, replication),
{
    match mode_detected(version_dir(root, 0), simple_mode, replies, at) {
        Outcome::Gives((replication, replicas), known) => {
            match versions_checked(root, versions, 0, replication, replicas, replies, known) {
                Outcome::Gives(_, checked) => {
                    built_nodes_in_order(
                        root,
                        versions,
                        replication,
                        replicas as nat,
                        seq![],
                        replies,
                        checked,
                    );
                    match nodes_detected(root, versions, simple_mode, replies, at) {
                        Outcome::Gives(nodes, _) => {
                            assert(is_node_list(nodes, root, versions, replication));
                        },
                        _ => {},
                    }
                },
                _ => {},
            }
        },
        _ => {},
    }
}

/// Whether the config file that was read after `version` others tells of the node's port and of
/// its storage path.
pub open spec fn tells_settings(
    replies: Seq<HostReply>,
    at: nat,
    version: int,
    node: NodeView,
) -> bool {
    rollup_fields_at(replies, (at + version) as nat) matches Some(FileRead::Parsed(fields)) && {
        &&& fields.http_port == node.http_port
        &&& same_path(fields.storage_path@, node.storage_path)
    }
}

/// Whether all of a node's config files, read from a position on, tell of its settings.
pub open spec fn settings_agree(replies: Seq<HostReply>, at: nat, node: NodeView) -> bool {
    forall|version: int|
        0 <= version < node.config_paths.len() ==> #[trigger] tells_settings(
            replies,
            at,
            version,
            node,
        )
}

/// Whether all config files of a node have been read, and tell of its settings.
pub open spec fn has_settings(replies: Seq<HostReply>, node: NodeView) -> bool {
    exists|at: nat| settings_agree(replies, at, node)
}

proof fn agreeing_versions(
    node_type: NodeType,
    paths: Seq<Seq<char>>,
    node: NodeView,
    version: nat,
    replies: Seq<HostReply>,
    at: nat,
)
    requires
        node.config_paths == paths,
    ensures
        versions_agree(
            node_type,
            paths,
            (node.http_port, node.storage_path),
            version,
            replies,
            at + version,
        ) is Gives ==> forall|v: int|
            version <= v < paths.len() ==> #[trigger] tells_settings(replies, at, v, node),
    decreases paths.len() - version,
{
    if version < paths.len() {
        agreeing_versions(node_type, paths, node, version + 1, replies, at);
    }
}

proof fn built_node_agrees(
    node_type: NodeType,
    paths: Seq<Seq<char>>,
    replies: Seq<HostReply>,
    at: nat,
)
    ensures
        node_built(node_type, paths, replies, at) matches Outcome::Gives(node, _)
            ==> settings_agree(replies, at, node),
{
    match node_built(node_type, paths, replies, at) {
        Outcome::Gives(node, _) => {
            agreeing_versions(node_type, paths, node, 1, replies, at);
            assert(tells_settings(replies, at, 0, node));
        },
        _ => {},
    }
}

proof fn built_nodes_agree(
    root: Seq<char>,
    versions: nat,
    replication: bool,
    replicas: nat,
    done: Seq<NodeView>,
    replies: Seq<HostReply>,
    at: nat,
)
    requires
        forall|i: int|
            0 <= i < done.len() ==> has_settings(replies, #[trigger] done[i]),
    ensures
        nodes_built(root, versions, replication, replicas, done, replies, at) matches Outcome::Gives(
            nodes,
            _,
        ) ==> forall|i: int|
            0 <= i < nodes.len() ==> has_settings(replies, #[trigger] nodes[i]),
    decreases replicas + 1 - done.len(),
{
    if done.len() <= replicas {
        let node_type = type_of_node(done.len());
        let paths = node_config_paths(root, versions, replication, done.len());
        match node_built(node_type, paths, replies, at) {
            Outcome::Gives(node, next) => {
                built_node_agrees(node_type, paths, replies, at);
                assert forall|i: int| 0 <= i < done.push(node).len() implies has_settings(
                    replies,
                    #[trigger] done.push(node)[i],
                ) by {
                    if i < done.len() {
                        assert(done.push(node)[i] == done[i]);
                    } else {
                        assert(settings_agree(replies, at, done.push(node)[i]));
                    }
                }
                built_nodes_agree(
                    root,
                    versions,
                    replication,
                    replicas,
                    done.push(node),
                    replies,
                    next,
                );
            },
            _ => {},
        }
    }
}

/// The config files of every node that is detected agree on its port and on its storage path
/// across all versions.
pub proof fn detected_settings_agree(
    root: Seq<char>,
    versions: nat,
    simple_mode: Seq<char>,
    replies: Seq<HostReply>,
    at: nat,
)
    ensures
        nodes_detected(root, versions, simple_mode, replies, at) matches Outcome::Gives(nodes, _)
            ==> forall|i: int|
            0 <= i < nodes.len() ==> has_settings(replies, #[trigger] nodes[i]),
{
    match mode_detected(version_dir(root, 0), simple_mode, replies, at) {
        Outcome::Gives((replication, replicas), known) => {
            match versions_checked(root, versions, 0, replication, replicas, replies, known) {
                Outcome::Gives(_, checked) => {
                    built_nodes_agree(
                        root,
                        versions,
                        replication,
                        replicas as nat,
                        seq![],
                        replies,
                        checked,
                    );
                },
                _ => {},
            }
        },
        _ => {},
    }
}

} // verus!

//! A test case from its preparation to its end: an initial run through all versions, and a resync
//! that replays them from DA data.
use vstd::prelude::*;

use crate::config::{RollupVersion, VersionView};
use crate::journal::{
    done_at, flag_at, interrupted_at, outcome, soak_end_at, spawned_at, status_at, text_at,
    HostCall, HostCallView, HostReply, Journal, Outcome, SoakEnd, Stop,
};
use crate::path::{join_path, joined_path};
use crate::process::{no_args, push_arg, CommandSpec, CommandView};
use crate::soak_manager::{SoakManagerConfig, SoakManagerView};
use crate::text::{
    concat2, concat3, decimal, decimal_reads_back, decimal_text, occurs, replace_text, replaced,
    replaced_leaves_none,
};
use crate::upgrade_simulator::builder::{mock_da_build, RollupBuilder};
use crate::upgrade_simulator::docker::{
    alphanumeric, container_started, fresh_container, reset_statements, ContainerView,
    PostgresDockerContainer, CONTAINER_PORT, MOCK_DA_DB, SEQUENCER_DB,
};
use crate::upgrade_simulator::error::TestCaseError;
use crate::upgrade_simulator::node_config::{
    detect_node_layout, layout_detected, type_of_node, LayoutView, NodeConfig, NodeType,
    NodeView, TestNodeLayout,
};
use crate::upgrade_simulator::node_runner::{
    build_manager_binary, copy_versions, manager_binary_built, registered_pids, run_nodes, NodeVersions,
    NodesView, ProcessRegistry, MAX_NODES,
};
use crate::upgrade_simulator::soak::{soak_error, soak_failure};
use crate::upgrade_simulator::test_case::{
    every_node_runs_every_version, runs_versions, soak_follows_versions, TestCase, TestCaseView,
};

verus! {

/// Grace period after Ctrl+C for processes to shut down gracefully.
pub const SHUTDOWN_GRACE_MILLIS: u64 = 5000;

/// Default port for the mock-da-server gRPC endpoint.
pub const MOCK_DA_PORT: u16 = 50051;

/// How long the mock-da-server gets to start.
pub const MOCK_DA_START_MILLIS: u64 = 10000;

/// How long the soak test gets to end after the nodes.
pub const SOAK_SHUTDOWN_MILLIS: u64 = 5000;

/// A storage directory that is there and empty.
pub open spec fn storage_cleared(path: Seq<char>, replies: Seq<HostReply>, at: nat) -> Outcome<
    (),
    TestCaseError<Seq<char>>,
> {
    let removed = match flag_at(replies, at) {
        None => Outcome::Asks(HostCallView::PathExists { path }, at),
        Some(false) => Outcome::Gives((), at + 1),
        Some(true) => match status_at(replies, at + 1) {
            None => Outcome::Asks(HostCallView::RemoveDirAll { path }, at + 1),
            Some(Err(m)) => Outcome::Fails(TestCaseError::ClearStorageDir(path, m@), at + 2),
            Some(Ok(())) => Outcome::Gives((), at + 2),
        },
    };
    match removed {
        Outcome::Gives(_, next) => match status_at(replies, next) {
            None => Outcome::Asks(HostCallView::CreateDirAll { path }, next),
            Some(Err(m)) => Outcome::Fails(TestCaseError::CreateStorageDir(path, m@), next + 1),
            Some(Ok(())) => Outcome::Gives((), next + 1),
        },
        stopped => stopped,
    }
}

/// The storage directories of all nodes are there and empty.
pub open spec fn all_storage_cleared(
    run_dir: Seq<char>,
    nodes: Seq<NodeView>,
    replies: Seq<HostReply>,
    at: nat,
) -> Outcome<(), TestCaseError<Seq<char>>>
    decreases nodes.len(),
{
    if nodes.len() == 0 {
        Outcome::Gives((), at)
    } else {
        match storage_cleared(joined_path(run_dir, nodes[0].storage_path), replies, at) {
            Outcome::Gives(_, next) => all_storage_cleared(run_dir, nodes.skip(1), replies, next),
            stopped => stopped,
        }
    }
}

/// Clear the storage directory while preserving DA data files.
fn clear_storage_dir(storage_path: String, journal: &mut Journal) -> (r: Result<
    (),
    Stop<TestCaseError>,
>)
    ensures
        outcome(r, *final(journal)) == storage_cleared(
            storage_path@,
            old(journal).replies@,
            old(journal).next as nat,
        ),
        final(journal).replies == old(journal).replies,
{
    if journal.ask_flag(HostCall::PathExists { path: storage_path.clone() })? {
        match journal.ask_status(HostCall::RemoveDirAll { path: storage_path.clone() })? {
            Ok(()) => {},
            Err(m) => {
                return Err(Stop::Fail(TestCaseError::ClearStorageDir(storage_path, m)));
            },
        }
    }
    match journal.ask_status(HostCall::CreateDirAll { path: storage_path.clone() })? {
        Ok(()) => Ok(()),
        Err(m) => Err(Stop::Fail(TestCaseError::CreateStorageDir(storage_path, m))),
    }
}

fn clear_all_storage(run_dir: &String, layout: &TestNodeLayout, journal: &mut Journal) -> (r: Result<
    (),
    Stop<TestCaseError>,
>)
    ensures
        outcome(r, *final(journal)) == all_storage_cleared(
            run_dir@,
            layout.deep_view().nodes(),
            old(journal).replies@,
            old(journal).next as nat,
        ),
        final(journal).replies == old(journal).replies,
{
    let nodes = layout.all_nodes();
    let ghost all = nodes.deep_view();
    let ghost replies = journal.replies@;
    let ghost whole = all_storage_cleared(run_dir@, all, replies, journal.next as nat);
    let mut i: usize = 0;
    assert(all.skip(0) =~= all);
    while i < nodes.len()
        invariant
            i <= nodes.len(),
            all == nodes.deep_view(),
            all == layout.deep_view().nodes(),
            replies == journal.replies@,
            journal.replies == old(journal).replies,
            whole == all_storage_cleared(run_dir@, all, replies, old(journal).next as nat),
            whole == all_storage_cleared(
                run_dir@,
                all.skip(i as int),
                replies,
                journal.next as nat,
            ),
        decreases nodes.len() - i,
    {
        let node: &NodeConfig = nodes[i];
        assert(all.skip(i as int)[0] == all[i as int]);
        assert(all[i as int] == node.deep_view());
        assert(all.skip(i as int).skip(1) =~= all.skip(i + 1));
        clear_storage_dir(join_path(run_dir, node.storage_path.as_str()), journal)?;
        i = i + 1;
    }
    Ok(())
}

/// A config file's text with the connection strings filled in.
pub open spec fn interpolated(content: Seq<char>, sequencer_db: Seq<char>, mock_da: Seq<char>)
    -> Seq<char> {
    replaced(
        replaced(content, "{postgres_connection_string}"@, sequencer_db),
        "{mock_da_url}"@,
        mock_da,
    )
}

/// Fills in the connection strings in a config file's text.
pub fn interpolate_config(content: &str, sequencer_db_url: &str, mock_da_url: &str) -> (r: String)
    ensures
        r@ == interpolated(content@, sequencer_db_url@, mock_da_url@),
{
    proof {
        reveal_strlit("{postgres_connection_string}");
        reveal_strlit("{mock_da_url}");
    }
    let with_db = replace_text(content, "{postgres_connection_string}", sequencer_db_url);
    replace_text(with_db.as_str(), "{mock_da_url}", mock_da_url)
}

/// Where the connection strings of a run come from.
#[verifier::ext_equal]
pub struct UrlsView {
    pub run_dir: Seq<char>,
    pub sequencer_db: Seq<char>,
    pub mock_da: Seq<char>,
}

/// A node's config file for a version is filled in; the path of the result, in a directory of the
/// node's own.
pub open spec fn config_interpolated(
    urls: UrlsView,
    path: Seq<char>,
    name: Seq<char>,
    version: nat,
    replies: Seq<HostReply>,
    at: nat,
) -> Outcome<Seq<char>, TestCaseError<Seq<char>>> {
    let dir = joined_path(urls.run_dir, name);
    let new_path = joined_path(dir, "config_"@ + decimal(version) + ".toml"@);
    match text_at(replies, at) {
        None => Outcome::Asks(HostCallView::ReadText { path }, at),
        Some(Err(m)) => Outcome::Fails(TestCaseError::ReadConfig { path, source: m@ }, at + 1),
        Some(Ok(content)) => match status_at(replies, at + 1) {
            None => Outcome::Asks(HostCallView::CreateDirAll { path: dir }, at + 1),
            Some(Err(m)) => Outcome::Fails(
                TestCaseError::WriteConfig { path: dir, source: m@ },
                at + 2,
            ),
            Some(Ok(())) => match status_at(replies, at + 2) {
                None => Outcome::Asks(
                    HostCallView::WriteText {
                        path: new_path,
                        content: interpolated(content@, urls.sequencer_db, urls.mock_da),
                    },
                    at + 2,
                ),
                Some(Err(m)) => Outcome::Fails(
                    TestCaseError::WriteConfig { path: new_path, source: m@ },
                    at + 3,
                ),
                Some(Ok(())) => Outcome::Gives(new_path, at + 3),
            },
        },
    }
}

/// A node's config files are filled in, where those before them are `done`.
pub open spec fn node_interpolated(
    urls: UrlsView,
    versions: Seq<VersionView>,
    name: Seq<char>,
    done: Seq<VersionView>,
    replies: Seq<HostReply>,
    at: nat,
) -> Outcome<Seq<VersionView>, TestCaseError<Seq<char>>>
    decreases versions.len() - done.len(),
{
    if done.len() >= versions.len() {
        Outcome::Gives(done, at)
    } else {
        let version = versions[done.len() as int];
        match config_interpolated(urls, version.config_path, name, done.len(), replies, at) {
            Outcome::Asks(call, stop) => Outcome::Asks(call, stop),
            Outcome::Fails(e, next) => Outcome::Fails(e, next),
            Outcome::Gives(config_path, next) => node_interpolated(
                urls,
                versions,
                name,
                done.push(VersionView { config_path, ..version }),
                replies,
                next,
            ),
        }
    }
}

/// The config files of all nodes are filled in, where those of the nodes before them are `done`.
pub open spec fn all_interpolated(
    urls: UrlsView,
    nodes: Seq<Seq<VersionView>>,
    done: Seq<Seq<VersionView>>,
    replies: Seq<HostReply>,
    at: nat,
) -> Outcome<Seq<Seq<VersionView>>, TestCaseError<Seq<char>>>
    decreases nodes.len() - done.len(),
{
    if done.len() >= nodes.len() {
        Outcome::Gives(done, at)
    } else {
        match node_interpolated(
            urls,
            nodes[done.len() as int],
            type_of_node(done.len()).name(),
            seq![],
            replies,
            at,
        ) {
            Outcome::Asks(call, stop) => Outcome::Asks(call, stop),
            Outcome::Fails(e, next) => Outcome::Fails(e, next),
            Outcome::Gives(versions, next) => all_interpolated(
                urls,
                nodes,
                done.push(versions),
                replies,
                next,
            ),
        }
    }
}

/// Interpolate a single config file and write to a per-node subdirectory.
///
/// Each node gets its own config directory (e.g., `run_dir/master/`, `run_dir/replica_0/`)
/// to avoid race conditions on files like `evm_pinned_cache.json` that rollups write
/// in the same directory as their config.
fn interpolate_config_file(
    original_path: &String,
    run_dir: &String,
    node_name: &str,
    version_idx: usize,
    sequencer_db_url: &String,
    mock_da_url: &String,
    journal: &mut Journal,
) -> (r: Result<String, Stop<TestCaseError>>)
    ensures
        outcome(r, *final(journal)) == config_interpolated(
            (UrlsView {
                run_dir: run_dir@,
                sequencer_db: sequencer_db_url@,
                mock_da: mock_da_url@,
            }),
            original_path@,
            node_name@,
            version_idx as nat,
            old(journal).replies@,
            old(journal).next as nat,
        ),
        final(journal).replies == old(journal).replies,
{
    let content = match journal.ask_text(HostCall::ReadText { path: original_path.clone() })? {
        Ok(content) => content,
        Err(source) => {
            let path = original_path.clone();
            return Err(Stop::Fail(TestCaseError::ReadConfig { path, source }));
        },
    };
    let content = interpolate_config(content.as_str(), sequencer_db_url, mock_da_url);
    let dir = join_path(run_dir, node_name);
    match journal.ask_status(HostCall::CreateDirAll { path: dir.clone() })? {
        Ok(()) => {},
        Err(source) => {
            return Err(Stop::Fail(TestCaseError::WriteConfig { path: dir, source }));
        },
    }
    let number = decimal_text(version_idx as u64);
    let file_name = concat3("config_", number.as_str(), ".toml");
    let new_path = join_path(dir.as_str(), file_name.as_str());
    match journal.ask_status(HostCall::WriteText { path: new_path.clone(), content })? {
        Ok(()) => Ok(new_path),
        Err(source) => Err(Stop::Fail(TestCaseError::WriteConfig { path: new_path, source })),
    }
}

fn interpolate_node(
    versions: &Vec<RollupVersion>,
    run_dir: &String,
    node_name: &str,
    sequencer_db_url: &String,
    mock_da_url: &String,
    journal: &mut Journal,
) -> (r: Result<Vec<RollupVersion>, Stop<TestCaseError>>)
    ensures
        outcome(r, *final(journal)) == node_interpolated(
            (UrlsView {
                run_dir: run_dir@,
                sequencer_db: sequencer_db_url@,
                mock_da: mock_da_url@,
            }),
            versions.deep_view(),
            node_name@,
            seq![],
            old(journal).replies@,
            old(journal).next as nat,
        ),
        final(journal).replies == old(journal).replies,
{
    let ghost urls = UrlsView {
        run_dir: run_dir@,
        sequencer_db: sequencer_db_url@,
        mock_da: mock_da_url@,
    };
    let ghost all = versions.deep_view();
    let ghost replies = journal.replies@;
    let ghost whole = node_interpolated(
        urls,
        all,
        node_name@,
        seq![],
        replies,
        journal.next as nat,
    );
    let mut done: Vec<RollupVersion> = Vec::new();
    assert(done.deep_view() =~= seq![]);
    while done.len() < versions.len()
        invariant
            done.len() <= versions.len(),
            urls == (UrlsView {
                run_dir: run_dir@,
                sequencer_db: sequencer_db_url@,
                mock_da: mock_da_url@,
            }),
            all == versions.deep_view(),
            replies == journal.replies@,
            journal.replies == old(journal).replies,
            whole == node_interpolated(
                urls,
                all,
                node_name@,
                seq![],
                replies,
                old(journal).next as nat,
            ),
            whole == node_interpolated(
                urls,
                all,
                node_name@,
                done.deep_view(),
                replies,
                journal.next as nat,
            ),
        decreases versions.len() - done.len(),
    {
        let i: usize = done.len();
        let ghost before = done.deep_view();
        let mut version = versions[i].clone();
        assert(all[i as int] == version.deep_view());
        version.config_path = interpolate_config_file(
            &versions[i].config_path,
            run_dir,
            node_name,
            i,
            sequencer_db_url,
            mock_da_url,
            journal,
        )?;
        done.push(version);
        assert(done.deep_view() =~= before.push(version.deep_view()));
    }
    Ok(done)
}

/// Interpolate config files with connection strings and write to run_dir.
///
/// This performs text substitution of placeholders in each config file,
/// writes the interpolated config to run_dir, and returns updated NodeVersions with
/// the new config paths.
fn interpolate_node_configs(
    versions: NodeVersions,
    run_dir: &String,
    sequencer_db_url: &String,
    mock_da_url: &String,
    journal: &mut Journal,
) -> (r: Result<NodeVersions, Stop<TestCaseError>>)
    ensures
        outcome(r, *final(journal)) == all_interpolated(
            (UrlsView {
                run_dir: run_dir@,
                sequencer_db: sequencer_db_url@,
                mock_da: mock_da_url@,
            }),
            versions.deep_view(),
            seq![],
            old(journal).replies@,
            old(journal).next as nat,
        ),
        final(journal).replies == old(journal).replies,
        r matches Ok(v) ==> v.nodes@.len() == versions.nodes@.len(),
{
    let ghost urls = UrlsView {
        run_dir: run_dir@,
        sequencer_db: sequencer_db_url@,
        mock_da: mock_da_url@,
    };
    let ghost all = versions.deep_view();
    let ghost replies = journal.replies@;
    let ghost whole = all_interpolated(urls, all, seq![], replies, journal.next as nat);
    let mut nodes: Vec<Vec<RollupVersion>> = Vec::new();
    assert(nodes.deep_view() =~= seq![]);
    while nodes.len() < versions.nodes.len()
        invariant
            nodes.len() <= versions.nodes.len(),
            urls == (UrlsView {
                run_dir: run_dir@,
                sequencer_db: sequencer_db_url@,
                mock_da: mock_da_url@,
            }),
            all == versions.deep_view(),
            replies == journal.replies@,
            journal.replies == old(journal).replies,
            whole == all_interpolated(urls, all, seq![], replies, old(journal).next as nat),
            whole == all_interpolated(
                urls,
                all,
                nodes.deep_view(),
                replies,
                journal.next as nat,
            ),
        decreases versions.nodes.len() - nodes.len(),
    {
        let i: usize = nodes.len();
        let ghost before = nodes.deep_view();
        let name = name_of_index(i);
        assert(all[i as int] == versions.nodes@[i as int].deep_view());
        let node = interpolate_node(
            &versions.nodes[i],
            run_dir,
            name.as_str(),
            sequencer_db_url,
            mock_da_url,
            journal,
        )?;
        nodes.push(node);
        assert(nodes.deep_view() =~= before.push(node.deep_view()));
    }
    Ok(NodeVersions { nodes })
}

fn name_of_index(node: usize) -> (name: String)
    ensures
        name@ == type_of_node(node as nat).name(),
{
    let node_type = if node == 0 {
        NodeType::Master
    } else {
        NodeType::Replica(node - 1)
    };
    node_type.to_string()
}

/// A node's versions with the last stop height moved up.
pub open spec fn node_resync(versions: Seq<VersionView>, extra_blocks: u64) -> Seq<VersionView> {
    if extra_blocks == 0 || versions.len() == 0 || versions.last().stop_height is None {
        versions
    } else {
        versions.drop_last().push(
            VersionView {
                stop_height: Some((versions.last().stop_height->0 + extra_blocks) as u64),
                ..versions.last()
            },
        )
    }
}

/// All nodes' versions with the last stop heights moved up.
pub open spec fn all_resync(nodes: Seq<Seq<VersionView>>, extra_blocks: u64) -> Seq<
    Seq<VersionView>,
> {
    nodes.map_values(|versions: Seq<VersionView>| node_resync(versions, extra_blocks))
}

/// Whether the last stop height of a node can be moved up.
pub open spec fn stop_representable(versions: Seq<VersionView>, extra_blocks: u64) -> bool {
    versions.len() > 0 && versions.last().stop_height is Some
        ==> versions.last().stop_height->0 + extra_blocks <= u64::MAX
}

fn resync_node(versions: &Vec<RollupVersion>, extra_blocks: u64) -> (r: Vec<RollupVersion>)
    requires
        stop_representable(versions.deep_view(), extra_blocks),
    ensures
        r.deep_view() == node_resync(versions.deep_view(), extra_blocks),
{
    let ghost all = versions.deep_view();
    let mut r = copy_versions(versions);
    if extra_blocks > 0 {
        let count: usize = r.len();
        if count > 0 {
            assert(all.last() == r@.last().deep_view());
            if let Some(stop) = r[count - 1].stop_height {
                match r.pop() {
                    Some(last) => {
                        let ghost earlier = r.deep_view();
                        assert(earlier =~= all.drop_last());
                        let mut last = last;
                        last.stop_height = Some(stop + extra_blocks);
                        r.push(last);
                        assert(r.deep_view() =~= earlier.push(last.deep_view()));
                    },
                    None => {},
                }
            }
        }
    }
    r
}

/// Build resync versions with extended stop height.
///
/// Extends the last version's stop height by `extra_blocks` to verify
/// the rollup can continue producing blocks after resyncing.
pub fn build_resync_versions(versions: &NodeVersions, extra_blocks: u64) -> (r: NodeVersions)
    requires
        forall|n: int|
            0 <= n < versions.deep_view().len() ==> stop_representable(
                #[trigger] versions.deep_view()[n],
                extra_blocks,
            ),
    ensures
        r.deep_view() == all_resync(versions.deep_view(), extra_blocks),
{
    let ghost view = versions.deep_view();
    let ghost all = all_resync(view, extra_blocks);
    let mut nodes: Vec<Vec<RollupVersion>> = Vec::new();
    assert(nodes.deep_view() =~= all.take(0));
    while nodes.len() < versions.nodes.len()
        invariant
            nodes.len() <= versions.nodes.len(),
            view == versions.deep_view(),
            forall|n: int|
                0 <= n < view.len() ==> stop_representable(#[trigger] view[n], extra_blocks),
            all == all_resync(view, extra_blocks),
            nodes.deep_view() == all.take(nodes.len() as int),
        decreases versions.nodes.len() - nodes.len(),
    {
        let i: usize = nodes.len();
        let ghost before = nodes.deep_view();
        assert(view[i as int] == versions.nodes@[i as int].deep_view());
        let node = resync_node(&versions.nodes[i], extra_blocks);
        nodes.push(node);
        assert(nodes.deep_view() =~= before.push(node.deep_view()));
        assert(all.take(i + 1) =~= all.take(i as int).push(all[i as int]));
    }
    assert(all.take(nodes.len() as int) =~= all);
    NodeVersions { nodes }
}

/// The nodes run, with a soak test alongside where there is one. The nodes decide the result; a
/// failure of the soak test counts only where they succeed.
pub open spec fn run_soaked(
    nodes: NodesView,
    soak: Option<SoakManagerView>,
    api_url: Seq<char>,
    registry: Seq<(Seq<char>, u32)>,
    replies: Seq<HostReply>,
    at: nat,
) -> Outcome<(), TestCaseError<Seq<char>>> {
    match soak {
        None => nodes.run(false, registry, replies, at),
        Some(soak) => if !done_at(replies, at) {
            Outcome::Asks(HostCallView::StartSoak { soak, api_url }, at)
        } else {
            match nodes.run(true, registry, replies, at + 1) {
                Outcome::Asks(call, stop) => Outcome::Asks(call, stop),
                Outcome::Fails(e, over) => match soak_end_at(replies, over) {
                    None => Outcome::Asks(
                        HostCallView::AwaitSoak { timeout_millis: SOAK_SHUTDOWN_MILLIS },
                        over,
                    ),
                    Some(_) => Outcome::Fails(e, over + 1),
                },
                Outcome::Gives(_, over) => match soak_end_at(replies, over) {
                    None => Outcome::Asks(
                        HostCallView::AwaitSoak { timeout_millis: SOAK_SHUTDOWN_MILLIS },
                        over,
                    ),
                    Some(SoakEnd::Failed(e)) => Outcome::Fails(
                        soak_failure(e).deep_view(),
                        over + 1,
                    ),
                    Some(_) => Outcome::Gives((), over + 1),
                },
            }
        },
    }
}

/// The registry after that, or as far as it has come.
pub open spec fn soaked_registry(
    nodes: NodesView,
    soak: Option<SoakManagerView>,
    registry: Seq<(Seq<char>, u32)>,
    replies: Seq<HostReply>,
    at: nat,
) -> Seq<(Seq<char>, u32)> {
    if soak is None {
        nodes.registry_after(registry, replies, at)
    } else if !done_at(replies, at) {
        registry
    } else {
        nodes.registry_after(registry, replies, at + 1)
    }
}

fn copy_soak_config(config: &SoakManagerConfig) -> (r: SoakManagerConfig)
    ensures
        r.deep_view() == config.deep_view(),
{
    let ghost all = config.versions.deep_view();
    let mut versions: Vec<(String, u64)> = Vec::new();
    let mut i: usize = 0;
    assert(versions.deep_view() =~= all.take(0));
    while i < config.versions.len()
        invariant
            i <= config.versions.len(),
            all == config.versions.deep_view(),
            versions.deep_view() == all.take(i as int),
        decreases config.versions.len() - i,
    {
        let ghost before = versions.deep_view();
        let version = (config.versions[i].0.clone(), config.versions[i].1);
        versions.push(version);
        assert(version.deep_view() == all[i as int]);
        assert(versions.deep_view() =~= before.push(version.deep_view()));
        assert(all.take(i + 1) =~= all.take(i as int).push(all[i as int]));
        i = i + 1;
    }
    assert(all.take(i as int) =~= all);
    SoakManagerConfig { config: config.config, versions }
}

/// Run nodes with optional soak testing coordination.
///
/// The nodes are the primary driver - we always wait for them to complete.
/// Soak testing runs in the background and should exit shortly after nodes
/// send the shutdown signal.
fn run_with_soak(
    manager_binary: &String,
    versions: &NodeVersions,
    node_names: &Vec<String>,
    extra_args: &Vec<String>,
    run_dir: &String,
    soak_config: &Option<SoakManagerConfig>,
    master_api_url: &String,
    registry: &mut ProcessRegistry,
    journal: &mut Journal,
) -> (r: Result<(), Stop<TestCaseError>>)
    requires
        versions.nodes@.len() <= MAX_NODES,
    ensures
        ({
            let nodes = NodesView {
                manager_binary: manager_binary@,
                versions: versions.deep_view(),
                names: node_names.deep_view(),
                extra_args: extra_args.deep_view(),
                run_dir: run_dir@,
            };
            let before = old(registry).deep_view();
            let replies = old(journal).replies@;
            let at = old(journal).next as nat;
            &&& outcome(r, *final(journal)) == run_soaked(
                nodes,
                soak_config.deep_view(),
                master_api_url@,
                before,
                replies,
                at,
            )
            &&& final(registry).deep_view() == soaked_registry(
                nodes,
                soak_config.deep_view(),
                before,
                replies,
                at,
            )
        }),
        final(journal).replies == old(journal).replies,
{
    let soak = match soak_config {
        None => {
            return run_nodes(
                manager_binary,
                versions,
                node_names,
                extra_args,
                run_dir,
                false,
                registry,
                journal,
            );
        },
        Some(config) => copy_soak_config(config),
    };
    journal.ask_done(HostCall::StartSoak { soak, api_url: master_api_url.clone() })?;
    let nodes_result = match run_nodes(
        manager_binary,
        versions,
        node_names,
        extra_args,
        run_dir,
        true,
        registry,
        journal,
    ) {
        Ok(()) => Ok(()),
        Err(Stop::Fail(e)) => Err(e),
        Err(Stop::Ask(call)) => {
            return Err(Stop::Ask(call));
        },
    };
    let end = journal.ask_soak_end(HostCall::AwaitSoak { timeout_millis: SOAK_SHUTDOWN_MILLIS })?;
    match (nodes_result, end) {
        (Err(e), _) => Err(Stop::Fail(e)),
        (Ok(()), SoakEnd::Failed(e)) => Err(Stop::Fail(soak_error(e))),
        (Ok(()), _) => Ok(()),
    }
}

/// The command that starts the mock-da-server.
pub open spec fn mock_da_command(binary: Seq<char>, da_db_url: Seq<char>, port: u16)
    -> CommandView {
    CommandView {
        program: binary,
        args: seq![
            "--host"@,
            "0.0.0.0"@,
            "--port"@,
            decimal(port as nat),
            "--db"@,
            da_db_url,
            "--block-time-ms"@,
            "1000"@,
        ],
        current_dir: None,
    }
}

/// The mock-da-server is started, and gets time to come up; the registry with its process.
pub open spec fn mock_da_spawned(
    binary: Seq<char>,
    da_db_url: Seq<char>,
    port: u16,
    registry: Seq<(Seq<char>, u32)>,
    replies: Seq<HostReply>,
    at: nat,
) -> Outcome<Seq<(Seq<char>, u32)>, TestCaseError<Seq<char>>> {
    match spawned_at(replies, at) {
        None => Outcome::Asks(
            HostCallView::Spawn {
                name: "mock-da"@,
                command: mock_da_command(binary, da_db_url, port),
            },
            at,
        ),
        Some(Err(m)) => Outcome::Fails(TestCaseError::MockDaSpawn(m@), at + 1),
        Some(Ok(pid)) => if !done_at(replies, at + 1) {
            Outcome::Asks(HostCallView::Sleep { millis: MOCK_DA_START_MILLIS }, at + 1)
        } else {
            Outcome::Gives(
                match pid {
                    Some(pid) => registry.push(("mock-da"@, pid)),
                    None => registry,
                },
                at + 2,
            )
        },
    }
}

/// Spawn the mock-da-server process.
///
/// The mock-da-server provides the DA layer for all rollup nodes. It:
/// - Connects to postgres for storage (via `--db`)
/// - Exposes a gRPC endpoint on the specified port (via `--port`)
/// - Runs for the entire test duration (both initial and resync phases)
fn spawn_mock_da_server(
    binary_path: &String,
    da_db_url: &String,
    port: u16,
    registry: ProcessRegistry,
    journal: &mut Journal,
) -> (r: Result<ProcessRegistry, Stop<TestCaseError>>)
    ensures
        outcome(r, *final(journal)) == mock_da_spawned(
            binary_path@,
            da_db_url@,
            port,
            registry.deep_view(),
            old(journal).replies@,
            old(journal).next as nat,
        ),
        final(journal).replies == old(journal).replies,
{
    let port_text = decimal_text(port as u64);
    let mut args = no_args();
    push_arg(&mut args, "--host");
    push_arg(&mut args, "0.0.0.0");
    push_arg(&mut args, "--port");
    push_arg(&mut args, port_text.as_str());
    push_arg(&mut args, "--db");
    push_arg(&mut args, da_db_url);
    push_arg(&mut args, "--block-time-ms");
    push_arg(&mut args, "1000");
    let command = CommandSpec { program: binary_path.clone(), args, current_dir: None };
    assert(command@ =~= mock_da_command(binary_path@, da_db_url@, port));
    let name = "mock-da".to_string();
    let mut registry = registry;
    match journal.ask_spawned(HostCall::Spawn { name: name.clone(), command })? {
        Err(m) => {
            return Err(Stop::Fail(TestCaseError::MockDaSpawn(m)));
        },
        Ok(Some(pid)) => {
            registry.register(name, pid);
        },
        Ok(None) => {},
    }
    journal.ask_done(HostCall::Sleep { millis: MOCK_DA_START_MILLIS })?;
    Ok(registry)
}

/// What the phases of a test need to know.
#[verifier::ext_equal]
pub struct PhasesView {
    pub nodes: NodesView,
    pub soak: Option<SoakManagerView>,
    pub api_url: Seq<char>,
    pub layout: Seq<NodeView>,
    pub extra_blocks: u64,
    pub container: ContainerView,
}

impl PhasesView {
    /// The nodes of the resync.
    pub open spec fn resync_nodes(self) -> NodesView {
        NodesView { versions: all_resync(self.nodes.versions, self.extra_blocks), ..self.nodes }
    }

    /// The soak test of the resync.
    pub open spec fn resync_soak(self) -> Option<SoakManagerView> {
        match self.soak {
            Some(soak) => soak.resync(self.extra_blocks),
            None => None,
        }
    }

    /// The initial run.
    pub open spec fn initial(
        self,
        registry: Seq<(Seq<char>, u32)>,
        replies: Seq<HostReply>,
        at: nat,
    ) -> Outcome<(), TestCaseError<Seq<char>>> {
        run_soaked(self.nodes, self.soak, self.api_url, registry, replies, at)
    }

    /// The state of the initial run is cleared: the storage of all nodes, and the sequencer's
    /// database. DA data stays.
    pub open spec fn state_cleared(self, replies: Seq<HostReply>, at: nat) -> Outcome<
        (),
        TestCaseError<Seq<char>>,
    > {
        match all_storage_cleared(self.nodes.run_dir, self.layout, replies, at) {
            Outcome::Gives(_, cleared) => match self.container.all_sql_executed(
                reset_statements(),
                replies,
                cleared,
            ) {
                Outcome::Asks(call, stop) => Outcome::Asks(call, stop),
                Outcome::Fails(e, next) => Outcome::Fails(TestCaseError::Docker(e), next),
                Outcome::Gives(_, next) => Outcome::Gives((), next),
            },
            stopped => stopped,
        }
    }

    /// Both phases: the initial run, and, once its state has been cleared, the resync.
    pub open spec fn run(
        self,
        registry: Seq<(Seq<char>, u32)>,
        replies: Seq<HostReply>,
        at: nat,
    ) -> Outcome<(), TestCaseError<Seq<char>>> {
        match self.initial(registry, replies, at) {
            Outcome::Gives(_, ran) => match self.state_cleared(replies, ran) {
                Outcome::Gives(_, cleared) => run_soaked(
                    self.resync_nodes(),
                    self.resync_soak(),
                    self.api_url,
                    seq![],
                    replies,
                    cleared,
                ),
                stopped => stopped,
            },
            stopped => stopped,
        }
    }

    /// The registry after that, or as far as it has come. The resync starts with an empty one.
    pub open spec fn registry_after(
        self,
        registry: Seq<(Seq<char>, u32)>,
        replies: Seq<HostReply>,
        at: nat,
    ) -> Seq<(Seq<char>, u32)> {
        match self.initial(registry, replies, at) {
            Outcome::Gives(_, ran) => match self.state_cleared(replies, ran) {
                Outcome::Gives(_, cleared) => soaked_registry(
                    self.resync_nodes(),
                    self.resync_soak(),
                    seq![],
                    replies,
                    cleared,
                ),
                _ => seq![],
            },
            _ => soaked_registry(self.nodes, self.soak, registry, replies, at),
        }
    }

    /// The numbers of the resync can be represented.
    pub open spec fn representable(self) -> bool {
        &&& self.nodes.versions.len() <= MAX_NODES
        &&& forall|n: int|
            0 <= n < self.nodes.versions.len() ==> stop_representable(
                #[trigger] self.nodes.versions[n],
                self.extra_blocks,
            )
        &&& self.soak matches Some(soak) ==> soak.resync_representable(self.extra_blocks)
    }
}

/// What the phases of a test need to know.
#[derive(Debug)]
pub struct Phases {
    pub manager_binary: String,
    pub versions: NodeVersions,
    pub node_names: Vec<String>,
    pub extra_args: Vec<String>,
    pub run_dir: String,
    pub soak_config: Option<SoakManagerConfig>,
    pub master_api_url: String,
    pub layout: TestNodeLayout,
    pub extra_blocks: u64,
}

impl Phases {
    /// The phases, with the container of their databases.
    pub open spec fn with_container(self, container: ContainerView) -> PhasesView {
        PhasesView {
            nodes: NodesView {
                manager_binary: self.manager_binary@,
                versions: self.versions.deep_view(),
                names: self.node_names.deep_view(),
                extra_args: self.extra_args.deep_view(),
                run_dir: self.run_dir@,
            },
            soak: self.soak_config.deep_view(),
            api_url: self.master_api_url@,
            layout: self.layout.deep_view().nodes(),
            extra_blocks: self.extra_blocks,
            container,
        }
    }
}

/// Run the test phases (initial run + resync).
fn run_test_phases(
    phases: &Phases,
    container: &PostgresDockerContainer,
    registry: &mut ProcessRegistry,
    journal: &mut Journal,
) -> (r: Result<(), Stop<TestCaseError>>)
    requires
        phases.with_container(container.deep_view()).representable(),
    ensures
        outcome(r, *final(journal)) == phases.with_container(container.deep_view()).run(
            old(registry).deep_view(),
            old(journal).replies@,
            old(journal).next as nat,
        ),
        final(registry).deep_view() == phases.with_container(
            container.deep_view(),
        ).registry_after(
            old(registry).deep_view(),
            old(journal).replies@,
            old(journal).next as nat,
        ),
        final(journal).replies == old(journal).replies,
{
    let ghost view = phases.with_container(container.deep_view());
    assert(phases.versions.nodes@.len() == view.nodes.versions.len());
    run_with_soak(
        &phases.manager_binary,
        &phases.versions,
        &phases.node_names,
        &phases.extra_args,
        &phases.run_dir,
        &phases.soak_config,
        &phases.master_api_url,
        registry,
        journal,
    )?;

    registry.clear();
    clear_all_storage(&phases.run_dir, &phases.layout, journal)?;
    match container.reset_sequencer_db(journal) {
        Ok(()) => {},
        Err(Stop::Ask(call)) => {
            return Err(Stop::Ask(call));
        },
        Err(Stop::Fail(e)) => {
            return Err(Stop::Fail(TestCaseError::Docker(e)));
        },
    }

    let resync_versions = build_resync_versions(&phases.versions, phases.extra_blocks);
    assert(resync_versions.nodes@.len() == resync_versions.deep_view().len());
    let resync_soak = match &phases.soak_config {
        Some(soak) => soak.for_resync(phases.extra_blocks),
        None => None,
    };
    run_with_soak(
        &phases.manager_binary,
        &resync_versions,
        &phases.node_names,
        &phases.extra_args,
        &phases.run_dir,
        &resync_soak,
        &phases.master_api_url,
        registry,
        journal,
    )
}

/// Whether interpolated versions are the given ones but for their config files.
pub open spec fn same_but_config(a: Seq<VersionView>, b: Seq<VersionView>) -> bool {
    &&& a.len() == b.len()
    &&& forall|i: int|
        0 <= i < a.len() ==> a[i] == (VersionView {
            config_path: (#[trigger] a[i]).config_path,
            ..b[i]
        })
}

proof fn node_interpolation_keeps(
    urls: UrlsView,
    versions: Seq<VersionView>,
    name: Seq<char>,
    done: Seq<VersionView>,
    replies: Seq<HostReply>,
    at: nat,
)
    requires
        done.len() <= versions.len(),
        same_but_config(done, versions.take(done.len() as int)),
    ensures
        node_interpolated(urls, versions, name, done, replies, at) matches Outcome::Gives(all, _)
            ==> same_but_config(all, versions),
    decreases versions.len() - done.len(),
{
    if done.len() < versions.len() {
        let i = done.len() as int;
        match config_interpolated(
            urls,
            versions[i].config_path,
            name,
            done.len(),
            replies,
            at,
        ) {
            Outcome::Gives(config_path, next) => {
                let more = done.push(VersionView { config_path, ..versions[i] });
                assert forall|k: int| 0 <= k < more.len() implies more[k] == (VersionView {
                    config_path: (#[trigger] more[k]).config_path,
                    ..versions.take(i + 1)[k]
                }) by {
                    if k < i {
                        assert(done[k] == (VersionView {
                            config_path: done[k].config_path,
                            ..versions.take(i)[k]
                        }));
                    }
                }
                node_interpolation_keeps(urls, versions, name, more, replies, next);
            },
            _ => {},
        }
    } else {
        assert(versions.take(done.len() as int) =~= versions);
    }
}

proof fn interpolation_keeps(
    urls: UrlsView,
    nodes: Seq<Seq<VersionView>>,
    done: Seq<Seq<VersionView>>,
    replies: Seq<HostReply>,
    at: nat,
)
    requires
        done.len() <= nodes.len(),
        forall|n: int| 0 <= n < done.len() ==> same_but_config(#[trigger] done[n], nodes[n]),
    ensures
        all_interpolated(urls, nodes, done, replies, at) matches Outcome::Gives(all, _) ==> {
            &&& all.len() == nodes.len()
            &&& forall|n: int| 0 <= n < all.len() ==> same_but_config(#[trigger] all[n], nodes[n])
        },
    decreases nodes.len() - done.len(),
{
    if done.len() < nodes.len() {
        let versions = nodes[done.len() as int];
        let name = type_of_node(done.len()).name();
        assert(same_but_config(Seq::<VersionView>::empty(), versions.take(0)));
        node_interpolation_keeps(urls, versions, name, seq![], replies, at);
        match node_interpolated(urls, versions, name, seq![], replies, at) {
            Outcome::Gives(node, next) => {
                let more = done.push(node);
                assert forall|n: int| 0 <= n < more.len() implies same_but_config(
                    #[trigger] more[n],
                    nodes[n],
                ) by {
                    if n < done.len() {
                        assert(same_but_config(done[n], nodes[n]));
                    }
                }
                interpolation_keeps(urls, nodes, more, replies, next);
            },
            _ => {},
        }
    }
}

/// Filling in connection strings changes nothing of a node's versions but where their config
/// files are.
pub proof fn interpolation_changes_config_paths_only(
    urls: UrlsView,
    nodes: Seq<Seq<VersionView>>,
    replies: Seq<HostReply>,
    at: nat,
)
    ensures
        all_interpolated(urls, nodes, seq![], replies, at) matches Outcome::Gives(all, _) ==> {
            &&& all.len() == nodes.len()
            &&& forall|n: int| 0 <= n < all.len() ==> same_but_config(#[trigger] all[n], nodes[n])
        },
{
    interpolation_keeps(urls, nodes, seq![], replies, at);
}

impl TestCaseView {
    /// Every node has its config files, there are ports for all nodes, and the heights and salts
    /// of the resync can be represented.
    pub open spec fn runnable(self) -> bool {
        &&& self.complete()
        &&& self.nodes.len() <= MAX_NODES
        &&& self.versions.len() > 0 ==> self.versions.last().stop_height
            + self.extra_blocks_after_resync <= u64::MAX
        &&& self.soak_testing matches Some(soak) ==> soak.salt + self.versions.len()
            * soak.num_workers <= u32::MAX
    }
}

impl TestCase {
    /// Whether the test case can be run.
    pub fn is_runnable(&self) -> (b: bool)
        ensures
            b == self.deep_view().runnable(),
    {
        let count: usize = self.versions.len();
        if count > 0 {
            let last: u64 = self.versions[count - 1].stop_height;
            if last.checked_add(self.extra_blocks_after_resync).is_none() {
                return false;
            }
        }
        if let Some(soak) = &self.soak_testing {
            let count: u64 = count as u64;
            let workers: u64 = soak.num_workers as u64;
            match count.checked_mul(workers) {
                None => {
                    assert(count * workers > u64::MAX);
                    return false;
                },
                Some(salts) => match salts.checked_add(soak.salt as u64) {
                    None => {
                        return false;
                    },
                    Some(end) => {
                        if end > 0xffff_ffff {
                            return false;
                        }
                    },
                },
            }
        }
        self.is_complete() && self.nodes.len() <= MAX_NODES
    }
}

/// What has been prepared for the phases of a test.
#[verifier::ext_equal]
pub struct SetupView {
    pub manager_binary: Seq<char>,
    pub versions: Seq<Seq<VersionView>>,
    pub soak: Option<SoakManagerView>,
    pub registry: Seq<(Seq<char>, u32)>,
}

/// What has been prepared for the phases of a test.
#[derive(Debug)]
pub struct Setup {
    pub manager_binary: String,
    pub versions: NodeVersions,
    pub soak_config: Option<SoakManagerConfig>,
    pub registry: ProcessRegistry,
}

impl DeepView for Setup {
    type V = SetupView;

    open spec fn deep_view(&self) -> SetupView {
        SetupView {
            manager_binary: self.manager_binary@,
            versions: self.versions.deep_view(),
            soak: self.soak_config.deep_view(),
            registry: self.registry.deep_view(),
        }
    }
}

/// The URL of a local port.
pub open spec fn local_url(port: u16) -> Seq<char> {
    "http://localhost:"@ + decimal(port as nat)
}

fn local_url_text(port: u16) -> (url: String)
    ensures
        url@ == local_url(port),
{
    let port = decimal_text(port as u64);
    concat2("http://localhost:", port.as_str())
}

/// Everything is prepared for the phases: the manager, the nodes' binaries and config files, the
/// soak test, the storage directories, and the mock-da-server.
pub open spec fn prepared(
    case: TestCaseView,
    builder: RollupBuilder,
    container: ContainerView,
    run_dir: Seq<char>,
    layout: Seq<NodeView>,
    replies: Seq<HostReply>,
    at: nat,
) -> Outcome<SetupView, TestCaseError<Seq<char>>> {
    let urls = UrlsView {
        run_dir,
        sequencer_db: container.connection_string(SEQUENCER_DB@),
        mock_da: local_url(MOCK_DA_PORT),
    };
    match manager_binary_built(replies, at) {
        Outcome::Asks(call, stop) => Outcome::Asks(call, stop),
        Outcome::Fails(e, next) => Outcome::Fails(e, next),
        Outcome::Gives(manager_binary, n1) => match case.node_versions(builder, replies, n1) {
            Outcome::Asks(call, stop) => Outcome::Asks(call, stop),
            Outcome::Fails(e, next) => Outcome::Fails(e, next),
            Outcome::Gives(built, n2) => match all_interpolated(
                urls,
                built,
                seq![],
                replies,
                n2,
            ) {
                Outcome::Asks(call, stop) => Outcome::Asks(call, stop),
                Outcome::Fails(e, next) => Outcome::Fails(e, next),
                Outcome::Gives(versions, n3) => match case.soak_config_built(
                    builder,
                    replies,
                    n3,
                ) {
                    Outcome::Asks(call, stop) => Outcome::Asks(call, stop),
                    Outcome::Fails(e, next) => Outcome::Fails(e, next),
                    Outcome::Gives(soak, n4) => match all_storage_cleared(
                        run_dir,
                        layout,
                        replies,
                        n4,
                    ) {
                        Outcome::Asks(call, stop) => Outcome::Asks(call, stop),
                        Outcome::Fails(e, next) => Outcome::Fails(e, next),
                        Outcome::Gives(_, n5) => match mock_da_ready(
                            case,
                            builder,
                            container,
                            replies,
                            n5,
                        ) {
                            Outcome::Asks(call, stop) => Outcome::Asks(call, stop),
                            Outcome::Fails(e, next) => Outcome::Fails(e, next),
                            Outcome::Gives(registry, next) => Outcome::Gives(
                                SetupView { manager_binary, versions, soak, registry },
                                next,
                            ),
                        },
                    },
                },
            },
        },
    }
}

/// The mock-da-server of the first version is built and started; the registry with its process.
pub open spec fn mock_da_ready(
    case: TestCaseView,
    builder: RollupBuilder,
    container: ContainerView,
    replies: Seq<HostReply>,
    at: nat,
) -> Outcome<Seq<(Seq<char>, u32)>, TestCaseError<Seq<char>>> {
    match builder.binary(case.versions[0].commit@, mock_da_build(), replies, at) {
        Outcome::Asks(call, stop) => Outcome::Asks(call, stop),
        Outcome::Fails(e, next) => Outcome::Fails(TestCaseError::Build(e), next),
        Outcome::Gives(binary, next) => mock_da_spawned(
            binary,
            container.connection_string(MOCK_DA_DB@),
            MOCK_DA_PORT,
            seq![],
            replies,
            next,
        ),
    }
}

fn start_mock_da(
    test_case: &TestCase,
    builder: &RollupBuilder,
    container: &PostgresDockerContainer,
    journal: &mut Journal,
) -> (r: Result<ProcessRegistry, Stop<TestCaseError>>)
    requires
        test_case.versions@.len() > 0,
    ensures
        outcome(r, *final(journal)) == mock_da_ready(
            test_case.deep_view(),
            *builder,
            container.deep_view(),
            old(journal).replies@,
            old(journal).next as nat,
        ),
        final(journal).replies == old(journal).replies,
{
    let binary = match builder.get_mock_da_binary(
        test_case.versions[0].commit.as_str(),
        journal,
    ) {
        Ok(binary) => binary,
        Err(Stop::Ask(call)) => {
            return Err(Stop::Ask(call));
        },
        Err(Stop::Fail(e)) => {
            return Err(Stop::Fail(TestCaseError::Build(e)));
        },
    };
    let da_db_url = container.da_connection_string();
    let registry = ProcessRegistry::new();
    assert(registry.deep_view() =~= seq![]);
    spawn_mock_da_server(&binary, &da_db_url, MOCK_DA_PORT, registry, journal)
}

fn prepare(
    test_case: &TestCase,
    builder: &RollupBuilder,
    container: &PostgresDockerContainer,
    run_dir: &String,
    layout: &TestNodeLayout,
    journal: &mut Journal,
) -> (r: Result<Setup, Stop<TestCaseError>>)
    requires
        test_case.versions@.len() > 0,
        test_case.deep_view().complete(),
    ensures
        outcome(r, *final(journal)) == prepared(
            test_case.deep_view(),
            *builder,
            container.deep_view(),
            run_dir@,
            layout.deep_view().nodes(),
            old(journal).replies@,
            old(journal).next as nat,
        ),
        final(journal).replies == old(journal).replies,
{
    let manager_binary = build_manager_binary(journal)?;
    let versions = test_case.build_node_versions(builder, journal)?;
    let sequencer_db_url = container.sequencer_connection_string();
    let mock_da_url = local_url_text(MOCK_DA_PORT);
    let versions = interpolate_node_configs(
        versions,
        run_dir,
        &sequencer_db_url,
        &mock_da_url,
        journal,
    )?;
    let soak_config = test_case.build_soak_config(builder, journal)?;
    clear_all_storage(run_dir, layout, journal)?;
    let registry = start_mock_da(test_case, builder, container, journal)?;
    Ok(Setup { manager_binary, versions, soak_config, registry })
}

/// The names of all nodes, master first.
pub open spec fn node_names(count: nat) -> Seq<Seq<char>> {
    Seq::new(count, |n: int| type_of_node(n as nat).name())
}

fn list_node_names(count: usize) -> (names: Vec<String>)
    ensures
        names.deep_view() == node_names(count as nat),
{
    let ghost all = node_names(count as nat);
    let mut names: Vec<String> = Vec::new();
    assert(names.deep_view() =~= all.take(0));
    while names.len() < count
        invariant
            names.len() <= count,
            all == node_names(count as nat),
            names.deep_view() == all.take(names.len() as int),
        decreases count - names.len(),
    {
        let i: usize = names.len();
        let ghost before = names.deep_view();
        let name = name_of_index(i);
        names.push(name);
        assert(names.deep_view() =~= before.push(name@));
        assert(all.take(i + 1) =~= all.take(i as int).push(all[i as int]));
    }
    assert(all.take(names.len() as int) =~= all);
    names
}

/// The phases of a test that has been prepared.
pub open spec fn phases_of(
    case: TestCaseView,
    root: Seq<char>,
    layout: LayoutView,
    container: ContainerView,
    setup: SetupView,
) -> PhasesView {
    PhasesView {
        nodes: NodesView {
            manager_binary: setup.manager_binary,
            versions: setup.versions,
            names: node_names(setup.versions.len()),
            extra_args: seq!["--genesis-path"@, joined_path(root, "genesis.json"@)],
            run_dir: joined_path(root, "run-dir"@),
        },
        soak: setup.soak,
        api_url: local_url(layout.master.http_port),
        layout: layout.nodes(),
        extra_blocks: case.extra_blocks_after_resync,
        container,
    }
}

proof fn prepared_phases_representable(
    case: TestCaseView,
    builder: RollupBuilder,
    root: Seq<char>,
    layout: LayoutView,
    container: ContainerView,
    replies: Seq<HostReply>,
    at: nat,
)
    requires
        case.runnable(),
        case.versions.len() > 0,
    ensures
        prepared(
            case,
            builder,
            container,
            joined_path(root, "run-dir"@),
            layout.nodes(),
            replies,
            at,
        ) matches Outcome::Gives(setup, _) ==> phases_of(
            case,
            root,
            layout,
            container,
            setup,
        ).representable(),
{
    let run_dir = joined_path(root, "run-dir"@);
    let urls = UrlsView {
        run_dir,
        sequencer_db: container.connection_string(SEQUENCER_DB@),
        mock_da: local_url(MOCK_DA_PORT),
    };
    match prepared(case, builder, container, run_dir, layout.nodes(), replies, at) {
        Outcome::Gives(setup, _) => {
            let n1 = at + 1;
            every_node_runs_every_version(case, builder, replies, n1);
            match case.node_versions(builder, replies, n1) {
                Outcome::Gives(built, n2) => {
                    interpolation_changes_config_paths_only(urls, built, replies, n2);
                    match all_interpolated(urls, built, seq![], replies, n2) {
                        Outcome::Gives(versions, n3) => {
                            soak_follows_versions(case, builder, replies, n3);
                            assert forall|n: int|
                                0 <= n < versions.len() implies stop_representable(
                                #[trigger] versions[n],
                                case.extra_blocks_after_resync,
                            ) by {
                                assert(same_but_config(versions[n], built[n]));
                                assert(runs_versions(built[n], case.versions));
                                let last = case.versions.len() - 1;
                                assert(versions[n][last].stop_height
                                    == built[n][last].stop_height);
                            }
                            if let Some(soak) = setup.soak {
                                let count = case.versions.len();
                                let workers = soak.config.num_workers;
                                if workers > 0 {
                                    assert(count <= count * workers) by (nonlinear_arith)
                                        requires
                                            workers >= 1,
                                    ;
                                }
                                assert(workers * (count as u32) == count * workers) by {
                                    if workers > 0 {
                                        assert(workers * count == count * workers)
                                            by (nonlinear_arith);
                                    } else {
                                        assert(0 * (count as u32) == 0 && count * 0 == 0)
                                            by (nonlinear_arith);
                                    }
                                }
                            }
                        },
                        _ => {},
                    }
                },
                _ => {},
            }
        },
        _ => {},
    }
}

/// A test is over: what is left of its processes is asked to terminate, and the container is
/// cleaned up, with a second attempt where the first one fails.
pub open spec fn wound_up(
    container: ContainerView,
    registry: Seq<(Seq<char>, u32)>,
    error: Option<TestCaseError<Seq<char>>>,
    replies: Seq<HostReply>,
    at: nat,
) -> Outcome<(), TestCaseError<Seq<char>>> {
    if !done_at(replies, at) {
        Outcome::Asks(HostCallView::Terminate { pids: registered_pids(registry) }, at)
    } else {
        let cleaned = match container.cleaned(replies, at + 1) {
            Outcome::Asks(call, stop) => Err((call, stop)),
            Outcome::Gives(_, next) => Ok(next),
            Outcome::Fails(_, failed) => container.let_go(replies, failed),
        };
        match cleaned {
            Err((call, stop)) => Outcome::Asks(call, stop),
            Ok(next) => match error {
                Some(e) => Outcome::Fails(e, next),
                None => Outcome::Gives((), next),
            },
        }
    }
}

/// The phases run to their end, or until the user interrupts them: all processes are then asked to
/// terminate and get time for that.
pub open spec fn phases_seen_through(
    phases: PhasesView,
    registry: Seq<(Seq<char>, u32)>,
    replies: Seq<HostReply>,
    at: nat,
) -> Outcome<(), TestCaseError<Seq<char>>> {
    let after = phases.registry_after(registry, replies, at);
    match phases.run(registry, replies, at) {
        Outcome::Gives(_, next) => wound_up(phases.container, after, None, replies, next),
        Outcome::Fails(e, next) => wound_up(phases.container, after, Some(e), replies, next),
        Outcome::Asks(call, stop) => if !interrupted_at(replies, stop) {
            Outcome::Asks(call, stop)
        } else if !done_at(replies, stop + 1) {
            Outcome::Asks(HostCallView::Terminate { pids: registered_pids(after) }, stop + 1)
        } else if !done_at(replies, stop + 2) {
            Outcome::Asks(HostCallView::Sleep { millis: SHUTDOWN_GRACE_MILLIS }, stop + 2)
        } else {
            wound_up(
                phases.container,
                after,
                Some(TestCaseError::Interrupted),
                replies,
                stop + 3,
            )
        },
    }
}

fn wind_up(
    container: PostgresDockerContainer,
    registry: &ProcessRegistry,
    result: Result<(), TestCaseError>,
    journal: &mut Journal,
) -> (r: Result<(), Stop<TestCaseError>>)
    requires
        !container.cleaned_up,
    ensures
        outcome(r, *final(journal)) == wound_up(
            container.deep_view(),
            registry.deep_view(),
            match result {
                Ok(()) => None,
                Err(e) => Some(e.deep_view()),
            },
            old(journal).replies@,
            old(journal).next as nat,
        ),
        final(journal).replies == old(journal).replies,
{
    let mut container = container;
    journal.ask_done(HostCall::Terminate { pids: registry.terminate_all() })?;
    if let Err(Stop::Ask(call)) = container.cleanup(journal) {
        return Err(Stop::Ask(call));
    }
    if let Err(call) = container.dispose(journal) {
        return Err(Stop::Ask(call));
    }
    match result {
        Ok(()) => Ok(()),
        Err(e) => Err(Stop::Fail(e)),
    }
}

fn see_phases_through(
    phases: &Phases,
    container: PostgresDockerContainer,
    registry: ProcessRegistry,
    journal: &mut Journal,
) -> (r: Result<(), Stop<TestCaseError>>)
    requires
        !container.cleaned_up,
        phases.with_container(container.deep_view()).representable(),
    ensures
        outcome(r, *final(journal)) == phases_seen_through(
            phases.with_container(container.deep_view()),
            registry.deep_view(),
            old(journal).replies@,
            old(journal).next as nat,
        ),
        final(journal).replies == old(journal).replies,
{
    let mut registry = registry;
    let result = match run_test_phases(phases, &container, &mut registry, journal) {
        Ok(()) => Ok(()),
        Err(Stop::Fail(e)) => Err(e),
        Err(Stop::Ask(call)) => {
            if !journal.take_interruption() {
                return Err(Stop::Ask(call));
            }
            journal.ask_done(HostCall::Terminate { pids: registry.terminate_all() })?;
            journal.ask_done(HostCall::Sleep { millis: SHUTDOWN_GRACE_MILLIS })?;
            Err(TestCaseError::Interrupted)
        },
    };
    wind_up(container, &registry, result, journal)
}

/// The run directory is there and empty.
pub open spec fn run_dir_created(run_dir: Seq<char>, replies: Seq<HostReply>, at: nat) -> Outcome<
    (),
    TestCaseError<Seq<char>>,
> {
    let removed = match flag_at(replies, at) {
        None => Outcome::Asks(HostCallView::PathExists { path: run_dir }, at),
        Some(false) => Outcome::Gives((), at + 1),
        Some(true) => match status_at(replies, at + 1) {
            None => Outcome::Asks(HostCallView::RemoveDirAll { path: run_dir }, at + 1),
            Some(Err(m)) => Outcome::Fails(TestCaseError::ClearRunDir(run_dir, m@), at + 2),
            Some(Ok(())) => Outcome::Gives((), at + 2),
        },
    };
    match removed {
        Outcome::Gives(_, next) => match status_at(replies, next) {
            None => Outcome::Asks(HostCallView::CreateDirAll { path: run_dir }, next),
            Some(Err(m)) => Outcome::Fails(TestCaseError::CreateRunDir(run_dir, m@), next + 1),
            Some(Ok(())) => Outcome::Gives((), next + 1),
        },
        stopped => stopped,
    }
}

fn create_run_dir(run_dir: &String, journal: &mut Journal) -> (r: Result<(), Stop<TestCaseError>>)
    ensures
        outcome(r, *final(journal)) == run_dir_created(
            run_dir@,
            old(journal).replies@,
            old(journal).next as nat,
        ),
        final(journal).replies == old(journal).replies,
{
    if journal.ask_flag(HostCall::PathExists { path: run_dir.clone() })? {
        match journal.ask_status(HostCall::RemoveDirAll { path: run_dir.clone() })? {
            Ok(()) => {},
            Err(m) => {
                return Err(Stop::Fail(TestCaseError::ClearRunDir(run_dir.clone(), m)));
            },
        }
    }
    match journal.ask_status(HostCall::CreateDirAll { path: run_dir.clone() })? {
        Ok(()) => Ok(()),
        Err(m) => Err(Stop::Fail(TestCaseError::CreateRunDir(run_dir.clone(), m))),
    }
}

/// The directory of a test case, resolved.
pub open spec fn root_resolved(path: Seq<char>, replies: Seq<HostReply>, at: nat) -> Outcome<
    Seq<char>,
    TestCaseError<Seq<char>>,
> {
    match text_at(replies, at) {
        None => Outcome::Asks(HostCallView::Canonicalize { path }, at),
        Some(Err(m)) => Outcome::Fails(TestCaseError::InvalidTestCaseRoot(path, m@), at + 1),
        Some(Ok(root)) => Outcome::Gives(root@, at + 1),
    }
}

/// A test case that has its container is prepared and seen through; where it cannot be prepared,
/// the container is let go of.
pub open spec fn run_in_container(
    case: TestCaseView,
    builder: RollupBuilder,
    root: Seq<char>,
    layout: LayoutView,
    container: ContainerView,
    replies: Seq<HostReply>,
    at: nat,
) -> Outcome<(), TestCaseError<Seq<char>>> {
    match prepared(
        case,
        builder,
        container,
        joined_path(root, "run-dir"@),
        layout.nodes(),
        replies,
        at,
    ) {
        Outcome::Asks(call, stop) => Outcome::Asks(call, stop),
        Outcome::Fails(e, failed) => match container.let_go(replies, failed) {
            Err((call, stop)) => Outcome::Asks(call, stop),
            Ok(next) => Outcome::Fails(e, next),
        },
        Outcome::Gives(setup, next) => phases_seen_through(
            phases_of(case, root, layout, container, setup),
            setup.registry,
            replies,
            next,
        ),
    }
}

/// A test case is run.
pub open spec fn test_case_run(
    builder: RollupBuilder,
    test_root: Seq<char>,
    case: TestCaseView,
    password: Seq<char>,
    replies: Seq<HostReply>,
    at: nat,
) -> Outcome<(), TestCaseError<Seq<char>>> {
    match root_resolved(joined_path(test_root, case.name), replies, at) {
        Outcome::Asks(call, stop) => Outcome::Asks(call, stop),
        Outcome::Fails(e, next) => Outcome::Fails(e, next),
        Outcome::Gives(root, n1) => match layout_detected(
            root,
            case.versions.len(),
            replies,
            n1,
        ) {
            Outcome::Asks(call, stop) => Outcome::Asks(call, stop),
            Outcome::Fails(e, next) => Outcome::Fails(e, next),
            Outcome::Gives(layout, n2) => match run_dir_created(
                joined_path(root, "run-dir"@),
                replies,
                n2,
            ) {
                Outcome::Asks(call, stop) => Outcome::Asks(call, stop),
                Outcome::Fails(e, next) => Outcome::Fails(e, next),
                Outcome::Gives(_, n3) => match container_started(password, replies, n3) {
                    Outcome::Asks(call, stop) => Outcome::Asks(call, stop),
                    Outcome::Fails(e, next) => Outcome::Fails(TestCaseError::Docker(e), next),
                    Outcome::Gives(container, n4) => run_in_container(
                        case,
                        builder,
                        root,
                        layout,
                        container,
                        replies,
                        n4,
                    ),
                },
            },
        },
    }
}

fn run_with_container(
    test_case: &TestCase,
    builder: &RollupBuilder,
    root: &String,
    layout: TestNodeLayout,
    container: PostgresDockerContainer,
    journal: &mut Journal,
) -> (r: Result<(), Stop<TestCaseError>>)
    requires
        test_case.versions@.len() > 0,
        test_case.deep_view().runnable(),
        !container.cleaned_up,
    ensures
        outcome(r, *final(journal)) == run_in_container(
            test_case.deep_view(),
            *builder,
            root@,
            layout.deep_view(),
            container.deep_view(),
            old(journal).replies@,
            old(journal).next as nat,
        ),
        final(journal).replies == old(journal).replies,
{
    let ghost replies = journal.replies@;
    let ghost case = test_case.deep_view();
    let ghost view = container.deep_view();
    let run_dir = join_path(root, "run-dir");
    let setup = match prepare(test_case, builder, &container, &run_dir, &layout, journal) {
        Ok(setup) => setup,
        Err(Stop::Ask(call)) => {
            return Err(Stop::Ask(call));
        },
        Err(Stop::Fail(e)) => {
            return match container.dispose(journal) {
                Ok(()) => Err(Stop::Fail(e)),
                Err(call) => Err(Stop::Ask(call)),
            };
        },
    };
    proof {
        prepared_phases_representable(
            case,
            *builder,
            root@,
            layout.deep_view(),
            view,
            replies,
            old(journal).next as nat,
        );
    }
    let genesis_path = join_path(root, "genesis.json");
    let mut extra_args = no_args();
    push_arg(&mut extra_args, "--genesis-path");
    push_arg(&mut extra_args, genesis_path.as_str());
    let ghost layout_view = layout.deep_view();
    let phases = Phases {
        node_names: list_node_names(setup.versions.nodes.len()),
        manager_binary: setup.manager_binary,
        versions: setup.versions,
        extra_args,
        run_dir,
        soak_config: setup.soak_config,
        master_api_url: local_url_text(layout.master.http_port),
        layout,
        extra_blocks: test_case.extra_blocks_after_resync,
    };
    assert(phases.versions.nodes@.len() == phases.versions.deep_view().len());
    assert(phases.with_container(view) =~= phases_of(
        case,
        root@,
        layout_view,
        view,
        setup.deep_view(),
    ));
    see_phases_through(&phases, container, setup.registry, journal)
}

/// Run a test case through the rollup manager.
///
/// The config directory is derived as `{test_root}/{test_case.name}`.
/// A temporary run directory is created for rollup state and DA data.
///
/// After a successful initial run, the storage directory is cleared and the test
/// is re-run to verify resync functionality (replaying from DA data).
///
/// A postgres docker container is automatically started, with the given password, and cleaned up.
///
/// If soak testing is configured, transaction load is generated alongside
/// the rollup during the test.
///
/// An interruption while the phases run is handled gracefully by:
/// 1. Sending SIGTERM to all spawned processes
/// 2. Waiting for graceful shutdown
/// 3. Cleaning up the Docker container
pub fn run_test_case(
    cache_dir: &String,
    test_root: &String,
    test_case: &TestCase,
    password: &String,
    journal: &mut Journal,
) -> (r: Result<(), Stop<TestCaseError>>)
    requires
        test_case.deep_view().runnable(),
    ensures
        outcome(r, *final(journal)) == test_case_run(
            (RollupBuilder { cache_dir: *cache_dir, repo_url: test_case.repo_url }),
            test_root@,
            test_case.deep_view(),
            password@,
            old(journal).replies@,
            old(journal).next as nat,
        ),
        final(journal).replies == old(journal).replies,
{
    let builder = RollupBuilder::with_repo_url(cache_dir.clone(), test_case.repo_url.clone());
    let path = join_path(test_root, test_case.name.as_str());
    let root = match journal.ask_text(HostCall::Canonicalize { path: path.clone() })? {
        Ok(root) => root,
        Err(m) => {
            return Err(Stop::Fail(TestCaseError::InvalidTestCaseRoot(path, m)));
        },
    };
    let layout = detect_node_layout(root.as_str(), test_case.versions.len(), journal)?;
    let run_dir = join_path(root.as_str(), "run-dir");
    create_run_dir(&run_dir, journal)?;
    let container = match PostgresDockerContainer::start(password.clone(), journal) {
        Ok(container) => container,
        Err(Stop::Ask(call)) => {
            return Err(Stop::Ask(call));
        },
        Err(Stop::Fail(e)) => {
            return Err(Stop::Fail(TestCaseError::Docker(e)));
        },
    };
    run_with_container(test_case, &builder, &root, layout, container, journal)
}

proof fn connection_string_is_plain(password: Seq<char>)
    requires
        forall|i: int| 0 <= i < password.len() ==> alphanumeric(#[trigger] password[i]),
    ensures
        ({
            let url = fresh_container(password).connection_string(SEQUENCER_DB@);
            &&& !url.contains('{') && !url.contains('}')
            &&& url.len() > 10 && url[10] == ':'
        }),
{
    reveal_strlit("postgresql://postgres:");
    reveal_strlit("@localhost:");
    reveal_strlit("/");
    reveal_strlit("sequencer");
    decimal_reads_back(CONTAINER_PORT as nat);
    let port = decimal(CONTAINER_PORT as nat);
    let head = "postgresql://postgres:"@;
    let url = fresh_container(password).connection_string(SEQUENCER_DB@);
    assert(url[10] == head[10]);
    assert forall|i: int| 0 <= i < url.len() implies #[trigger] url[i] != '{' && url[i] != '}' by {
        let a = head.len() as int;
        let b = a + password.len();
        let c = b + "@localhost:"@.len();
        let d = c + port.len();
        if i < a {
            assert(url[i] == head[i]);
        } else if i < b {
            assert(url[i] == password[i - a]);
        } else if i < c {
            assert(url[i] == "@localhost:"@[i - b]);
        } else if i < d {
            assert(url[i] == port[i - c]);
        } else if i < d + 1 {
            assert(url[i] == '/');
        } else {
            assert(url[i] == SEQUENCER_DB@[i - d - 1]);
        }
    }
}

proof fn local_url_is_plain(port: u16)
    ensures
        !local_url(port).contains('{'),
        !local_url(port).contains('}'),
        local_url(port).len() > 4,
        local_url(port)[4] == ':',
{
    reveal_strlit("http://localhost:");
    decimal_reads_back(port as nat);
    let head = "http://localhost:"@;
    let url = local_url(port);
    assert(url[4] == head[4]);
    assert forall|i: int| 0 <= i < url.len() implies #[trigger] url[i] != '{' && url[i] != '}' by {
        if i < head.len() {
            assert(url[i] == head[i]);
        } else {
            assert(url[i] == decimal(port as nat)[i - head.len()]);
        }
    }
}

proof fn placeholder_shape()
    ensures
        "{postgres_connection_string}"@.len() > 0,
        "{postgres_connection_string}"@[0] == '{',
        "{postgres_connection_string}"@.last() == '}',
        !"{postgres_connection_string}"@.contains(':'),
        "{mock_da_url}"@.len() > 0,
        "{mock_da_url}"@[0] == '{',
        "{mock_da_url}"@.last() == '}',
        !"{mock_da_url}"@.contains(':'),
{
    reveal_strlit("{postgres_connection_string}");
    reveal_strlit("{mock_da_url}");
}

/// No placeholder is left in a config file once the connection strings of a run are filled in,
/// whatever the file holds and whichever letters and digits the password is made of.
pub proof fn no_placeholder_survives(content: Seq<char>, password: Seq<char>, port: u16)
    requires
        forall|i: int| 0 <= i < password.len() ==> alphanumeric(#[trigger] password[i]),
    ensures
        ({
            let db = fresh_container(password).connection_string(SEQUENCER_DB@);
            let text = interpolated(content, db, local_url(port));
            &&& !occurs(text, "{postgres_connection_string}"@)
            &&& !occurs(text, "{mock_da_url}"@)
        }),
{
    let db = fresh_container(password).connection_string(SEQUENCER_DB@);
    let da = local_url(port);
    let p1 = "{postgres_connection_string}"@;
    let p2 = "{mock_da_url}"@;
    connection_string_is_plain(password);
    local_url_is_plain(port);
    placeholder_shape();
    let with_db = replaced(content, p1, db);
    assert(!p1.contains(db[10]));
    replaced_leaves_none(content, p1, db, p1);
    assert(!p1.contains(da[4]) && !p2.contains(da[4]));
    replaced_leaves_none(with_db, p2, da, p1);
    replaced_leaves_none(with_db, p2, da, p2);
}

/// A failure of the nodes is the result of a run, whatever comes of the soak test.
pub proof fn nodes_decide_before_soak(
    nodes: NodesView,
    soak: SoakManagerView,
    api_url: Seq<char>,
    registry: Seq<(Seq<char>, u32)>,
    replies: Seq<HostReply>,
    at: nat,
)
    requires
        done_at(replies, at),
    ensures
        nodes.run(true, registry, replies, at + 1) matches Outcome::Fails(e, _) ==> match run_soaked(
            nodes,
            Some(soak),
            api_url,
            registry,
            replies,
            at,
        ) {
            Outcome::Asks(call, _) => call is AwaitSoak,
            Outcome::Fails(error, _) => error == e,
            Outcome::Gives(_, _) => false,
        },
{
}

/// Nodes with a soak test alongside have run successfully only where they have succeeded
/// themselves and the soak test has not failed.
pub proof fn soak_failure_fails_the_run(
    nodes: NodesView,
    soak: SoakManagerView,
    api_url: Seq<char>,
    registry: Seq<(Seq<char>, u32)>,
    replies: Seq<HostReply>,
    at: nat,
)
    ensures
        run_soaked(nodes, Some(soak), api_url, registry, replies, at) matches Outcome::Gives(_, next)
            ==> {
            &&& next > 0
            &&& nodes.run(true, registry, replies, at + 1) matches Outcome::Gives(_, over) && over
                == next - 1
            &&& soak_end_at(replies, (next - 1) as nat) matches Some(end) && end !is Failed
        },
{
}

/// However a test case comes to its end once it has its container, in success, in failure or by an
/// interruption: the last thing that is done is to stop and remove the container.
pub proof fn container_is_always_cleaned_up(
    case: TestCaseView,
    builder: RollupBuilder,
    root: Seq<char>,
    layout: LayoutView,
    container: ContainerView,
    replies: Seq<HostReply>,
    at: nat,
)
    requires
        !container.cleaned_up,
    ensures
        match run_in_container(case, builder, root, layout, container, replies, at) {
            Outcome::Asks(_, _) => true,
            Outcome::Fails(_, next) => container.is_let_go_at_end(replies, next),
            Outcome::Gives(_, next) => container.is_let_go_at_end(replies, next),
        },
{
    let run_dir = joined_path(root, "run-dir"@);
    match prepared(case, builder, container, run_dir, layout.nodes(), replies, at) {
        Outcome::Asks(_, _) => {},
        Outcome::Fails(_, _) => {},
        Outcome::Gives(setup, next) => {
            let phases = phases_of(case, root, layout, container, setup);
            winding_up_cleans(phases, setup.registry, replies, next);
        },
    }
}

proof fn winding_up_cleans(
    phases: PhasesView,
    registry: Seq<(Seq<char>, u32)>,
    replies: Seq<HostReply>,
    at: nat,
)
    requires
        !phases.container.cleaned_up,
    ensures
        match phases_seen_through(phases, registry, replies, at) {
            Outcome::Asks(_, _) => true,
            Outcome::Fails(_, next) => phases.container.is_let_go_at_end(replies, next),
            Outcome::Gives(_, next) => phases.container.is_let_go_at_end(replies, next),
        },
{
    let container = phases.container;
    let after = phases.registry_after(registry, replies, at);
    match phases.run(registry, replies, at) {
        Outcome::Gives(_, next) => wound_up_cleans(container, after, None, replies, next),
        Outcome::Fails(e, next) => wound_up_cleans(container, after, Some(e), replies, next),
        Outcome::Asks(_, stop) => {
            let interrupted = Some(TestCaseError::Interrupted);
            wound_up_cleans(container, after, interrupted, replies, stop + 3);
        },
    }
}

proof fn wound_up_cleans(
    container: ContainerView,
    registry: Seq<(Seq<char>, u32)>,
    error: Option<TestCaseError<Seq<char>>>,
    replies: Seq<HostReply>,
    at: nat,
)
    requires
        !container.cleaned_up,
    ensures
        match wound_up(container, registry, error, replies, at) {
            Outcome::Asks(_, _) => true,
            Outcome::Fails(e, next) => error == Some(e) && container.is_let_go_at_end(replies, next),
            Outcome::Gives(_, next) => error is None && container.is_let_go_at_end(replies, next),
        },
{
}

/// A test case that succeeds has been through both phases: the initial run and the resync have
/// succeeded.
pub proof fn success_means_both_phases(
    phases: PhasesView,
    registry: Seq<(Seq<char>, u32)>,
    replies: Seq<HostReply>,
    at: nat,
)
    requires
        !phases.container.cleaned_up,
        phases_seen_through(phases, registry, replies, at) is Gives,
    ensures
        phases.initial(registry, replies, at) is Gives,
        phases.run(registry, replies, at) is Gives,
{
    let after = phases.registry_after(registry, replies, at);
    match phases.run(registry, replies, at) {
        Outcome::Fails(e, next) => {
            wound_up_cleans(phases.container, after, Some(e), replies, next);
        },
        Outcome::Asks(_, stop) => {
            let interrupted = Some(TestCaseError::Interrupted);
            wound_up_cleans(phases.container, after, interrupted, replies, stop + 3);
        },
        Outcome::Gives(_, _) => {},
    }
}

} // verus!

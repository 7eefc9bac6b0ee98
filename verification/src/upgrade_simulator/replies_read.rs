//! What a step of a test case gives depends on nothing but the replies that it has read.
use vstd::prelude::*;

use crate::build_cache::{obtained_from_cache, obtained_from_the_replies_read};
use crate::config::VersionView;
use crate::journal::{HostReply, Outcome};
use crate::path::joined_path;
use crate::soak_manager::SoakManagerView;
use crate::upgrade_simulator::builder::{
    mock_da_build, rollup_build, soak_build, BinaryView, RollupBuilder,
};
use crate::upgrade_simulator::docker::{
    container_started, fresh_container, ContainerView, MOCK_DA_DB, READY_TIMEOUT_SECS, SEQUENCER_DB,
};
use crate::upgrade_simulator::node_config::{
    configs_found, fields_extracted, layout_detected, mode_detected, node_built, node_config_paths,
    nodes_built, nodes_detected, replicas_counted, replication_detected, type_of_node,
    version_checked, version_dir, versions_agree, versions_checked, NodeType, NodeView,
};
use crate::upgrade_simulator::node_runner::{
    manager_binary_built, name_of_node, node_spawned, nodes_awaited, nodes_spawned, registered_pids,
    with_processes, NodesView,
};
use crate::upgrade_simulator::run::{
    all_interpolated, all_storage_cleared, config_interpolated, local_url, mock_da_ready,
    node_interpolated, prepared, run_soaked, storage_cleared, MOCK_DA_PORT, UrlsView,
};
use crate::upgrade_simulator::test_case::{
    all_versions_built, binary_resolved, node_version_built, node_versions_built,
    soak_versions_built, TestCaseView, VersionSpec,
};

verus! {

/// Whether a step that has come to a good end, `whole`, having read some of the replies from `at`
/// on, comes to the same end, `part`, where it is told of those replies alone.
pub open spec fn settled<T, E>(
    whole: Outcome<T, E>,
    part: Outcome<T, E>,
    at: nat,
    known: nat,
) -> bool {
    whole matches Outcome::Gives(_, next) ==> at <= next && (next <= known ==> part == whole)
}

pub(crate) proof fn spawning_settles(
    nodes: NodesView,
    done: Seq<(Seq<char>, Option<u32>)>,
    replies: Seq<HostReply>,
    at: nat,
    known: nat,
)
    requires
        known <= replies.len(),
    ensures
        settled(
            nodes_spawned(
                nodes.manager_binary,
                nodes.versions,
                nodes.names,
                nodes.extra_args,
                nodes.run_dir,
                done,
                replies,
                at,
            ),
            nodes_spawned(
                nodes.manager_binary,
                nodes.versions,
                nodes.names,
                nodes.extra_args,
                nodes.run_dir,
                done,
                replies.take(known as int),
                at,
            ),
            at,
            known,
        ),
    decreases nodes.versions.len() - done.len(),
{
    if done.len() < nodes.versions.len() {
        let name = name_of_node(nodes.names, done.len());
        match node_spawned(
            nodes.manager_binary,
            name,
            done.len(),
            nodes.versions[done.len() as int],
            nodes.extra_args,
            nodes.run_dir,
            replies,
            at,
        ) {
            Outcome::Gives(pid, next) => {
                spawning_settles(nodes, done.push((name, pid)), replies, next, known);
            },
            _ => {},
        }
    }
}

pub(crate) proof fn awaiting_settles(pids: Seq<u32>, replies: Seq<HostReply>, at: nat, known: nat)
    requires
        known <= replies.len(),
    ensures
        settled(
            nodes_awaited(pids, replies, at),
            nodes_awaited(pids, replies.take(known as int), at),
            at,
            known,
        ),
    decreases replies.len() - at,
{
    if at < replies.len() {
        awaiting_settles(pids, replies, at + 1, known);
    }
}

pub(crate) proof fn nodes_settle(
    nodes: NodesView,
    notify_soak: bool,
    registry: Seq<(Seq<char>, u32)>,
    replies: Seq<HostReply>,
    at: nat,
    known: nat,
)
    requires
        known <= replies.len(),
    ensures
        settled(
            nodes.run(notify_soak, registry, replies, at),
            nodes.run(notify_soak, registry, replies.take(known as int), at),
            at,
            known,
        ),
{
    spawning_settles(nodes, seq![], replies, at, known);
    match nodes.spawned(replies, at) {
        Outcome::Gives(processes, started) => {
            let pids = registered_pids(with_processes(registry, processes));
            awaiting_settles(pids, replies, started, known);
        },
        _ => {},
    }
}

pub(crate) proof fn run_settles(
    nodes: NodesView,
    soak: Option<SoakManagerView>,
    api_url: Seq<char>,
    registry: Seq<(Seq<char>, u32)>,
    replies: Seq<HostReply>,
    at: nat,
    known: nat,
)
    requires
        known <= replies.len(),
    ensures
        settled(
            run_soaked(nodes, soak, api_url, registry, replies, at),
            run_soaked(nodes, soak, api_url, registry, replies.take(known as int), at),
            at,
            known,
        ),
{
    nodes_settle(nodes, false, registry, replies, at, known);
    nodes_settle(nodes, true, registry, replies, at + 1, known);
}

pub(crate) proof fn clearing_settles(
    run_dir: Seq<char>,
    nodes: Seq<NodeView>,
    replies: Seq<HostReply>,
    at: nat,
    known: nat,
)
    requires
        known <= replies.len(),
    ensures
        settled(
            all_storage_cleared(run_dir, nodes, replies, at),
            all_storage_cleared(run_dir, nodes, replies.take(known as int), at),
            at,
            known,
        ),
    decreases nodes.len(),
{
    if nodes.len() > 0 {
        match storage_cleared(joined_path(run_dir, nodes[0].storage_path), replies, at) {
            Outcome::Gives(_, next) => {
                clearing_settles(run_dir, nodes.skip(1), replies, next, known);
            },
            _ => {},
        }
    }
}

pub(crate) proof fn binary_settles(
    builder: RollupBuilder,
    commit: Seq<char>,
    build: BinaryView,
    replies: Seq<HostReply>,
    at: nat,
    known: nat,
)
    requires
        known <= replies.len(),
    ensures
        settled(
            builder.binary(commit, build, replies, at),
            builder.binary(commit, build, replies.take(known as int), at),
            at,
            known,
        ),
{
    let dir = builder.cache_dir@;
    let url = builder.repo_url@;
    obtained_from_cache(dir, url, commit, build.name, build.args, build.bin, replies, at);
    match builder.binary(commit, build, replies, at) {
        Outcome::Gives(_, next) if next <= known => {
            obtained_from_the_replies_read(
                dir,
                url,
                commit,
                build.name,
                build.args,
                build.bin,
                replies,
                at,
                known,
            );
        },
        _ => {},
    }
}

pub(crate) proof fn version_settles(
    builder: RollupBuilder,
    spec: VersionSpec,
    version: nat,
    config: Seq<char>,
    replies: Seq<HostReply>,
    at: nat,
    known: nat,
)
    requires
        known <= replies.len(),
    ensures
        settled(
            node_version_built(builder, spec, version, config, replies, at),
            node_version_built(builder, spec, version, config, replies.take(known as int), at),
            at,
            known,
        ),
{
    binary_settles(builder, spec.commit@, rollup_build(), replies, at, known);
}

pub(crate) proof fn versions_settle(
    builder: RollupBuilder,
    specs: Seq<VersionSpec>,
    configs: Seq<Seq<char>>,
    done: Seq<VersionView>,
    replies: Seq<HostReply>,
    at: nat,
    known: nat,
)
    requires
        known <= replies.len(),
    ensures
        settled(
            node_versions_built(builder, specs, configs, done, replies, at),
            node_versions_built(builder, specs, configs, done, replies.take(known as int), at),
            at,
            known,
        ),
    decreases specs.len() - done.len(),
{
    if done.len() < specs.len() {
        let i = done.len() as int;
        version_settles(builder, specs[i], done.len(), configs[i], replies, at, known);
        match node_version_built(builder, specs[i], done.len(), configs[i], replies, at) {
            Outcome::Gives(version, next) => {
                versions_settle(builder, specs, configs, done.push(version), replies, next, known);
            },
            _ => {},
        }
    }
}

pub(crate) proof fn all_versions_settle(
    builder: RollupBuilder,
    specs: Seq<VersionSpec>,
    nodes: Seq<NodeView>,
    done: Seq<Seq<VersionView>>,
    replies: Seq<HostReply>,
    at: nat,
    known: nat,
)
    requires
        known <= replies.len(),
    ensures
        settled(
            all_versions_built(builder, specs, nodes, done, replies, at),
            all_versions_built(builder, specs, nodes, done, replies.take(known as int), at),
            at,
            known,
        ),
    decreases nodes.len() - done.len(),
{
    if done.len() < nodes.len() {
        let configs = nodes[done.len() as int].config_paths;
        versions_settle(builder, specs, configs, seq![], replies, at, known);
        match node_versions_built(builder, specs, configs, seq![], replies, at) {
            Outcome::Gives(versions, next) => {
                all_versions_settle(
                    builder,
                    specs,
                    nodes,
                    done.push(versions),
                    replies,
                    next,
                    known,
                );
            },
            _ => {},
        }
    }
}

pub(crate) proof fn soak_versions_settle(
    builder: RollupBuilder,
    versions: Seq<VersionSpec>,
    done: Seq<(Seq<char>, u64)>,
    replies: Seq<HostReply>,
    at: nat,
    known: nat,
)
    requires
        known <= replies.len(),
    ensures
        settled(
            soak_versions_built(builder, versions, done, replies, at),
            soak_versions_built(builder, versions, done, replies.take(known as int), at),
            at,
            known,
        ),
    decreases versions.len(),
{
    if versions.len() > 0 {
        let commit = versions[0].commit@;
        binary_settles(builder, commit, soak_build(), replies, at, known);
        match binary_resolved(builder.binary(commit, soak_build(), replies, at), replies) {
            Outcome::Gives(binary, next) => {
                soak_versions_settle(
                    builder,
                    versions.skip(1),
                    done.push((binary, versions[0].stop_height)),
                    replies,
                    next,
                    known,
                );
            },
            _ => {},
        }
    }
}

pub(crate) proof fn soak_config_settles(
    case: TestCaseView,
    builder: RollupBuilder,
    replies: Seq<HostReply>,
    at: nat,
    known: nat,
)
    requires
        known <= replies.len(),
    ensures
        settled(
            case.soak_config_built(builder, replies, at),
            case.soak_config_built(builder, replies.take(known as int), at),
            at,
            known,
        ),
{
    soak_versions_settle(builder, case.versions, seq![], replies, at, known);
}

pub(crate) proof fn node_configs_settle(
    urls: UrlsView,
    versions: Seq<VersionView>,
    name: Seq<char>,
    done: Seq<VersionView>,
    replies: Seq<HostReply>,
    at: nat,
    known: nat,
)
    requires
        known <= replies.len(),
    ensures
        settled(
            node_interpolated(urls, versions, name, done, replies, at),
            node_interpolated(urls, versions, name, done, replies.take(known as int), at),
            at,
            known,
        ),
    decreases versions.len() - done.len(),
{
    if done.len() < versions.len() {
        let version = versions[done.len() as int];
        match config_interpolated(urls, version.config_path, name, done.len(), replies, at) {
            Outcome::Gives(config_path, next) => {
                let more = done.push(VersionView { config_path, ..version });
                node_configs_settle(urls, versions, name, more, replies, next, known);
            },
            _ => {},
        }
    }
}

pub(crate) proof fn all_configs_settle(
    urls: UrlsView,
    nodes: Seq<Seq<VersionView>>,
    done: Seq<Seq<VersionView>>,
    replies: Seq<HostReply>,
    at: nat,
    known: nat,
)
    requires
        known <= replies.len(),
    ensures
        settled(
            all_interpolated(urls, nodes, done, replies, at),
            all_interpolated(urls, nodes, done, replies.take(known as int), at),
            at,
            known,
        ),
    decreases nodes.len() - done.len(),
{
    if done.len() < nodes.len() {
        let versions = nodes[done.len() as int];
        let name = type_of_node(done.len()).name();
        node_configs_settle(urls, versions, name, seq![], replies, at, known);
        match node_interpolated(urls, versions, name, seq![], replies, at) {
            Outcome::Gives(versions, next) => {
                all_configs_settle(urls, nodes, done.push(versions), replies, next, known);
            },
            _ => {},
        }
    }
}

pub(crate) proof fn mock_da_settles(
    case: TestCaseView,
    builder: RollupBuilder,
    container: ContainerView,
    replies: Seq<HostReply>,
    at: nat,
    known: nat,
)
    requires
        known <= replies.len(),
    ensures
        settled(
            mock_da_ready(case, builder, container, replies, at),
            mock_da_ready(case, builder, container, replies.take(known as int), at),
            at,
            known,
        ),
{
    binary_settles(builder, case.versions[0].commit@, mock_da_build(), replies, at, known);
}

pub(crate) proof fn preparation_settles(
    case: TestCaseView,
    builder: RollupBuilder,
    container: ContainerView,
    run_dir: Seq<char>,
    layout: Seq<NodeView>,
    replies: Seq<HostReply>,
    at: nat,
    known: nat,
)
    requires
        known <= replies.len(),
    ensures
        settled(
            prepared(case, builder, container, run_dir, layout, replies, at),
            prepared(case, builder, container, run_dir, layout, replies.take(known as int), at),
            at,
            known,
        ),
{
    let urls = UrlsView {
        run_dir,
        sequencer_db: container.connection_string(SEQUENCER_DB@),
        mock_da: local_url(MOCK_DA_PORT),
    };
    if let Outcome::Gives(_, n1) = manager_binary_built(replies, at) {
        all_versions_settle(builder, case.versions, case.nodes, seq![], replies, n1, known);
        if let Outcome::Gives(built, n2) = case.node_versions(builder, replies, n1) {
            all_configs_settle(urls, built, seq![], replies, n2, known);
            if let Outcome::Gives(_, n3) = all_interpolated(urls, built, seq![], replies, n2) {
                soak_config_settles(case, builder, replies, n3, known);
                if let Outcome::Gives(_, n4) = case.soak_config_built(builder, replies, n3) {
                    clearing_settles(run_dir, layout, replies, n4, known);
                    if let Outcome::Gives(_, n5) = all_storage_cleared(
                        run_dir,
                        layout,
                        replies,
                        n4,
                    ) {
                        mock_da_settles(case, builder, container, replies, n5, known);
                    }
                }
            }
        }
    }
}

pub(crate) proof fn statements_settle(
    container: ContainerView,
    statements: Seq<Seq<char>>,
    replies: Seq<HostReply>,
    at: nat,
    known: nat,
)
    requires
        known <= replies.len(),
    ensures
        settled(
            container.all_sql_executed(statements, replies, at),
            container.all_sql_executed(statements, replies.take(known as int), at),
            at,
            known,
        ),
    decreases statements.len(),
{
    if statements.len() > 0 {
        statements_settle(container, statements.skip(1), replies, at + 1, known);
    }
}

pub(crate) proof fn readiness_settles(
    container: ContainerView,
    timeout_secs: u64,
    replies: Seq<HostReply>,
    at: nat,
    known: nat,
)
    requires
        known <= replies.len(),
    ensures
        settled(
            container.became_ready(timeout_secs, replies, at),
            container.became_ready(timeout_secs, replies.take(known as int), at),
            at,
            known,
        ),
    decreases replies.len() - at,
{
    if at + 2 < replies.len() {
        readiness_settles(container, timeout_secs, replies, at + 3, known);
    }
}

pub(crate) proof fn container_settles(
    password: Seq<char>,
    replies: Seq<HostReply>,
    at: nat,
    known: nat,
)
    requires
        known <= replies.len(),
    ensures
        settled(
            container_started(password, replies, at),
            container_started(password, replies.take(known as int), at),
            at,
            known,
        ),
{
    let container = fresh_container(password);
    readiness_settles(container, READY_TIMEOUT_SECS, replies, at + 2, known);
    if let Outcome::Gives(_, next) = container.became_ready(READY_TIMEOUT_SECS, replies, at + 2) {
        let databases = seq![
            "CREATE DATABASE "@ + SEQUENCER_DB@,
            "CREATE DATABASE "@ + MOCK_DA_DB@,
        ];
        statements_settle(container, databases, replies, next, known);
    }
}

pub(crate) proof fn replica_count_settles(
    dir: Seq<char>,
    count: nat,
    replies: Seq<HostReply>,
    at: nat,
    known: nat,
)
    requires
        known <= replies.len(),
    ensures
        settled(
            replicas_counted(dir, count, replies, at),
            replicas_counted(dir, count, replies.take(known as int), at),
            at,
            known,
        ),
    decreases replies.len() - at,
{
    if at < replies.len() {
        replica_count_settles(dir, count + 1, replies, at + 1, known);
    }
}

pub(crate) proof fn mode_settles(
    dir: Seq<char>,
    simple_mode: Seq<char>,
    replies: Seq<HostReply>,
    at: nat,
    known: nat,
)
    requires
        known <= replies.len(),
    ensures
        settled(
            mode_detected(dir, simple_mode, replies, at),
            mode_detected(dir, simple_mode, replies.take(known as int), at),
            at,
            known,
        ),
{
    if let Outcome::Gives(_, found) = replication_detected(dir, replies, at) {
        replica_count_settles(dir, 0, replies, found, known);
    }
}

pub(crate) proof fn configs_settle(
    root: Seq<char>,
    version: nat,
    replication: bool,
    replicas: nat,
    node: nat,
    replies: Seq<HostReply>,
    at: nat,
    known: nat,
)
    requires
        known <= replies.len(),
    ensures
        settled(
            configs_found(root, version, replication, replicas, node, replies, at),
            configs_found(
                root,
                version,
                replication,
                replicas,
                node,
                replies.take(known as int),
                at,
            ),
            at,
            known,
        ),
    decreases replicas + 1 - node,
{
    if node <= replicas {
        configs_settle(root, version, replication, replicas, node + 1, replies, at + 1, known);
    }
}

pub(crate) proof fn version_check_settles(
    root: Seq<char>,
    version: nat,
    replication: bool,
    replicas: usize,
    replies: Seq<HostReply>,
    at: nat,
    known: nat,
)
    requires
        known <= replies.len(),
    ensures
        settled(
            version_checked(root, version, replication, replicas, replies, at),
            version_checked(root, version, replication, replicas, replies.take(known as int), at),
            at,
            known,
        ),
{
    configs_settle(root, version, replication, replicas as nat, 0, replies, at, known);
    if let Outcome::Gives(_, found) = configs_found(
        root,
        version,
        replication,
        replicas as nat,
        0,
        replies,
        at,
    ) {
        replica_count_settles(version_dir(root, version), 0, replies, found, known);
    }
}

pub(crate) proof fn version_checks_settle(
    root: Seq<char>,
    versions: nat,
    version: nat,
    replication: bool,
    replicas: usize,
    replies: Seq<HostReply>,
    at: nat,
    known: nat,
)
    requires
        known <= replies.len(),
    ensures
        settled(
            versions_checked(root, versions, version, replication, replicas, replies, at),
            versions_checked(
                root,
                versions,
                version,
                replication,
                replicas,
                replies.take(known as int),
                at,
            ),
            at,
            known,
        ),
    decreases versions - version,
{
    if version < versions {
        version_check_settles(root, version, replication, replicas, replies, at, known);
        if let Outcome::Gives(_, next) = version_checked(
            root,
            version,
            replication,
            replicas,
            replies,
            at,
        ) {
            version_checks_settle(
                root,
                versions,
                version + 1,
                replication,
                replicas,
                replies,
                next,
                known,
            );
        }
    }
}

pub(crate) proof fn agreement_settles(
    node_type: NodeType,
    paths: Seq<Seq<char>>,
    first: (u16, Seq<char>),
    version: nat,
    replies: Seq<HostReply>,
    at: nat,
    known: nat,
)
    requires
        known <= replies.len(),
    ensures
        settled(
            versions_agree(node_type, paths, first, version, replies, at),
            versions_agree(node_type, paths, first, version, replies.take(known as int), at),
            at,
            known,
        ),
    decreases paths.len() - version,
{
    if version < paths.len() {
        agreement_settles(node_type, paths, first, version + 1, replies, at + 1, known);
    }
}

pub(crate) proof fn node_settles(
    node_type: NodeType,
    paths: Seq<Seq<char>>,
    replies: Seq<HostReply>,
    at: nat,
    known: nat,
)
    requires
        known <= replies.len(),
    ensures
        settled(
            node_built(node_type, paths, replies, at),
            node_built(node_type, paths, replies.take(known as int), at),
            at,
            known,
        ),
{
    if let Outcome::Gives(first, read) = fields_extracted(paths[0], replies, at) {
        agreement_settles(node_type, paths, first, 1, replies, read, known);
    }
}

pub(crate) proof fn node_list_settles(
    root: Seq<char>,
    versions: nat,
    replication: bool,
    replicas: nat,
    done: Seq<NodeView>,
    replies: Seq<HostReply>,
    at: nat,
    known: nat,
)
    requires
        known <= replies.len(),
    ensures
        settled(
            nodes_built(root, versions, replication, replicas, done, replies, at),
            nodes_built(
                root,
                versions,
                replication,
                replicas,
                done,
                replies.take(known as int),
                at,
            ),
            at,
            known,
        ),
    decreases replicas + 1 - done.len(),
{
    if done.len() <= replicas {
        let node_type = type_of_node(done.len());
        let paths = node_config_paths(root, versions, replication, done.len());
        node_settles(node_type, paths, replies, at, known);
        if let Outcome::Gives(node, next) = node_built(node_type, paths, replies, at) {
            node_list_settles(
                root,
                versions,
                replication,
                replicas,
                done.push(node),
                replies,
                next,
                known,
            );
        }
    }
}

pub(crate) proof fn detection_settles(
    root: Seq<char>,
    versions: nat,
    simple_mode: Seq<char>,
    replies: Seq<HostReply>,
    at: nat,
    known: nat,
)
    requires
        known <= replies.len(),
    ensures
        settled(
            nodes_detected(root, versions, simple_mode, replies, at),
            nodes_detected(root, versions, simple_mode, replies.take(known as int), at),
            at,
            known,
        ),
{
    mode_settles(version_dir(root, 0), simple_mode, replies, at, known);
    if let Outcome::Gives((replication, replicas), n1) = mode_detected(
        version_dir(root, 0),
        simple_mode,
        replies,
        at,
    ) {
        version_checks_settle(root, versions, 0, replication, replicas, replies, n1, known);
        if let Outcome::Gives(_, n2) = versions_checked(
            root,
            versions,
            0,
            replication,
            replicas,
            replies,
            n1,
        ) {
            node_list_settles(
                root,
                versions,
                replication,
                replicas as nat,
                seq![],
                replies,
                n2,
                known,
            );
        }
    }
}

pub(crate) proof fn layout_settles(
    root: Seq<char>,
    versions: nat,
    replies: Seq<HostReply>,
    at: nat,
    known: nat,
)
    requires
        known <= replies.len(),
    ensures
        settled(
            layout_detected(root, versions, replies, at),
            layout_detected(root, versions, replies.take(known as int), at),
            at,
            known,
        ),
{
    detection_settles(root, versions, "legacy (config.toml)"@, replies, at, known);
}

} // verus!

//! What a failure says is so: it hands on what the host has replied.
use vstd::prelude::*;

use crate::build_cache::{built_binary, obtained, repo_dir, BuilderError};
use crate::config::{FileRead, VersionView};
use crate::journal::{
    command_at, config_write_at, flag_at, millis_at, rollup_fields_at, spawned_at, status_at,
    text_at, ConfigWrite, HostReply, Outcome,
};
use crate::path::{components, joined_path, parent};
use crate::process::{CommandOutcome, ExitStatus};
use crate::text::decimal;
use crate::upgrade_simulator::builder::{
    mock_da_build, rollup_build, soak_build, BinaryView, RollupBuilder,
};
use crate::upgrade_simulator::docker::{
    container_started, fresh_container, ContainerView, DockerError, MOCK_DA_DB, READY_TIMEOUT_SECS,
    SEQUENCER_DB,
};
use crate::upgrade_simulator::error::TestCaseError;
use crate::upgrade_simulator::layout_laws::config_file;
use crate::upgrade_simulator::node_config::{
    configs_found, fields_extracted, mode_detected, node_built, node_config_paths, nodes_built,
    nodes_detected, replicas_counted, replication_detected, type_of_node, version_checked,
    version_dir, versions_agree, versions_checked, NodeType, NodeView,
};
use crate::upgrade_simulator::node_runner::{
    manager_binary_built, name_of_node, node_spawned, nodes_spawned, NodesView,
};
use crate::upgrade_simulator::run::{
    all_interpolated, all_storage_cleared, config_interpolated, local_url, mock_da_ready,
    node_interpolated, prepared, storage_cleared, MOCK_DA_PORT, UrlsView,
};
use crate::upgrade_simulator::test_case::{
    all_versions_built, binary_resolved, node_version_built, node_versions_built,
    soak_versions_built, TestCaseView, VersionSpec,
};
use crate::version_laws::componentwise_equal;

verus! {

/// Whether the last reply before a position is that a command could not be started, with a message,
/// or has failed, with that as its error output.
pub open spec fn command_failed(replies: Seq<HostReply>, next: nat, message: Seq<char>) -> bool {
    next > 0 && match command_at(replies, (next - 1) as nat) {
        Some(CommandOutcome::NotStarted(m)) => message == m@,
        Some(CommandOutcome::Finished(output)) => output.status != ExitStatus::Exited(0) && message
            == output.stderr@,
        None => false,
    }
}

/// Whether the last reply before a position is that something has not worked, with a message.
pub open spec fn failed(replies: Seq<HostReply>, next: nat, message: Seq<char>) -> bool {
    next > 0 && (status_at(replies, (next - 1) as nat) matches Some(Err(m)) && m@ == message)
}

/// Whether the last reply before a position is that a text could not be had, with a message.
pub open spec fn no_text(replies: Seq<HostReply>, next: nat, message: Seq<char>) -> bool {
    next > 0 && (text_at(replies, (next - 1) as nat) matches Some(Err(m)) && m@ == message)
}

/// Whether a build's failure says what the last reply has said of the step that failed.
pub open spec fn build_says_why(
    e: BuilderError<Seq<char>>,
    cache_dir: Seq<char>,
    commit: Seq<char>,
    bin: Seq<char>,
    replies: Seq<HostReply>,
    next: nat,
) -> bool {
    match e {
        BuilderError::CreateCacheDir(m) => failed(replies, next, m),
        BuilderError::GitClone(m) => command_failed(replies, next, m),
        BuilderError::GitFetch(m) => command_failed(replies, next, m),
        BuilderError::GitCheckout { commit: c, message } => c == commit && command_failed(
            replies,
            next,
            message,
        ),
        BuilderError::CargoBuild(m) => command_failed(replies, next, m),
        BuilderError::CopyBinary(m) => failed(replies, next, m),
        BuilderError::BinaryNotFound(p) => p == built_binary(repo_dir(cache_dir), bin) && next > 0
            && flag_at(replies, (next - 1) as nat) == Some(false),
        BuilderError::TargetDisabled(_) => false,
    }
}

/// What a failure to obtain a binary says is so.
pub proof fn build_failure_says_why(
    cache_dir: Seq<char>,
    repo_url: Seq<char>,
    commit: Seq<char>,
    name: Seq<char>,
    args: Seq<Seq<char>>,
    bin: Seq<char>,
    replies: Seq<HostReply>,
    at: nat,
)
    ensures
        obtained(cache_dir, repo_url, commit, name, args, bin, replies, at) matches Outcome::Fails(
            e,
            next,
        ) ==> build_says_why(e, cache_dir, commit, bin, replies, next),
{
    reveal(obtained);
}

/// Whether the failure of a preparation says what the last replies have said.
pub open spec fn preparation_says_why(
    e: TestCaseError<Seq<char>>,
    replies: Seq<HostReply>,
    next: nat,
) -> bool {
    match e {
        TestCaseError::Build(b) => exists|dir: Seq<char>, commit: Seq<char>, bin: Seq<char>|
            build_says_why(b, dir, commit, bin, replies, next),
        TestCaseError::InvalidBinaryPath(_, m) => no_text(replies, next, m),
        TestCaseError::InvalidConfigPath(path, m) => no_text(replies, next, m) || (parent(
            path,
        ) is None && m == "config path has no parent directory"@),
        TestCaseError::AmbiguousMigrationFile { migration, migration_sh, .. } => {
            &&& next > 1
            &&& flag_at(replies, (next - 2) as nat) == Some(true)
            &&& flag_at(replies, (next - 1) as nat) == Some(true)
            &&& exists|dir: Seq<char>|
                migration == #[trigger] joined_path(dir, "migration"@) && migration_sh
                    == joined_path(dir, "migration.sh"@)
        },
        TestCaseError::InvalidMigrationPath { source, .. } => no_text(replies, next, source),
        TestCaseError::ReadConfig { source, .. } => no_text(replies, next, source),
        TestCaseError::WriteConfig { source, .. } => failed(replies, next, source),
        TestCaseError::ClearStorageDir(_, m) => failed(replies, next, m),
        TestCaseError::CreateStorageDir(_, m) => failed(replies, next, m),
        TestCaseError::MockDaSpawn(m) => next > 0 && (spawned_at(
            replies,
            (next - 1) as nat,
        ) matches Some(Err(s)) && s@ == m),
        TestCaseError::BuildManager(m) => next > 0 && (text_at(
            replies,
            (next - 1) as nat,
        ) matches Some(Err(s)) && m == "escargot build failed: "@ + s@),
        _ => false,
    }
}

/// Whether the failure to detect nodes says what the files have been found to be.
pub open spec fn detection_says_why(
    e: TestCaseError<Seq<char>>,
    root: Seq<char>,
    simple_mode: Seq<char>,
    replies: Seq<HostReply>,
    next: nat,
) -> bool {
    match e {
        TestCaseError::ConfigNotFound(path) => {
            &&& next > 0
            &&& flag_at(replies, (next - 1) as nat) == Some(false)
            &&& exists|version: int, replication: bool, node: int|
                path == #[trigger] config_file(root, version, replication, node)
        },
        TestCaseError::ConfigModeMismatch { version, mode, expected_mode } => version == 0 && mode
            == simple_mode && expected_mode
            == "replication (config_master.toml required with replicas)"@,
        TestCaseError::ReplicaCountMismatch { count, expected, .. } => count != expected,
        TestCaseError::ReadConfig { source, .. } => next > 0 && (rollup_fields_at(
            replies,
            (next - 1) as nat,
        ) matches Some(FileRead::Unreadable(m)) && m@ == source),
        TestCaseError::ParseConfig { source, .. } => next > 0 && (rollup_fields_at(
            replies,
            (next - 1) as nat,
        ) matches Some(FileRead::Malformed(m)) && m@ == source),
        TestCaseError::CrossVersionMismatch { field, v0_value, other_value, version, .. } => {
            &&& next > 0
            &&& version > 0
            &&& rollup_fields_at(replies, (next - 1) as nat) matches Some(FileRead::Parsed(
                fields,
            )) && {
                ||| field == "http_port"@ && other_value == decimal(fields.http_port as nat)
                    && exists|port: u16|
                    v0_value == #[trigger] decimal(port as nat) && port != fields.http_port
                ||| field == "storage_path"@ && other_value == fields.storage_path@
                    && !componentwise_equal(other_value, v0_value)
            }
        },
        _ => false,
    }
}

proof fn binary_says_why(
    builder: RollupBuilder,
    commit: Seq<char>,
    build: BinaryView,
    replies: Seq<HostReply>,
    at: nat,
)
    ensures
        binary_resolved(
            builder.binary(commit, build, replies, at),
            replies,
        ) matches Outcome::Fails(e, next) ==> preparation_says_why(e, replies, next),
{
    build_failure_says_why(
        builder.cache_dir@,
        builder.repo_url@,
        commit,
        build.name,
        build.args,
        build.bin,
        replies,
        at,
    );
    if let Outcome::Fails(e, next) = builder.binary(commit, build, replies, at) {
        assert(build_says_why(e, builder.cache_dir@, commit, build.bin, replies, next));
    }
}

proof fn version_says_why(
    builder: RollupBuilder,
    spec: VersionSpec,
    version: nat,
    config: Seq<char>,
    replies: Seq<HostReply>,
    at: nat,
)
    ensures
        node_version_built(
            builder,
            spec,
            version,
            config,
            replies,
            at,
        ) matches Outcome::Fails(e, next) ==> preparation_says_why(e, replies, next),
{
    binary_says_why(builder, spec.commit@, rollup_build(), replies, at);
}

proof fn versions_say_why(
    builder: RollupBuilder,
    specs: Seq<VersionSpec>,
    configs: Seq<Seq<char>>,
    done: Seq<VersionView>,
    replies: Seq<HostReply>,
    at: nat,
)
    ensures
        node_versions_built(
            builder,
            specs,
            configs,
            done,
            replies,
            at,
        ) matches Outcome::Fails(e, next) ==> preparation_says_why(e, replies, next),
    decreases specs.len() - done.len(),
{
    if done.len() < specs.len() {
        let i = done.len() as int;
        version_says_why(builder, specs[i], done.len(), configs[i], replies, at);
        if let Outcome::Gives(version, next) = node_version_built(
            builder,
            specs[i],
            done.len(),
            configs[i],
            replies,
            at,
        ) {
            versions_say_why(builder, specs, configs, done.push(version), replies, next);
        }
    }
}

proof fn all_versions_say_why(
    builder: RollupBuilder,
    specs: Seq<VersionSpec>,
    nodes: Seq<NodeView>,
    done: Seq<Seq<VersionView>>,
    replies: Seq<HostReply>,
    at: nat,
)
    ensures
        all_versions_built(
            builder,
            specs,
            nodes,
            done,
            replies,
            at,
        ) matches Outcome::Fails(e, next) ==> preparation_says_why(e, replies, next),
    decreases nodes.len() - done.len(),
{
    if done.len() < nodes.len() {
        let configs = nodes[done.len() as int].config_paths;
        versions_say_why(builder, specs, configs, seq![], replies, at);
        if let Outcome::Gives(versions, next) = node_versions_built(
            builder,
            specs,
            configs,
            seq![],
            replies,
            at,
        ) {
            all_versions_say_why(builder, specs, nodes, done.push(versions), replies, next);
        }
    }
}

proof fn soak_versions_say_why(
    builder: RollupBuilder,
    versions: Seq<VersionSpec>,
    done: Seq<(Seq<char>, u64)>,
    replies: Seq<HostReply>,
    at: nat,
)
    ensures
        soak_versions_built(
            builder,
            versions,
            done,
            replies,
            at,
        ) matches Outcome::Fails(e, next) ==> preparation_says_why(e, replies, next),
    decreases versions.len(),
{
    if versions.len() > 0 {
        let commit = versions[0].commit@;
        binary_says_why(builder, commit, soak_build(), replies, at);
        if let Outcome::Gives(binary, next) = binary_resolved(
            builder.binary(commit, soak_build(), replies, at),
            replies,
        ) {
            soak_versions_say_why(
                builder,
                versions.skip(1),
                done.push((binary, versions[0].stop_height)),
                replies,
                next,
            );
        }
    }
}

proof fn node_configs_say_why(
    urls: UrlsView,
    versions: Seq<VersionView>,
    name: Seq<char>,
    done: Seq<VersionView>,
    replies: Seq<HostReply>,
    at: nat,
)
    ensures
        node_interpolated(
            urls,
            versions,
            name,
            done,
            replies,
            at,
        ) matches Outcome::Fails(e, next) ==> preparation_says_why(e, replies, next),
    decreases versions.len() - done.len(),
{
    if done.len() < versions.len() {
        let version = versions[done.len() as int];
        if let Outcome::Gives(config_path, next) = config_interpolated(
            urls,
            version.config_path,
            name,
            done.len(),
            replies,
            at,
        ) {
            let more = done.push(VersionView { config_path, ..version });
            node_configs_say_why(urls, versions, name, more, replies, next);
        }
    }
}

proof fn all_configs_say_why(
    urls: UrlsView,
    nodes: Seq<Seq<VersionView>>,
    done: Seq<Seq<VersionView>>,
    replies: Seq<HostReply>,
    at: nat,
)
    ensures
        all_interpolated(
            urls,
            nodes,
            done,
            replies,
            at,
        ) matches Outcome::Fails(e, next) ==> preparation_says_why(e, replies, next),
    decreases nodes.len() - done.len(),
{
    if done.len() < nodes.len() {
        let versions = nodes[done.len() as int];
        let name = type_of_node(done.len()).name();
        node_configs_say_why(urls, versions, name, seq![], replies, at);
        if let Outcome::Gives(versions, next) = node_interpolated(
            urls,
            versions,
            name,
            seq![],
            replies,
            at,
        ) {
            all_configs_say_why(urls, nodes, done.push(versions), replies, next);
        }
    }
}

/// What a failure to clear the storage of the nodes says is so.
pub proof fn clearing_says_why(
    run_dir: Seq<char>,
    nodes: Seq<NodeView>,
    replies: Seq<HostReply>,
    at: nat,
)
    ensures
        all_storage_cleared(
            run_dir,
            nodes,
            replies,
            at,
        ) matches Outcome::Fails(e, next) ==> preparation_says_why(e, replies, next),
    decreases nodes.len(),
{
    if nodes.len() > 0 {
        if let Outcome::Gives(_, next) = storage_cleared(
            joined_path(run_dir, nodes[0].storage_path),
            replies,
            at,
        ) {
            clearing_says_why(run_dir, nodes.skip(1), replies, next);
        }
    }
}

proof fn mock_da_says_why(
    case: TestCaseView,
    builder: RollupBuilder,
    container: ContainerView,
    replies: Seq<HostReply>,
    at: nat,
)
    ensures
        mock_da_ready(
            case,
            builder,
            container,
            replies,
            at,
        ) matches Outcome::Fails(e, next) ==> preparation_says_why(e, replies, next),
{
    let commit = case.versions[0].commit@;
    let build = mock_da_build();
    build_failure_says_why(
        builder.cache_dir@,
        builder.repo_url@,
        commit,
        build.name,
        build.args,
        build.bin,
        replies,
        at,
    );
    if let Outcome::Fails(e, next) = builder.binary(commit, build, replies, at) {
        assert(build_says_why(e, builder.cache_dir@, commit, build.bin, replies, next));
    }
}

/// What a failure to prepare a test case says is so.
pub proof fn preparation_failure_says_why(
    case: TestCaseView,
    builder: RollupBuilder,
    container: ContainerView,
    run_dir: Seq<char>,
    layout: Seq<NodeView>,
    replies: Seq<HostReply>,
    at: nat,
)
    ensures
        prepared(
            case,
            builder,
            container,
            run_dir,
            layout,
            replies,
            at,
        ) matches Outcome::Fails(e, next) ==> preparation_says_why(e, replies, next),
{
    let urls = UrlsView {
        run_dir,
        sequencer_db: container.connection_string(SEQUENCER_DB@),
        mock_da: local_url(MOCK_DA_PORT),
    };
    if let Outcome::Gives(_, n1) = manager_binary_built(replies, at) {
        all_versions_say_why(builder, case.versions, case.nodes, seq![], replies, n1);
        if let Outcome::Gives(built, n2) = case.node_versions(builder, replies, n1) {
            all_configs_say_why(urls, built, seq![], replies, n2);
            if let Outcome::Gives(_, n3) = all_interpolated(urls, built, seq![], replies, n2) {
                soak_versions_say_why(builder, case.versions, seq![], replies, n3);
                if let Outcome::Gives(_, n4) = case.soak_config_built(builder, replies, n3) {
                    clearing_says_why(run_dir, layout, replies, n4);
                    if let Outcome::Gives(_, n5) = all_storage_cleared(
                        run_dir,
                        layout,
                        replies,
                        n4,
                    ) {
                        mock_da_says_why(case, builder, container, replies, n5);
                    }
                }
            }
        }
    }
}

proof fn configs_say_why(
    root: Seq<char>,
    simple_mode: Seq<char>,
    version: nat,
    replication: bool,
    replicas: nat,
    node: nat,
    replies: Seq<HostReply>,
    at: nat,
)
    ensures
        configs_found(
            root,
            version,
            replication,
            replicas,
            node,
            replies,
            at,
        ) matches Outcome::Fails(e, next) ==> detection_says_why(
            e,
            root,
            simple_mode,
            replies,
            next,
        ),
    decreases replicas + 1 - node,
{
    if node <= replicas {
        configs_say_why(
            root,
            simple_mode,
            version,
            replication,
            replicas,
            node + 1,
            replies,
            at + 1,
        );
        let path = config_file(root, version as int, replication, node as int);
    }
}

proof fn version_checks_say_why(
    root: Seq<char>,
    simple_mode: Seq<char>,
    versions: nat,
    version: nat,
    replication: bool,
    replicas: usize,
    replies: Seq<HostReply>,
    at: nat,
)
    ensures
        versions_checked(
            root,
            versions,
            version,
            replication,
            replicas,
            replies,
            at,
        ) matches Outcome::Fails(e, next) ==> detection_says_why(
            e,
            root,
            simple_mode,
            replies,
            next,
        ),
    decreases versions - version,
{
    if version < versions {
        configs_say_why(root, simple_mode, version, replication, replicas as nat, 0, replies, at);
        if let Outcome::Gives(_, found) = configs_found(
            root,
            version,
            replication,
            replicas as nat,
            0,
            replies,
            at,
        ) {
            counting_never_fails(version_dir(root, version), 0, replies, found);
        }
        if let Outcome::Gives(_, next) = version_checked(
            root,
            version,
            replication,
            replicas,
            replies,
            at,
        ) {
            version_checks_say_why(
                root,
                simple_mode,
                versions,
                version + 1,
                replication,
                replicas,
                replies,
                next,
            );
        }
    }
}

proof fn counting_never_fails(dir: Seq<char>, count: nat, replies: Seq<HostReply>, at: nat)
    ensures
        replicas_counted(dir, count, replies, at) matches Outcome::Fails(e, next) ==> false,
    decreases replies.len() - at,
{
    if at < replies.len() {
        counting_never_fails(dir, count + 1, replies, at + 1);
    }
}

proof fn agreement_says_why(
    root: Seq<char>,
    simple_mode: Seq<char>,
    node_type: NodeType,
    paths: Seq<Seq<char>>,
    first: (u16, Seq<char>),
    version: nat,
    replies: Seq<HostReply>,
    at: nat,
)
    requires
        0 < version,
        paths.len() <= usize::MAX,
    ensures
        versions_agree(
            node_type,
            paths,
            first,
            version,
            replies,
            at,
        ) matches Outcome::Fails(e, next) ==> detection_says_why(
            e,
            root,
            simple_mode,
            replies,
            next,
        ),
    decreases paths.len() - version,
{
    if version < paths.len() {
        agreement_says_why(
            root,
            simple_mode,
            node_type,
            paths,
            first,
            version + 1,
            replies,
            at + 1,
        );
        if let Some(FileRead::Parsed(fields)) = rollup_fields_at(replies, at) {
            let port = first.0;
            assert(decimal(port as nat) == decimal(port as nat));
            let p = fields.storage_path@;
            if componentwise_equal(p, first.1) {
                assert(components(p) =~= components(first.1));
            }
        }
    }
}

proof fn node_list_says_why(
    root: Seq<char>,
    simple_mode: Seq<char>,
    versions: nat,
    replication: bool,
    replicas: nat,
    done: Seq<NodeView>,
    replies: Seq<HostReply>,
    at: nat,
)
    requires
        versions <= usize::MAX,
    ensures
        nodes_built(
            root,
            versions,
            replication,
            replicas,
            done,
            replies,
            at,
        ) matches Outcome::Fails(e, next) ==> detection_says_why(
            e,
            root,
            simple_mode,
            replies,
            next,
        ),
    decreases replicas + 1 - done.len(),
{
    if done.len() <= replicas {
        let node_type = type_of_node(done.len());
        let paths = node_config_paths(root, versions, replication, done.len());
        if let Outcome::Gives(first, read) = fields_extracted(paths[0], replies, at) {
            agreement_says_why(root, simple_mode, node_type, paths, first, 1, replies, read);
        }
        if let Outcome::Gives(node, next) = node_built(node_type, paths, replies, at) {
            node_list_says_why(
                root,
                simple_mode,
                versions,
                replication,
                replicas,
                done.push(node),
                replies,
                next,
            );
        }
    }
}

/// What a failure to detect the nodes of a test case says is so.
pub proof fn detection_failure_says_why(
    root: Seq<char>,
    versions: nat,
    simple_mode: Seq<char>,
    replies: Seq<HostReply>,
    at: nat,
)
    requires
        versions <= usize::MAX,
    ensures
        nodes_detected(
            root,
            versions,
            simple_mode,
            replies,
            at,
        ) matches Outcome::Fails(e, next) ==> detection_says_why(
            e,
            root,
            simple_mode,
            replies,
            next,
        ),
{
    let dir = version_dir(root, 0);
    let path = config_file(root, 0, false, 0);
    if let Outcome::Gives(_, found) = replication_detected(dir, replies, at) {
        counting_never_fails(dir, 0, replies, found);
    }
    if let Outcome::Gives((replication, replicas), n1) = mode_detected(
        dir,
        simple_mode,
        replies,
        at,
    ) {
        version_checks_say_why(root, simple_mode, versions, 0, replication, replicas, replies, n1);
        if let Outcome::Gives(_, n2) = versions_checked(
            root,
            versions,
            0,
            replication,
            replicas,
            replies,
            n1,
        ) {
            node_list_says_why(
                root,
                simple_mode,
                versions,
                replication,
                replicas as nat,
                seq![],
                replies,
                n2,
            );
        }
    }
}

/// Whether the failure to start a node says which node it is, and what the last reply has said.
pub open spec fn start_says_why(
    e: TestCaseError<Seq<char>>,
    nodes: NodesView,
    replies: Seq<HostReply>,
    next: nat,
) -> bool {
    &&& next > 0
    &&& match e {
        TestCaseError::SerializeManagerConfig(m) => config_write_at(
            replies,
            (next - 1) as nat,
        ) matches Some(ConfigWrite::NotSerialized(s)) && s@ == m,
        TestCaseError::WriteManagerConfig { node_type, source } => names_a_node(nodes, node_type)
            && (config_write_at(replies, (next - 1) as nat) matches Some(ConfigWrite::NotWritten(
            s,
        )) && s@ == source),
        TestCaseError::ManagerSpawn { node_type, source } => names_a_node(nodes, node_type) && (
        spawned_at(replies, (next - 1) as nat) matches Some(Err(s)) && s@ == source),
        _ => false,
    }
}

/// Whether a name is that of one of the nodes.
pub open spec fn names_a_node(nodes: NodesView, name: Seq<char>) -> bool {
    exists|n: int| 0 <= n < nodes.names.len() && #[trigger] nodes.names[n] == name
}

/// What a failure to start the nodes says is so.
pub proof fn start_failure_says_why(
    nodes: NodesView,
    done: Seq<(Seq<char>, Option<u32>)>,
    replies: Seq<HostReply>,
    at: nat,
)
    requires
        nodes.names.len() >= nodes.versions.len(),
    ensures
        nodes_spawned(
            nodes.manager_binary,
            nodes.versions,
            nodes.names,
            nodes.extra_args,
            nodes.run_dir,
            done,
            replies,
            at,
        ) matches Outcome::Fails(e, next) ==> start_says_why(e, nodes, replies, next),
    decreases nodes.versions.len() - done.len(),
{
    if done.len() < nodes.versions.len() {
        let name = name_of_node(nodes.names, done.len());
        assert(nodes.names[done.len() as int] == name);
        if let Outcome::Gives(pid, next) = node_spawned(
            nodes.manager_binary,
            name,
            done.len(),
            nodes.versions[done.len() as int],
            nodes.extra_args,
            nodes.run_dir,
            replies,
            at,
        ) {
            start_failure_says_why(nodes, done.push((name, pid)), replies, next);
        }
    }
}

/// Whether the failure to start the container says which container it is and what a reply before
/// the position has said.
pub open spec fn container_says_why(
    e: DockerError<Seq<char>>,
    name: Seq<char>,
    replies: Seq<HostReply>,
    next: nat,
) -> bool {
    &&& next > 0
    &&& match e {
        DockerError::NotReady { name: n, timeout_secs } => n == name && timeout_secs == 30 && (
        millis_at(replies, (next - 1) as nat) matches Some(millis) && millis >= 30000),
        DockerError::ReadinessCheck { name: n, source } => n == name && (command_at(
            replies,
            (next - 1) as nat,
        ) matches Some(CommandOutcome::NotStarted(m)) && m@ == source),
        DockerError::SqlExec { name: n, source } => n == name && (command_at(
            replies,
            (next - 1) as nat,
        ) matches Some(CommandOutcome::NotStarted(m)) && m@ == source),
        DockerError::SqlFailed { name: n, code, stderr } => n == name && (command_at(
            replies,
            (next - 1) as nat,
        ) matches Some(CommandOutcome::Finished(output)) && output.status != ExitStatus::Exited(0)
            && stderr == output.stderr@ && code == match output.status {
            ExitStatus::Exited(c) => Some(c),
            ExitStatus::Signaled(_) => None,
        }),
        _ => false,
    }
}

proof fn readiness_says_why(container: ContainerView, replies: Seq<HostReply>, at: nat)
    ensures
        container.became_ready(30, replies, at) matches Outcome::Fails(e, next)
            ==> container_says_why(e, container.container_name, replies, next),
    decreases replies.len() - at,
{
    if at + 2 < replies.len() {
        readiness_says_why(container, replies, at + 3);
    }
}

/// What a failure to execute statements says is so.
pub proof fn statement_failure_says_why(
    container: ContainerView,
    statements: Seq<Seq<char>>,
    replies: Seq<HostReply>,
    at: nat,
)
    ensures
        container.all_sql_executed(statements, replies, at) matches Outcome::Fails(e, next)
            ==> container_says_why(e, container.container_name, replies, next),
    decreases statements.len(),
{
    if statements.len() > 0 {
        statement_failure_says_why(container, statements.skip(1), replies, at + 1);
    }
}

/// What a failure to set up a container that has been started says is so, and where a container
/// could not be started.
pub proof fn container_failure_says_why(password: Seq<char>, replies: Seq<HostReply>, at: nat)
    ensures
        fresh_container(password).set_up(replies, at + 1) matches Outcome::Fails(e, next)
            ==> container_says_why(e, "upgrade_simulator_postgres"@, replies, next),
        command_at(replies, at) matches Some(CommandOutcome::NotStarted(m)) ==> (container_started(
            password,
            replies,
            at,
        ) matches Outcome::Fails(DockerError::Start { name, source }, _) && source == m@ && name
            == "upgrade_simulator_postgres"@),
        command_at(replies, at) matches Some(CommandOutcome::Finished(output)) ==> output.status
            != ExitStatus::Exited(0) ==> (container_started(
            password,
            replies,
            at,
        ) matches Outcome::Fails(DockerError::StartFailed { name, code, stderr }, _) && stderr
            == output.stderr@ && name == "upgrade_simulator_postgres"@ && code
            == match output.status {
            ExitStatus::Exited(c) => Some(c),
            ExitStatus::Signaled(_) => None,
        }),
{
    let container = fresh_container(password);
    readiness_says_why(container, replies, at + 2);
    if let Outcome::Gives(_, next) = container.became_ready(READY_TIMEOUT_SECS, replies, at + 2) {
        let databases = seq![
            "CREATE DATABASE "@ + SEQUENCER_DB@,
            "CREATE DATABASE "@ + MOCK_DA_DB@,
        ];
        statement_failure_says_why(container, databases, replies, next);
    }
}

} // verus!

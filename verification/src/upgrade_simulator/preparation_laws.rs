//! What has been done for a test case by the time that its nodes can be run.
use vstd::prelude::*;

use crate::build_cache::{cached_binary, obtained};
use crate::config::VersionView;
use crate::journal::{
    called, done_at, flag_at, gives_at, spawned_at, text_at, within, worked, HostCallView,
    HostReply, Outcome,
};
use crate::path::{joined_path, parent};
use crate::process::CommandView;
use crate::text::{decimal, replaced};
use crate::upgrade_simulator::builder::{mock_da_build, rollup_build, soak_build, RollupBuilder};
use crate::upgrade_simulator::docker::ContainerView;
use crate::upgrade_simulator::node_config::{type_of_node, NodeView};
use crate::upgrade_simulator::phase_laws::{clearing_calls, lift_remade, remade};
use crate::upgrade_simulator::replies_read::{
    all_configs_settle, all_versions_settle, binary_settles, clearing_settles, node_configs_settle,
    soak_config_settles, version_settles, versions_settle,
};
use crate::upgrade_simulator::run::{
    all_interpolated, all_storage_cleared, config_interpolated, mock_da_ready, node_interpolated,
    prepared, UrlsView,
};
use crate::upgrade_simulator::test_case::{
    all_versions_built, binary_resolved, node_version_built, node_versions_built,
    soak_versions_built, TestCaseView, VersionSpec,
};

verus! {

/// Whether a procedure has, from position `k` on, read a config file, filled in the connection
/// strings, and written the result to a file of a directory that it has made.
pub open spec fn filled_in<T, E>(
    procedure: spec_fn(Seq<HostReply>) -> Outcome<T, E>,
    replies: Seq<HostReply>,
    k: nat,
    urls: UrlsView,
    path: Seq<char>,
    dir: Seq<char>,
    new_path: Seq<char>,
) -> bool {
    &&& called(procedure, replies, k, HostCallView::ReadText { path })
    &&& called(procedure, replies, k + 1, HostCallView::CreateDirAll { path: dir })
    &&& worked(replies, k + 1)
    &&& text_at(replies, k) matches Some(Ok(text)) && called(
        procedure,
        replies,
        k + 2,
        HostCallView::WriteText {
            path: new_path,
            content: replaced(
                replaced(text@, "{postgres_connection_string}"@, urls.sequencer_db),
                "{mock_da_url}"@,
                urls.mock_da,
            ),
        },
    )
    &&& worked(replies, k + 2)
}

/// Where the file of a node's config for a version is written.
pub open spec fn filled_path(run_dir: Seq<char>, name: Seq<char>, version: nat) -> Seq<char> {
    joined_path(joined_path(run_dir, name), "config_"@ + decimal(version) + ".toml"@)
}

proof fn node_fill_calls(
    urls: UrlsView,
    versions: Seq<VersionView>,
    name: Seq<char>,
    done: Seq<VersionView>,
    replies: Seq<HostReply>,
    at: nat,
    v: int,
)
    requires
        done.len() <= v < versions.len(),
        node_interpolated(urls, versions, name, done, replies, at) is Gives,
    ensures
        filled_in(
            |r: Seq<HostReply>| node_interpolated(urls, versions, name, done, r, at),
            replies,
            (at + 3 * (v - done.len())) as nat,
            urls,
            versions[v].config_path,
            joined_path(urls.run_dir, name),
            filled_path(urls.run_dir, name, v as nat),
        ),
        node_interpolated(urls, versions, name, done, replies, at) matches Outcome::Gives(
            all,
            next,
        ) && {
            &&& at + 3 * (v - done.len()) + 3 <= next
            &&& all.len() == versions.len()
            &&& forall|j: int| 0 <= j < done.len() ==> all[j] == done[j]
            &&& all[v].config_path == filled_path(urls.run_dir, name, v as nat)
            &&& all[v].rollup_binary == versions[v].rollup_binary
            &&& all[v].migration_path == versions[v].migration_path
            &&& all[v].start_height == versions[v].start_height
            &&& all[v].stop_height == versions[v].stop_height
        },
    decreases versions.len() - done.len(),
{
    let m = done.len();
    let version = versions[m as int];
    let f = |r: Seq<HostReply>| node_interpolated(urls, versions, name, done, r, at);
    match config_interpolated(urls, version.config_path, name, m, replies, at) {
        Outcome::Gives(config_path, next) => {
            let more = done.push(VersionView { config_path, ..version });
            let k = (at + 3 * (v - m)) as nat;
            node_configs_settle(urls, versions, name, more, replies, next, replies.len());
            if m + 1 < versions.len() {
                let w: int = if v > m {
                    v
                } else {
                    m + 1int
                };
                node_fill_calls(urls, versions, name, more, replies, next, w);
            }
            if v > m {
                let g = |r: Seq<HostReply>| node_interpolated(urls, versions, name, more, r, next);
                assert forall|j: nat, call: HostCallView|
                    k <= j && called(g, replies, j, call) implies #[trigger] called(
                    f,
                    replies,
                    j,
                    call,
                ) by {}
            } else {
                assert(f(replies.take(k as int)) is Asks);
                assert(f(replies.take(k + 1int)) is Asks);
                assert(f(replies.take(k + 2int)) is Asks);
            }
            match node_interpolated(urls, versions, name, done, replies, at) {
                Outcome::Gives(all, _) => {
                    assert forall|j: int| 0 <= j < m implies all[j] == done[j] by {
                        assert(all[j] == more[j]);
                    }
                    if v == m {
                        assert(all[v] == more[v]);
                    }
                },
                _ => {},
            }
        },
        _ => {},
    }
}

proof fn all_fill_calls(
    urls: UrlsView,
    nodes: Seq<Seq<VersionView>>,
    done: Seq<Seq<VersionView>>,
    replies: Seq<HostReply>,
    at: nat,
    n: int,
    v: int,
) -> (k: nat)
    requires
        done.len() <= n < nodes.len(),
        0 <= v < nodes[n].len(),
        all_interpolated(urls, nodes, done, replies, at) is Gives,
    ensures
        at <= k,
        ({
            let name = type_of_node(n as nat).name();
            &&& filled_in(
                |r: Seq<HostReply>| all_interpolated(urls, nodes, done, r, at),
                replies,
                k,
                urls,
                nodes[n][v].config_path,
                joined_path(urls.run_dir, name),
                filled_path(urls.run_dir, name, v as nat),
            )
            &&& all_interpolated(urls, nodes, done, replies, at) matches Outcome::Gives(all, _) && {
                let version = nodes[n][v];
                &&& all.len() == nodes.len()
                &&& forall|j: int| 0 <= j < done.len() ==> all[j] == done[j]
                &&& all[n].len() == nodes[n].len()
                &&& all[n][v].config_path == filled_path(urls.run_dir, name, v as nat)
                &&& all[n][v].rollup_binary == version.rollup_binary
                &&& all[n][v].migration_path == version.migration_path
                &&& all[n][v].start_height == version.start_height
                &&& all[n][v].stop_height == version.stop_height
            }
        }),
    decreases nodes.len() - done.len(),
{
    let m = done.len();
    let name = type_of_node(m).name();
    let versions = nodes[m as int];
    let f = |r: Seq<HostReply>| all_interpolated(urls, nodes, done, r, at);
    match node_interpolated(urls, versions, name, seq![], replies, at) {
        Outcome::Gives(filled, next) => {
            let more = done.push(filled);
            node_configs_settle(urls, versions, name, seq![], replies, at, replies.len());
            let k = if n > m {
                let k = all_fill_calls(urls, nodes, more, replies, next, n, v);
                let g = |r: Seq<HostReply>| all_interpolated(urls, nodes, more, r, next);
                assert forall|j: nat, call: HostCallView|
                    k <= j && called(g, replies, j, call) implies #[trigger] called(
                    f,
                    replies,
                    j,
                    call,
                ) by {
                    node_configs_settle(urls, versions, name, seq![], replies, at, j);
                }
                k
            } else {
                node_fill_calls(urls, versions, name, seq![], replies, at, v);
                all_filled_keep(urls, nodes, more, replies, next);
                let k = (at + 3 * v) as nat;
                let g = |r: Seq<HostReply>|
                    node_interpolated(urls, versions, name, seq![], r, at);
                assert forall|j: nat, call: HostCallView|
                    k <= j && called(g, replies, j, call) implies #[trigger] called(
                    f,
                    replies,
                    j,
                    call,
                ) by {}
                k
            };
            match all_interpolated(urls, nodes, done, replies, at) {
                Outcome::Gives(all, _) => {
                    assert forall|j: int| 0 <= j < m implies all[j] == done[j] by {
                        assert(all[j] == more[j]);
                    }
                    if n == m {
                        assert(all[n] == more[n]);
                    }
                },
                _ => {},
            }
            k
        },
        _ => 0,
    }
}

proof fn all_filled_keep(
    urls: UrlsView,
    nodes: Seq<Seq<VersionView>>,
    done: Seq<Seq<VersionView>>,
    replies: Seq<HostReply>,
    at: nat,
)
    requires
        done.len() <= nodes.len(),
    ensures
        all_interpolated(urls, nodes, done, replies, at) matches Outcome::Gives(all, _) ==> {
            &&& all.len() == nodes.len()
            &&& forall|j: int| 0 <= j < done.len() ==> all[j] == done[j]
        },
    decreases nodes.len() - done.len(),
{
    let m = done.len();
    if m < nodes.len() {
        let name = type_of_node(m).name();
        match node_interpolated(urls, nodes[m as int], name, seq![], replies, at) {
            Outcome::Gives(filled, next) => {
                let more = done.push(filled);
                all_filled_keep(urls, nodes, more, replies, next);
                match all_interpolated(urls, nodes, done, replies, at) {
                    Outcome::Gives(all, _) => {
                        assert forall|j: int| 0 <= j < m implies all[j] == done[j] by {
                            assert(all[j] == more[j]);
                        }
                    },
                    _ => {},
                }
            },
            _ => {},
        }
    }
}

/// Whether a procedure has obtained a binary from its commit, beginning at position `a`, and has
/// had its place in the cache resolved, at position `b`.
pub open spec fn binary_from_commit<T, E>(
    procedure: spec_fn(Seq<HostReply>) -> Outcome<T, E>,
    replies: Seq<HostReply>,
    a: nat,
    b: nat,
    builder: RollupBuilder,
    commit: Seq<char>,
    name: Seq<char>,
    args: Seq<Seq<char>>,
    bin: Seq<char>,
    binary: Seq<char>,
) -> bool {
    let dir = builder.cache_dir@;
    let url = builder.repo_url@;
    &&& gives_at(obtained(dir, url, commit, name, args, bin, replies, a), b)
    &&& within(
        |r: Seq<HostReply>| obtained(dir, url, commit, name, args, bin, r, a),
        procedure,
        replies,
        a,
    )
    &&& called(
        procedure,
        replies,
        b,
        HostCallView::Canonicalize { path: cached_binary(dir, commit, name) },
    )
    &&& text_at(replies, b) matches Some(Ok(text)) && text@ == binary
}

/// Whether a procedure has set up a version of a node: its rollup binary has been obtained from its
/// own commit, its config file has been resolved, and the migration next to that file, where there
/// is one, has been found.
pub open spec fn version_set_up<T, E>(
    procedure: spec_fn(Seq<HostReply>) -> Outcome<T, E>,
    replies: Seq<HostReply>,
    a: nat,
    b: nat,
    builder: RollupBuilder,
    spec: VersionSpec,
    config: Seq<char>,
    version: VersionView,
) -> bool {
    &&& binary_from_commit(
        procedure,
        replies,
        a,
        b,
        builder,
        spec.commit@,
        "sov-rollup-starter"@,
        seq![
            "build"@,
            "--release"@,
            "--no-default-features"@,
            "--features"@,
            "acceptance-testing,mock_da_external,mock_zkvm"@,
        ],
        "rollup"@,
        version.rollup_binary,
    )
    &&& called(procedure, replies, b + 1, HostCallView::Canonicalize { path: config })
    &&& text_at(replies, b + 1) matches Some(Ok(text)) && text@ == version.config_path
    &&& version.start_height == spec.start_height
    &&& version.stop_height == Some(spec.stop_height)
    &&& parent(version.config_path) matches Some(dir) && {
        let plain = joined_path(dir, "migration"@);
        let script = joined_path(dir, "migration.sh"@);
        &&& called(procedure, replies, b + 2, HostCallView::IsFile { path: plain })
        &&& called(procedure, replies, b + 3, HostCallView::IsFile { path: script })
        &&& match (flag_at(replies, b + 2), flag_at(replies, b + 3)) {
            (Some(false), Some(false)) => version.migration_path is None,
            (Some(true), Some(false)) => migration_is(procedure, replies, b + 4, plain, version),
            (Some(false), Some(true)) => migration_is(procedure, replies, b + 4, script, version),
            _ => false,
        }
    }
}

/// Whether a procedure has had a path resolved, and a version's migration is the result.
pub open spec fn migration_is<T, E>(
    procedure: spec_fn(Seq<HostReply>) -> Outcome<T, E>,
    replies: Seq<HostReply>,
    k: nat,
    path: Seq<char>,
    version: VersionView,
) -> bool {
    &&& called(procedure, replies, k, HostCallView::Canonicalize { path })
    &&& text_at(replies, k) matches Some(Ok(text)) && version.migration_path == Some(text@)
}

proof fn version_calls(
    builder: RollupBuilder,
    spec: VersionSpec,
    version: nat,
    config: Seq<char>,
    replies: Seq<HostReply>,
    at: nat,
) -> (b: nat)
    requires
        node_version_built(builder, spec, version, config, replies, at) is Gives,
    ensures
        node_version_built(builder, spec, version, config, replies, at) matches Outcome::Gives(
            built,
            _,
        ) && version_set_up(
            |r: Seq<HostReply>| node_version_built(builder, spec, version, config, r, at),
            replies,
            at,
            b,
            builder,
            spec,
            config,
            built,
        ),
{
    let f = |r: Seq<HostReply>| node_version_built(builder, spec, version, config, r, at);
    let commit = spec.commit@;
    match builder.binary(commit, rollup_build(), replies, at) {
        Outcome::Gives(_, b) => {
            crate::build_cache::obtained_from_cache(
                builder.cache_dir@,
                builder.repo_url@,
                commit,
                rollup_build().name,
                rollup_build().args,
                rollup_build().bin,
                replies,
                at,
            );
            binary_settles(builder, commit, rollup_build(), replies, at, b);
            assert(f(replies.take(b as int)) is Asks);
            binary_settles(builder, commit, rollup_build(), replies, at, b + 1);
            assert(f(replies.take(b + 1int)) is Asks);
            binary_settles(builder, commit, rollup_build(), replies, at, b + 2);
            assert(f(replies.take(b + 2int)) is Asks);
            binary_settles(builder, commit, rollup_build(), replies, at, b + 3);
            assert(f(replies.take(b + 3int)) is Asks);
            if b + 4 <= replies.len() {
                binary_settles(builder, commit, rollup_build(), replies, at, b + 4);
            }
            b
        },
        _ => 0,
    }
}

proof fn lift_version<T, E, U, F>(
    inner: spec_fn(Seq<HostReply>) -> Outcome<T, E>,
    outer: spec_fn(Seq<HostReply>) -> Outcome<U, F>,
    replies: Seq<HostReply>,
    a: nat,
    b: nat,
    builder: RollupBuilder,
    spec: VersionSpec,
    config: Seq<char>,
    version: VersionView,
)
    requires
        a <= b,
        version_set_up(inner, replies, a, b, builder, spec, config, version),
        within(inner, outer, replies, a),
    ensures
        version_set_up(outer, replies, a, b, builder, spec, config, version),
{
    let dir = builder.cache_dir@;
    let url = builder.repo_url@;
    let build = rollup_build();
    let f = |r: Seq<HostReply>|
        obtained(dir, url, spec.commit@, build.name, build.args, build.bin, r, a);
    assert forall|j: nat, call: HostCallView|
        a <= j && called(f, replies, j, call) implies #[trigger] called(
        outer,
        replies,
        j,
        call,
    ) by {
        assert(called(inner, replies, j, call));
    }
}

proof fn node_version_calls(
    builder: RollupBuilder,
    specs: Seq<VersionSpec>,
    configs: Seq<Seq<char>>,
    done: Seq<VersionView>,
    replies: Seq<HostReply>,
    at: nat,
    i: int,
) -> (calls: (nat, nat))
    requires
        done.len() <= i < specs.len(),
        node_versions_built(builder, specs, configs, done, replies, at) is Gives,
    ensures
        at <= calls.0 <= calls.1,
        node_versions_built(builder, specs, configs, done, replies, at) matches Outcome::Gives(
            all,
            _,
        ) && {
            &&& all.len() == specs.len()
            &&& forall|j: int| 0 <= j < done.len() ==> all[j] == done[j]
            &&& version_set_up(
                |r: Seq<HostReply>| node_versions_built(builder, specs, configs, done, r, at),
                replies,
                calls.0,
                calls.1,
                builder,
                specs[i],
                configs[i],
                all[i],
            )
        },
    decreases specs.len() - done.len(),
{
    let m = done.len();
    let f = |r: Seq<HostReply>| node_versions_built(builder, specs, configs, done, r, at);
    version_settles(builder, specs[m as int], m, configs[m as int], replies, at, replies.len());
    match node_version_built(builder, specs[m as int], m, configs[m as int], replies, at) {
        Outcome::Gives(version, next) => {
            let more = done.push(version);
            node_versions_keep(builder, specs, configs, more, replies, next);
            let all = node_versions_built(builder, specs, configs, done, replies, at)->Gives_0;
            assert forall|j: int| 0 <= j < m implies all[j] == done[j] by {
                assert(all[j] == more[j]);
            }
            if i > m {
                let calls = node_version_calls(builder, specs, configs, more, replies, next, i);
                let g = |r: Seq<HostReply>|
                    node_versions_built(builder, specs, configs, more, r, next);
                assert forall|j: nat, call: HostCallView|
                    calls.0 <= j && #[trigger] called(g, replies, j, call) implies called(
                    f,
                    replies,
                    j,
                    call,
                ) by {
                    version_settles(
                        builder,
                        specs[m as int],
                        m,
                        configs[m as int],
                        replies,
                        at,
                        j,
                    );
                }
                lift_version(
                    g,
                    f,
                    replies,
                    calls.0,
                    calls.1,
                    builder,
                    specs[i],
                    configs[i],
                    all[i],
                );
                calls
            } else {
                let b = version_calls(builder, specs[i], m, configs[i], replies, at);
                let g = |r: Seq<HostReply>|
                    node_version_built(builder, specs[i], m, configs[i], r, at);
                assert(all[i] == more[i]);
                assert(within(g, f, replies, at));
                crate::build_cache::obtained_from_cache(
                    builder.cache_dir@,
                    builder.repo_url@,
                    specs[i].commit@,
                    rollup_build().name,
                    rollup_build().args,
                    rollup_build().bin,
                    replies,
                    at,
                );
                lift_version(g, f, replies, at, b, builder, specs[i], configs[i], all[i]);
                (at, b)
            }
        },
        _ => (0, 0),
    }
}

proof fn node_versions_keep(
    builder: RollupBuilder,
    specs: Seq<VersionSpec>,
    configs: Seq<Seq<char>>,
    done: Seq<VersionView>,
    replies: Seq<HostReply>,
    at: nat,
)
    requires
        done.len() <= specs.len(),
    ensures
        node_versions_built(builder, specs, configs, done, replies, at) matches Outcome::Gives(
            all,
            _,
        ) ==> {
            &&& all.len() == specs.len()
            &&& forall|j: int| 0 <= j < done.len() ==> all[j] == done[j]
        },
    decreases specs.len() - done.len(),
{
    let m = done.len();
    if m < specs.len() {
        match node_version_built(builder, specs[m as int], m, configs[m as int], replies, at) {
            Outcome::Gives(version, next) => {
                let more = done.push(version);
                node_versions_keep(builder, specs, configs, more, replies, next);
                match node_versions_built(builder, specs, configs, done, replies, at) {
                    Outcome::Gives(all, _) => {
                        assert forall|j: int| 0 <= j < m implies all[j] == done[j] by {
                            assert(all[j] == more[j]);
                        }
                    },
                    _ => {},
                }
            },
            _ => {},
        }
    }
}

proof fn all_version_calls(
    builder: RollupBuilder,
    specs: Seq<VersionSpec>,
    nodes: Seq<NodeView>,
    done: Seq<Seq<VersionView>>,
    replies: Seq<HostReply>,
    at: nat,
    n: int,
    i: int,
) -> (calls: (nat, nat))
    requires
        done.len() <= n < nodes.len(),
        0 <= i < specs.len(),
        all_versions_built(builder, specs, nodes, done, replies, at) is Gives,
    ensures
        at <= calls.0 <= calls.1,
        all_versions_built(builder, specs, nodes, done, replies, at) matches Outcome::Gives(
            all,
            _,
        ) && {
            &&& all.len() == nodes.len()
            &&& all[n].len() == specs.len()
            &&& version_set_up(
                |r: Seq<HostReply>| all_versions_built(builder, specs, nodes, done, r, at),
                replies,
                calls.0,
                calls.1,
                builder,
                specs[i],
                nodes[n].config_paths[i],
                all[n][i],
            )
        },
    decreases nodes.len() - done.len(),
{
    let m = done.len();
    let configs = nodes[m as int].config_paths;
    let f = |r: Seq<HostReply>| all_versions_built(builder, specs, nodes, done, r, at);
    versions_settle(builder, specs, configs, seq![], replies, at, replies.len());
    match node_versions_built(builder, specs, configs, seq![], replies, at) {
        Outcome::Gives(versions, next) => {
            let more = done.push(versions);
            all_versions_keep(builder, specs, nodes, more, replies, next);
            let all = all_versions_built(builder, specs, nodes, done, replies, at)->Gives_0;
            if n > m {
                let calls = all_version_calls(builder, specs, nodes, more, replies, next, n, i);
                let g = |r: Seq<HostReply>|
                    all_versions_built(builder, specs, nodes, more, r, next);
                assert forall|j: nat, call: HostCallView|
                    calls.0 <= j && #[trigger] called(g, replies, j, call) implies called(
                    f,
                    replies,
                    j,
                    call,
                ) by {
                    versions_settle(builder, specs, configs, seq![], replies, at, j);
                }
                lift_version(
                    g,
                    f,
                    replies,
                    calls.0,
                    calls.1,
                    builder,
                    specs[i],
                    nodes[n].config_paths[i],
                    all[n][i],
                );
                calls
            } else {
                let calls = node_version_calls(
                    builder,
                    specs,
                    configs,
                    seq![],
                    replies,
                    at,
                    i,
                );
                let g = |r: Seq<HostReply>|
                    node_versions_built(builder, specs, configs, seq![], r, at);
                assert(all[n] == more[n]);
                assert(within(g, f, replies, calls.0));
                lift_version(
                    g,
                    f,
                    replies,
                    calls.0,
                    calls.1,
                    builder,
                    specs[i],
                    configs[i],
                    all[n][i],
                );
                calls
            }
        },
        _ => (0, 0),
    }
}

proof fn all_versions_keep(
    builder: RollupBuilder,
    specs: Seq<VersionSpec>,
    nodes: Seq<NodeView>,
    done: Seq<Seq<VersionView>>,
    replies: Seq<HostReply>,
    at: nat,
)
    requires
        done.len() <= nodes.len(),
    ensures
        all_versions_built(builder, specs, nodes, done, replies, at) matches Outcome::Gives(
            all,
            _,
        ) ==> {
            &&& all.len() == nodes.len()
            &&& forall|j: int| 0 <= j < done.len() ==> all[j] == done[j]
        },
    decreases nodes.len() - done.len(),
{
    let m = done.len();
    if m < nodes.len() {
        let configs = nodes[m as int].config_paths;
        match node_versions_built(builder, specs, configs, seq![], replies, at) {
            Outcome::Gives(versions, next) => {
                let more = done.push(versions);
                all_versions_keep(builder, specs, nodes, more, replies, next);
                match all_versions_built(builder, specs, nodes, done, replies, at) {
                    Outcome::Gives(all, _) => {
                        assert forall|j: int| 0 <= j < m implies all[j] == done[j] by {
                            assert(all[j] == more[j]);
                        }
                    },
                    _ => {},
                }
            },
            _ => {},
        }
    }
}

/// Whether a procedure has obtained the soak workers of a version from its own commit.
pub open spec fn workers_from_commit<T, E>(
    procedure: spec_fn(Seq<HostReply>) -> Outcome<T, E>,
    replies: Seq<HostReply>,
    a: nat,
    b: nat,
    builder: RollupBuilder,
    spec: VersionSpec,
    binary: Seq<char>,
) -> bool {
    binary_from_commit(
        procedure,
        replies,
        a,
        b,
        builder,
        spec.commit@,
        "rollup-starter-soak-test"@,
        seq!["build"@, "--release"@, "-p"@, "rollup-starter-soak-test"@],
        "rollup-starter-soak-test"@,
        binary,
    )
}

proof fn lift_workers<T, E, U, F>(
    inner: spec_fn(Seq<HostReply>) -> Outcome<T, E>,
    outer: spec_fn(Seq<HostReply>) -> Outcome<U, F>,
    replies: Seq<HostReply>,
    a: nat,
    b: nat,
    builder: RollupBuilder,
    spec: VersionSpec,
    binary: Seq<char>,
)
    requires
        a <= b,
        workers_from_commit(inner, replies, a, b, builder, spec, binary),
        within(inner, outer, replies, a),
    ensures
        workers_from_commit(outer, replies, a, b, builder, spec, binary),
{
    let dir = builder.cache_dir@;
    let url = builder.repo_url@;
    let build = soak_build();
    let f = |r: Seq<HostReply>|
        obtained(dir, url, spec.commit@, build.name, build.args, build.bin, r, a);
    assert forall|j: nat, call: HostCallView|
        a <= j && called(f, replies, j, call) implies #[trigger] called(
        outer,
        replies,
        j,
        call,
    ) by {
        assert(called(inner, replies, j, call));
    }
}

proof fn worker_calls(
    builder: RollupBuilder,
    versions: Seq<VersionSpec>,
    done: Seq<(Seq<char>, u64)>,
    replies: Seq<HostReply>,
    at: nat,
    i: int,
) -> (calls: (nat, nat))
    requires
        0 <= i < versions.len(),
        soak_versions_built(builder, versions, done, replies, at) is Gives,
    ensures
        at <= calls.0 <= calls.1,
        soak_versions_built(builder, versions, done, replies, at) matches Outcome::Gives(all, _) && {
            &&& all.len() == done.len() + versions.len()
            &&& forall|j: int| 0 <= j < done.len() ==> all[j] == done[j]
            &&& all[done.len() + i].1 == versions[i].stop_height
            &&& workers_from_commit(
                |r: Seq<HostReply>| soak_versions_built(builder, versions, done, r, at),
                replies,
                calls.0,
                calls.1,
                builder,
                versions[i],
                all[done.len() + i].0,
            )
        },
    decreases versions.len(),
{
    let f = |r: Seq<HostReply>| soak_versions_built(builder, versions, done, r, at);
    let commit = versions[0].commit@;
    let build = soak_build();
    crate::build_cache::obtained_from_cache(
        builder.cache_dir@,
        builder.repo_url@,
        commit,
        build.name,
        build.args,
        build.bin,
        replies,
        at,
    );
    match builder.binary(commit, build, replies, at) {
        Outcome::Gives(_, b) => {
            binary_settles(builder, commit, build, replies, at, b);
            let next = b + 1;
            let binary = (binary_resolved(
                builder.binary(commit, build, replies, at),
                replies,
            )->Gives_0);
            let rest = versions.skip(1);
            let more = done.push((binary, versions[0].stop_height));
            soak_versions_keep(builder, rest, more, replies, next);
            let all = soak_versions_built(builder, versions, done, replies, at)->Gives_0;
            assert forall|j: int| 0 <= j < done.len() implies all[j] == done[j] by {
                assert(all[j] == more[j]);
            }
            if i > 0 {
                let calls = worker_calls(builder, rest, more, replies, next, i - 1);
                let g = |r: Seq<HostReply>| soak_versions_built(builder, rest, more, r, next);
                assert forall|j: nat, call: HostCallView|
                    calls.0 <= j && #[trigger] called(g, replies, j, call) implies called(
                    f,
                    replies,
                    j,
                    call,
                ) by {
                    binary_settles(builder, commit, build, replies, at, j);
                }
                lift_workers(
                    g,
                    f,
                    replies,
                    calls.0,
                    calls.1,
                    builder,
                    versions[i],
                    all[done.len() + i].0,
                );
                calls
            } else {
                assert(all[done.len() as int] == more[done.len() as int]);
                assert(f(replies.take(b as int)) is Asks);
                (at, b)
            }
        },
        _ => (0, 0),
    }
}

proof fn soak_versions_keep(
    builder: RollupBuilder,
    versions: Seq<VersionSpec>,
    done: Seq<(Seq<char>, u64)>,
    replies: Seq<HostReply>,
    at: nat,
)
    ensures
        soak_versions_built(builder, versions, done, replies, at) matches Outcome::Gives(all, _)
            ==> {
            &&& all.len() == done.len() + versions.len()
            &&& forall|j: int| 0 <= j < done.len() ==> all[j] == done[j]
        },
    decreases versions.len(),
{
    if versions.len() > 0 {
        match binary_resolved(
            builder.binary(versions[0].commit@, soak_build(), replies, at),
            replies,
        ) {
            Outcome::Gives(binary, next) => {
                let more = done.push((binary, versions[0].stop_height));
                soak_versions_keep(builder, versions.skip(1), more, replies, next);
                match soak_versions_built(builder, versions, done, replies, at) {
                    Outcome::Gives(all, _) => {
                        assert forall|j: int| 0 <= j < done.len() implies all[j] == done[j] by {
                            assert(all[j] == more[j]);
                        }
                    },
                    _ => {},
                }
            },
            _ => {},
        }
    }
}

/// The connection strings of a run: the sequencer's database, and the mock DA server.
pub open spec fn urls_of(container: ContainerView, run_dir: Seq<char>) -> UrlsView {
    UrlsView {
        run_dir,
        sequencer_db: "postgresql://postgres:"@ + container.password + "@localhost:"@ + decimal(
            container.port as nat,
        ) + "/"@ + "sequencer"@,
        mock_da: "http://localhost:"@ + decimal(50051),
    }
}

/// The steps of a preparation that has come to its end, with the positions at which they begin.
proof fn preparation_steps(
    case: TestCaseView,
    builder: RollupBuilder,
    container: ContainerView,
    run_dir: Seq<char>,
    layout: Seq<NodeView>,
    replies: Seq<HostReply>,
    at: nat,
) -> (steps: (nat, nat, nat, nat))
    requires
        prepared(case, builder, container, run_dir, layout, replies, at) is Gives,
    ensures
        ({
            let f = |r: Seq<HostReply>|
                prepared(case, builder, container, run_dir, layout, r, at);
            let urls = urls_of(container, run_dir);
            let (n2, n3, n4, n5) = steps;
            &&& at + 1 <= n2 <= n3 <= n4 <= n5
            &&& called(f, replies, at, HostCallView::BuildManager)
            &&& within(
                |r: Seq<HostReply>|
                    all_versions_built(builder, case.versions, case.nodes, seq![], r, at + 1),
                f,
                replies,
                at + 1,
            )
            &&& all_versions_built(
                builder,
                case.versions,
                case.nodes,
                seq![],
                replies,
                at + 1,
            ) matches Outcome::Gives(built, next) && {
                &&& next == n2
                &&& within(
                    |r: Seq<HostReply>| all_interpolated(urls, built, seq![], r, n2),
                    f,
                    replies,
                    n2,
                )
                &&& gives_at(all_interpolated(urls, built, seq![], replies, n2), n3)
                &&& f(replies)->Gives_0.versions == all_interpolated(
                    urls,
                    built,
                    seq![],
                    replies,
                    n2,
                )->Gives_0
            }
            &&& within(
                |r: Seq<HostReply>| case.soak_config_built(builder, r, n3),
                f,
                replies,
                n3,
            )
            &&& gives_at(case.soak_config_built(builder, replies, n3), n4)
            &&& f(replies)->Gives_0.soak == case.soak_config_built(builder, replies, n3)->Gives_0
            &&& within(
                |r: Seq<HostReply>| all_storage_cleared(run_dir, layout, r, n4),
                f,
                replies,
                n4,
            )
            &&& gives_at(all_storage_cleared(run_dir, layout, replies, n4), n5)
            &&& within(
                |r: Seq<HostReply>| mock_da_ready(case, builder, container, r, n5),
                f,
                replies,
                n5,
            )
            &&& mock_da_ready(case, builder, container, replies, n5) is Gives
            &&& f(replies)->Gives_0.registry == mock_da_ready(
                case,
                builder,
                container,
                replies,
                n5,
            )->Gives_0
            &&& text_at(replies, at) matches Some(Ok(text)) && text@ == f(
                replies,
            )->Gives_0.manager_binary
        }),
{
    let f = |r: Seq<HostReply>| prepared(case, builder, container, run_dir, layout, r, at);
    let urls = urls_of(container, run_dir);
    let n1 = at + 1;
    let built = case.node_versions(builder, replies, n1)->Gives_0;
    let n2 = case.node_versions(builder, replies, n1)->Gives_1;
    let n3 = all_interpolated(urls, built, seq![], replies, n2)->Gives_1;
    let n4 = case.soak_config_built(builder, replies, n3)->Gives_1;
    let n5 = all_storage_cleared(run_dir, layout, replies, n4)->Gives_1;
    let known = replies.len();
    all_versions_settle(builder, case.versions, case.nodes, seq![], replies, n1, known);
    all_configs_settle(urls, built, seq![], replies, n2, known);
    soak_config_settles(case, builder, replies, n3, known);
    clearing_settles(run_dir, layout, replies, n4, known);
    assert(f(replies.take(at as int)) is Asks);
    let g1 = |r: Seq<HostReply>|
        all_versions_built(builder, case.versions, case.nodes, seq![], r, n1);
    assert(within(g1, f, replies, n1));
    let g2 = |r: Seq<HostReply>| all_interpolated(urls, built, seq![], r, n2);
    assert forall|j: nat, call: HostCallView|
        n2 <= j && #[trigger] called(g2, replies, j, call) implies called(
        f,
        replies,
        j,
        call,
    ) by {
        all_versions_settle(builder, case.versions, case.nodes, seq![], replies, n1, j);
    }
    let g3 = |r: Seq<HostReply>| case.soak_config_built(builder, r, n3);
    assert forall|j: nat, call: HostCallView|
        n3 <= j && #[trigger] called(g3, replies, j, call) implies called(
        f,
        replies,
        j,
        call,
    ) by {
        all_versions_settle(builder, case.versions, case.nodes, seq![], replies, n1, j);
        all_configs_settle(urls, built, seq![], replies, n2, j);
    }
    let g4 = |r: Seq<HostReply>| all_storage_cleared(run_dir, layout, r, n4);
    assert forall|j: nat, call: HostCallView|
        n4 <= j && #[trigger] called(g4, replies, j, call) implies called(
        f,
        replies,
        j,
        call,
    ) by {
        all_versions_settle(builder, case.versions, case.nodes, seq![], replies, n1, j);
        all_configs_settle(urls, built, seq![], replies, n2, j);
        soak_config_settles(case, builder, replies, n3, j);
    }
    let g5 = |r: Seq<HostReply>| mock_da_ready(case, builder, container, r, n5);
    assert forall|j: nat, call: HostCallView|
        n5 <= j && #[trigger] called(g5, replies, j, call) implies called(
        f,
        replies,
        j,
        call,
    ) by {
        all_versions_settle(builder, case.versions, case.nodes, seq![], replies, n1, j);
        all_configs_settle(urls, built, seq![], replies, n2, j);
        soak_config_settles(case, builder, replies, n3, j);
        clearing_settles(run_dir, layout, replies, n4, j);
    }
    (n2, n3, n4, n5)
}

/// The name of a node: the first is the master, and the replicas are counted from 0.
pub open spec fn node_name(n: int) -> Seq<char> {
    if n == 0 {
        "master"@
    } else {
        "replica_"@ + decimal((n - 1) as nat)
    }
}

/// Every version that a node is to run has been set up, from the version's own commit and from the
/// node's own config file for that version, and that file has been filled in with the connection
/// strings of the run, in a directory of the node's own; the result is what the node runs. `k` is
/// where the file is read, and `original` the version before that.
pub proof fn every_version_is_set_up(
    case: TestCaseView,
    builder: RollupBuilder,
    container: ContainerView,
    run_dir: Seq<char>,
    layout: Seq<NodeView>,
    replies: Seq<HostReply>,
    at: nat,
    n: int,
    i: int,
) -> (r: (nat, nat, nat, VersionView))
    requires
        prepared(case, builder, container, run_dir, layout, replies, at) is Gives,
        0 <= n < case.nodes.len() <= usize::MAX,
        0 <= i < case.versions.len(),
    ensures
        ({
            let f = |r: Seq<HostReply>|
                prepared(case, builder, container, run_dir, layout, r, at);
            let (a, b, k, original) = r;
            let setup = f(replies)->Gives_0;
            let path = filled_path(run_dir, node_name(n), i as nat);
            &&& at < a <= b
            &&& at < k
            &&& version_set_up(
                f,
                replies,
                a,
                b,
                builder,
                case.versions[i],
                case.nodes[n].config_paths[i],
                original,
            )
            &&& filled_in(
                f,
                replies,
                k,
                urls_of(container, run_dir),
                original.config_path,
                joined_path(run_dir, node_name(n)),
                path,
            )
            &&& setup.versions.len() == case.nodes.len()
            &&& setup.versions[n].len() == case.versions.len()
            &&& setup.versions[n][i] == VersionView { config_path: path, ..original }
        }),
{
    let f = |r: Seq<HostReply>| prepared(case, builder, container, run_dir, layout, r, at);
    let urls = urls_of(container, run_dir);
    let (n2, n3, n4, n5) = preparation_steps(
        case,
        builder,
        container,
        run_dir,
        layout,
        replies,
        at,
    );
    let built = all_versions_built(
        builder,
        case.versions,
        case.nodes,
        seq![],
        replies,
        at + 1,
    )->Gives_0;
    let g1 = |r: Seq<HostReply>|
        all_versions_built(builder, case.versions, case.nodes, seq![], r, at + 1);
    let calls = all_version_calls(
        builder,
        case.versions,
        case.nodes,
        seq![],
        replies,
        at + 1,
        n,
        i,
    );
    assert(within(g1, f, replies, calls.0));
    lift_version(
        g1,
        f,
        replies,
        calls.0,
        calls.1,
        builder,
        case.versions[i],
        case.nodes[n].config_paths[i],
        built[n][i],
    );
    let g2 = |r: Seq<HostReply>| all_interpolated(urls, built, seq![], r, n2);
    let k = all_fill_calls(urls, built, seq![], replies, n2, n, i);
    assert(type_of_node(n as nat).name() == node_name(n));
    assert(within(g2, f, replies, k));
    (calls.0, calls.1, k, built[n][i])
}

/// Soak testing is set up exactly where it is configured, with the configured workers and salt; a
/// version's workers have been obtained from the version's own commit, and run up to its stop
/// height.
pub proof fn soak_is_set_up_as_configured(
    case: TestCaseView,
    builder: RollupBuilder,
    container: ContainerView,
    run_dir: Seq<char>,
    layout: Seq<NodeView>,
    replies: Seq<HostReply>,
    at: nat,
    i: int,
) -> (calls: (nat, nat))
    requires
        prepared(case, builder, container, run_dir, layout, replies, at) is Gives,
        0 <= i < case.versions.len(),
    ensures
        ({
            let f = |r: Seq<HostReply>|
                prepared(case, builder, container, run_dir, layout, r, at);
            match (case.soak_testing, f(replies)->Gives_0.soak) {
                (None, soak) => soak is None,
                (Some(_), None) => false,
                (Some(config), Some(soak)) => {
                    &&& soak.config.num_workers == config.num_workers
                    &&& soak.config.salt == config.salt
                    &&& soak.versions.len() == case.versions.len()
                    &&& soak.versions[i].1 == case.versions[i].stop_height
                    &&& workers_from_commit(
                        f,
                        replies,
                        calls.0,
                        calls.1,
                        builder,
                        case.versions[i],
                        soak.versions[i].0,
                    )
                },
            }
        }),
{
    let f = |r: Seq<HostReply>| prepared(case, builder, container, run_dir, layout, r, at);
    let (_n2, n3, _n4, _n5) = preparation_steps(
        case,
        builder,
        container,
        run_dir,
        layout,
        replies,
        at,
    );
    if case.soak_testing is Some {
        let calls = worker_calls(builder, case.versions, seq![], replies, n3, i);
        let g = |r: Seq<HostReply>| soak_versions_built(builder, case.versions, seq![], r, n3);
        let h = |r: Seq<HostReply>| case.soak_config_built(builder, r, n3);
        assert forall|j: nat, call: HostCallView|
            calls.0 <= j && #[trigger] called(g, replies, j, call) implies called(
            f,
            replies,
            j,
            call,
        ) by {
            assert(called(h, replies, j, call));
        }
        let soak = f(replies)->Gives_0.soak->0;
        lift_workers(
            g,
            f,
            replies,
            calls.0,
            calls.1,
            builder,
            case.versions[i],
            soak.versions[i].0,
        );
        calls
    } else {
        (0, 0)
    }
}

/// The storage directory of every node is removed, if it is there, and made again before the nodes
/// are first run.
pub proof fn storage_is_wiped_before_the_initial_run(
    case: TestCaseView,
    builder: RollupBuilder,
    container: ContainerView,
    run_dir: Seq<char>,
    layout: Seq<NodeView>,
    replies: Seq<HostReply>,
    at: nat,
    i: int,
) -> (k: nat)
    requires
        prepared(case, builder, container, run_dir, layout, replies, at) is Gives,
        0 <= i < layout.len(),
    ensures
        at <= k,
        remade(
            |r: Seq<HostReply>| prepared(case, builder, container, run_dir, layout, r, at),
            replies,
            k,
            joined_path(run_dir, layout[i].storage_path),
        ),
{
    let f = |r: Seq<HostReply>| prepared(case, builder, container, run_dir, layout, r, at);
    let (_n2, _n3, n4, _n5) = preparation_steps(
        case,
        builder,
        container,
        run_dir,
        layout,
        replies,
        at,
    );
    let k = clearing_calls(run_dir, layout, replies, n4, i);
    let g = |r: Seq<HostReply>| all_storage_cleared(run_dir, layout, r, n4);
    lift_remade(g, f, replies, n4, k, joined_path(run_dir, layout[i].storage_path));
    k
}

/// The manager is the one that the host has built. The mock DA server has been obtained from the
/// first version's commit and started on its own database and port, and has had ten seconds to
/// come up; it is the one process that is known when the nodes are first run.
pub proof fn mock_da_runs_before_the_nodes(
    case: TestCaseView,
    builder: RollupBuilder,
    container: ContainerView,
    run_dir: Seq<char>,
    layout: Seq<NodeView>,
    replies: Seq<HostReply>,
    at: nat,
) -> (calls: (nat, nat))
    requires
        prepared(case, builder, container, run_dir, layout, replies, at) is Gives,
    ensures
        ({
            let f = |r: Seq<HostReply>|
                prepared(case, builder, container, run_dir, layout, r, at);
            let setup = f(replies)->Gives_0;
            let (a, b) = calls;
            let commit = case.versions[0].commit@;
            let dir = builder.cache_dir@;
            let name = "mock-da-server"@;
            let args = seq![
                "build"@,
                "--release"@,
                "--bin"@,
                "mock-da-server"@,
                "--no-default-features"@,
                "--features=mock_da_external,mock_zkvm"@,
            ];
            let url = builder.repo_url@;
            &&& called(f, replies, at, HostCallView::BuildManager)
            &&& text_at(replies, at) matches Some(Ok(text)) && text@ == setup.manager_binary
            &&& gives_at(obtained(dir, url, commit, name, args, name, replies, a), b)
            &&& within(
                |r: Seq<HostReply>| obtained(dir, url, commit, name, args, name, r, a),
                f,
                replies,
                a,
            )
            &&& called(
                f,
                replies,
                b,
                HostCallView::Spawn {
                    name: "mock-da"@,
                    command: CommandView {
                        program: cached_binary(dir, commit, name),
                        args: seq![
                            "--host"@,
                            "0.0.0.0"@,
                            "--port"@,
                            decimal(50051),
                            "--db"@,
                            "postgresql://postgres:"@ + container.password + "@localhost:"@
                                + decimal(container.port as nat) + "/"@ + "mock_da"@,
                            "--block-time-ms"@,
                            "1000"@,
                        ],
                        current_dir: None,
                    },
                },
            )
            &&& called(f, replies, b + 1, HostCallView::Sleep { millis: 10000 })
            &&& done_at(replies, b + 1)
            &&& spawned_at(replies, b) matches Some(Ok(pid)) && match pid {
                Some(pid) => setup.registry == seq![("mock-da"@, pid)],
                None => setup.registry.len() == 0,
            }
        }),
{
    let f = |r: Seq<HostReply>| prepared(case, builder, container, run_dir, layout, r, at);
    let (_n2, _n3, _n4, n5) = preparation_steps(
        case,
        builder,
        container,
        run_dir,
        layout,
        replies,
        at,
    );
    let g = |r: Seq<HostReply>| mock_da_ready(case, builder, container, r, n5);
    let commit = case.versions[0].commit@;
    let build = mock_da_build();
    crate::build_cache::obtained_from_cache(
        builder.cache_dir@,
        builder.repo_url@,
        commit,
        build.name,
        build.args,
        build.bin,
        replies,
        n5,
    );
    let b = builder.binary(commit, build, replies, n5)->Gives_1;
    binary_settles(builder, commit, build, replies, n5, b);
    assert(g(replies.take(b as int)) is Asks);
    binary_settles(builder, commit, build, replies, n5, b + 1);
    assert(g(replies.take(b + 1int)) is Asks);
    let o = |r: Seq<HostReply>|
        obtained(
            builder.cache_dir@,
            builder.repo_url@,
            commit,
            build.name,
            build.args,
            build.bin,
            r,
            n5,
        );
    assert forall|j: nat, call: HostCallView|
        n5 <= j && #[trigger] called(o, replies, j, call) implies called(
        f,
        replies,
        j,
        call,
    ) by {
        assert(called(g, replies, j, call));
    }
    let spawn = g(replies.take(b as int))->Asks_0;
    assert(called(g, replies, b, spawn));
    assert(called(g, replies, b + 1, HostCallView::Sleep { millis: 10000 }));
    let registry = f(replies)->Gives_0.registry;
    if let Some(Ok(Some(pid))) = spawned_at(replies, b) {
        assert(registry =~= seq![("mock-da"@, pid)]);
    }
    (n5, b)
}

} // verus!

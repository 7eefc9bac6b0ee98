//! How the nodes of a test case are found in its directory.
use vstd::prelude::*;

use crate::config::FileRead;
use crate::journal::{
    called, flag_at, rollup_fields_at, test_case_at, within, HostCallView, HostReply, Outcome,
};
use crate::path::{file_name, joined_path};
use crate::text::decimal;
use crate::upgrade_simulator::error::TestCaseError;
use crate::upgrade_simulator::node_config::{
    configs_found, earlier_port, earlier_storage, first_conflict, layout_detected, layout_keys,
    mode_detected, node_built, node_config_paths, nodes_built, nodes_detected, replicas_counted,
    type_of_node, version_checked, version_dir, versions_agree, versions_checked, NodeType,
    NodeView,
};
use crate::upgrade_simulator::replies_read::{
    configs_settle, mode_settles, node_settles, version_check_settles, version_checks_settle,
};
use crate::upgrade_simulator::test_case::{test_case_loaded, TestCaseView};
use crate::version_laws::componentwise_equal;

verus! {

/// The name of a node's config file: a single node has `config.toml`, a master that has replicas
/// `config_master.toml`, and the replicas have numbered files.
pub open spec fn config_file_name(replication: bool, node: int) -> Seq<char> {
    if node > 0 {
        "config_replica_"@ + decimal((node - 1) as nat) + ".toml"@
    } else if replication {
        "config_master.toml"@
    } else {
        "config.toml"@
    }
}

/// A node's config file for a version, in the version's directory.
pub open spec fn config_file(root: Seq<char>, version: int, replication: bool, node: int) -> Seq<
    char,
> {
    joined_path(
        joined_path(root, "v"@ + decimal(version as nat)),
        config_file_name(replication, node),
    )
}

proof fn count_calls(dir: Seq<char>, count: nat, replies: Seq<HostReply>, at: nat, k: int)
    requires
        replicas_counted(dir, count, replies, at) is Gives,
        0 <= k,
        at + k < replies.len(),
        forall|j: int|
            0 <= j < k ==> #[trigger] flag_at(replies, (at + j) as nat) == Some(true),
    ensures
        called(
            |r: Seq<HostReply>| replicas_counted(dir, count, r, at),
            replies,
            (at + k) as nat,
            HostCallView::PathExists {
                path: joined_path(
                    dir,
                    "config_replica_"@ + decimal((count + k) as nat) + ".toml"@,
                ),
            },
        ),
    decreases k,
{
    let f = |r: Seq<HostReply>| replicas_counted(dir, count, r, at);
    if k > 0 {
        assert(flag_at(replies, (at + 0) as nat) == Some(true));
        assert forall|j: int| 0 <= j < k - 1 implies #[trigger] flag_at(
            replies,
            (at + 1 + j) as nat,
        ) == Some(true) by {
            assert(flag_at(replies, (at + (j + 1)) as nat) == Some(true));
        }
        count_calls(dir, count + 1, replies, at + 1, k - 1);
        let g = |r: Seq<HostReply>| replicas_counted(dir, count + 1, r, at + 1);
        assert(g(replies.take(at + k)) is Asks);
        assert(f(replies.take(at + k)) == g(replies.take(at + k)));
    } else {
        assert(f(replies.take(at as int)) is Asks);
    }
}

proof fn count_is_of_files(dir: Seq<char>, count: nat, replies: Seq<HostReply>, at: nat)
    ensures
        replicas_counted(dir, count, replies, at) matches Outcome::Gives(total, next) ==> {
            &&& at < next <= replies.len()
            &&& total == (count + (next - 1 - at)) as usize
            &&& flag_at(replies, (next - 1) as nat) == Some(false)
            &&& forall|j: int|
                0 <= j < next - 1 - at ==> #[trigger] flag_at(replies, (at + j) as nat) == Some(
                    true,
                )
        },
    decreases replies.len() - at,
{
    if at < replies.len() && flag_at(replies, at) == Some(true) {
        count_is_of_files(dir, count + 1, replies, at + 1);
        match replicas_counted(dir, count, replies, at) {
            Outcome::Gives(_, next) => {
                assert forall|j: int| 0 <= j < next - 1 - at implies #[trigger] flag_at(
                    replies,
                    (at + j) as nat,
                ) == Some(true) by {
                    if j > 0 {
                        assert(flag_at(replies, (at + 1 + (j - 1)) as nat) == Some(true));
                    }
                }
            },
            _ => {},
        }
    }
}

/// A test case whose first version has a master's config file is one with replicas; one that has a
/// single node's has none, and one that has neither is refused. The replicas are those whose
/// numbered files follow each other from 0 on.
pub proof fn mode_is_told_by_the_files(
    root: Seq<char>,
    versions: nat,
    simple_mode: Seq<char>,
    replies: Seq<HostReply>,
    at: nat,
) -> (replication: bool)
    requires
        nodes_detected(root, versions, simple_mode, replies, at) is Gives,
    ensures
        ({
            let f = |r: Seq<HostReply>| nodes_detected(root, versions, simple_mode, r, at);
            let start: nat = if replication {
                at + 1
            } else {
                at + 2
            };
            &&& called(
                f,
                replies,
                at,
                HostCallView::PathExists { path: config_file(root, 0, true, 0) },
            )
            &&& flag_at(replies, at) == Some(replication)
            &&& !replication ==> called(
                f,
                replies,
                at + 1,
                HostCallView::PathExists { path: config_file(root, 0, false, 0) },
            )
            &&& !replication ==> flag_at(replies, at + 1) == Some(true)
            &&& nodes_detected(root, versions, simple_mode, replies, at) matches Outcome::Gives(
                nodes,
                _,
            ) && {
                &&& nodes.len() > 0
                &&& nodes.len() > 1 ==> replication
                &&& forall|n: int|
                    0 < n < nodes.len() && nodes.len() <= usize::MAX ==> #[trigger] flag_at(
                        replies,
                        (start + n - 1) as nat,
                    ) == Some(true)
                &&& replies.len() <= usize::MAX ==> flag_at(
                    replies,
                    (start + nodes.len() - 1) as nat,
                ) == Some(false)
                &&& replies.len() <= usize::MAX ==> forall|n: int|
                    0 < n <= nodes.len() ==> #[trigger] called(
                        f,
                        replies,
                        (start + n - 1) as nat,
                        HostCallView::PathExists { path: config_file(root, 0, true, n) },
                    )
                &&& forall|n: int, v: int|
                    0 <= n < nodes.len() && 0 <= v < versions ==> (
                    #[trigger] nodes[n].config_paths[v]) == config_file(root, v, replication, n)
                &&& forall|n: int|
                    0 <= n < nodes.len() ==> (#[trigger] nodes[n]).config_paths.len() == versions
            }
        }),
{
    let f = |r: Seq<HostReply>| nodes_detected(root, versions, simple_mode, r, at);
    let dir = version_dir(root, 0);
    let replication = flag_at(replies, at) == Some(true);
    let (_, replicas) = mode_detected(dir, simple_mode, replies, at)->Gives_0;
    let known = mode_detected(dir, simple_mode, replies, at)->Gives_1;
    assert(f(replies.take(at as int)) is Asks);
    if !replication {
        assert(f(replies.take(at + 1int)) is Asks);
    }
    let start: nat = if replication {
        at + 1
    } else {
        at + 2
    };
    count_is_of_files(dir, 0, replies, start);
    let checked = versions_checked(root, versions, 0, replication, replicas, replies, known)->Gives_1;
    nodes_in_order(
        root,
        versions,
        replication,
        replicas as nat,
        seq![],
        replies,
        checked,
    );
    let nodes = nodes_detected(root, versions, simple_mode, replies, at)->Gives_0;
    assert forall|n: int| 0 < n < nodes.len() && nodes.len() <= usize::MAX implies #[trigger]
        flag_at(replies, (start + n - 1) as nat) == Some(true) by {
        assert(flag_at(replies, (start + (n - 1)) as nat) == Some(true));
    }
    if replies.len() <= usize::MAX {
        let g = |r: Seq<HostReply>| replicas_counted(dir, 0, r, start);
        assert forall|n: int| 0 < n <= nodes.len() implies #[trigger] called(
            f,
            replies,
            (start + n - 1) as nat,
            HostCallView::PathExists { path: config_file(root, 0, true, n) },
        ) by {
            count_calls(dir, 0, replies, start, n - 1);
            assert(g(replies.take(start + n - 1)) is Asks);
            assert(f(replies.take(start + n - 1)) is Asks);
        }
    }
    replication
}

proof fn nodes_in_order(
    root: Seq<char>,
    versions: nat,
    replication: bool,
    replicas: nat,
    done: Seq<NodeView>,
    replies: Seq<HostReply>,
    at: nat,
)
    requires
        done.len() <= replicas + 1,
        forall|n: int|
            0 <= n < done.len() ==> (#[trigger] done[n]).config_paths == Seq::new(
                versions,
                |v: int| config_file(root, v, replication, n),
            ),
    ensures
        nodes_built(root, versions, replication, replicas, done, replies, at) matches Outcome::Gives(
            nodes,
            _,
        ) ==> {
            &&& nodes.len() == replicas + 1
            &&& forall|n: int|
                0 <= n < nodes.len() ==> (#[trigger] nodes[n]).config_paths == Seq::new(
                    versions,
                    |v: int| config_file(root, v, replication, n),
                )
        },
    decreases replicas + 1 - done.len(),
{
    if done.len() <= replicas {
        let node = done.len();
        let paths = node_config_paths(root, versions, replication, node);
        assert(paths =~= Seq::new(
            versions,
            |v: int| config_file(root, v, replication, node as int),
        ));
        if let Outcome::Gives(built, next) = node_built(type_of_node(node), paths, replies, at) {
            nodes_in_order(
                root,
                versions,
                replication,
                replicas,
                done.push(built),
                replies,
                next,
            );
        }
    }
}

proof fn agreement_calls(
    node_type: NodeType,
    paths: Seq<Seq<char>>,
    first: (u16, Seq<char>),
    version: nat,
    replies: Seq<HostReply>,
    at: nat,
    v: int,
)
    requires
        version <= v < paths.len(),
        versions_agree(node_type, paths, first, version, replies, at) is Gives,
    ensures
        ({
            let k = (at + v - version) as nat;
            &&& called(
                |r: Seq<HostReply>| versions_agree(node_type, paths, first, version, r, at),
                replies,
                k,
                HostCallView::ReadRollupConfig { path: paths[v] },
            )
            &&& rollup_fields_at(replies, k) matches Some(FileRead::Parsed(fields))
                && fields.http_port == first.0 && componentwise_equal(
                fields.storage_path@,
                first.1,
            )
        }),
    decreases v - version,
{
    let f = |r: Seq<HostReply>| versions_agree(node_type, paths, first, version, r, at);
    let k = (at + v - version) as nat;
    if v > version {
        agreement_calls(node_type, paths, first, version + 1, replies, at + 1, v);
        let g = |r: Seq<HostReply>|
            versions_agree(node_type, paths, first, version + 1, r, at + 1);
        assert(g(replies.take(k as int)) is Asks);
        assert(f(replies.take(k as int)) == g(replies.take(k as int)));
    } else {
        assert(f(replies.take(k as int)) is Asks);
    }
}

/// Whether a procedure has, from position `k` on, read all config files of a node, and they tell of
/// its settings: the first one of its port and its storage path, and the others of the same port
/// and the same path.
pub open spec fn settings_read<T, E>(
    procedure: spec_fn(Seq<HostReply>) -> Outcome<T, E>,
    replies: Seq<HostReply>,
    k: nat,
    node: NodeView,
) -> bool {
    forall|v: int|
        0 <= v < node.config_paths.len() ==> #[trigger] setting_read(
            procedure,
            replies,
            k,
            node,
            v,
        )
}

/// Whether a procedure has read the config file of a node for a version, `v` replies after `k`, and
/// that file tells of the node's settings.
pub open spec fn setting_read<T, E>(
    procedure: spec_fn(Seq<HostReply>) -> Outcome<T, E>,
    replies: Seq<HostReply>,
    k: nat,
    node: NodeView,
    v: int,
) -> bool {
    &&& called(
        procedure,
        replies,
        (k + v) as nat,
        HostCallView::ReadRollupConfig { path: node.config_paths[v] },
    )
    &&& rollup_fields_at(replies, (k + v) as nat) matches Some(FileRead::Parsed(fields)) && {
        &&& fields.http_port == node.http_port
        &&& if v == 0 {
            fields.storage_path@ == node.storage_path
        } else {
            componentwise_equal(fields.storage_path@, node.storage_path)
        }
    }
}

proof fn node_calls(
    node_type: NodeType,
    paths: Seq<Seq<char>>,
    replies: Seq<HostReply>,
    at: nat,
)
    requires
        paths.len() > 0,
        node_built(node_type, paths, replies, at) is Gives,
    ensures
        node_built(node_type, paths, replies, at) matches Outcome::Gives(node, _) && {
            &&& node.node_type == node_type
            &&& node.config_paths == paths
            &&& settings_read(
                |r: Seq<HostReply>| node_built(node_type, paths, r, at),
                replies,
                at,
                node,
            )
        },
{
    let f = |r: Seq<HostReply>| node_built(node_type, paths, r, at);
    let node = node_built(node_type, paths, replies, at)->Gives_0;
    let first = (node.http_port, node.storage_path);
    assert forall|v: int| 0 <= v < paths.len() implies #[trigger] setting_read(
        f,
        replies,
        at,
        node,
        v,
    ) by {
        if v > 0 {
            agreement_calls(node_type, paths, first, 1, replies, at + 1, v);
            let g = |r: Seq<HostReply>| versions_agree(node_type, paths, first, 1, r, at + 1);
            assert(g(replies.take(at + v)) is Asks);
            assert(f(replies.take(at + v)) is Asks);
        } else {
            assert(f(replies.take(at as int)) is Asks);
        }
    }
}

proof fn lift_settings<T, E, U, F>(
    inner: spec_fn(Seq<HostReply>) -> Outcome<T, E>,
    outer: spec_fn(Seq<HostReply>) -> Outcome<U, F>,
    replies: Seq<HostReply>,
    k: nat,
    node: NodeView,
)
    requires
        settings_read(inner, replies, k, node),
        within(inner, outer, replies, k),
    ensures
        settings_read(outer, replies, k, node),
{
    assert forall|v: int| 0 <= v < node.config_paths.len() implies #[trigger] setting_read(
        outer,
        replies,
        k,
        node,
        v,
    ) by {
        assert(setting_read(inner, replies, k, node, v));
    }
}

proof fn node_list_calls(
    root: Seq<char>,
    versions: nat,
    replication: bool,
    replicas: nat,
    done: Seq<NodeView>,
    replies: Seq<HostReply>,
    at: nat,
    n: int,
) -> (k: nat)
    requires
        versions > 0,
        done.len() <= n <= replicas,
        nodes_built(root, versions, replication, replicas, done, replies, at) is Gives,
    ensures
        at <= k,
        nodes_built(root, versions, replication, replicas, done, replies, at) matches Outcome::Gives(
            nodes,
            _,
        ) && {
            &&& nodes.len() == replicas + 1
            &&& forall|j: int| 0 <= j < done.len() ==> nodes[j] == done[j]
            &&& nodes[n].node_type == type_of_node(n as nat)
            &&& settings_read(
                |r: Seq<HostReply>|
                    nodes_built(root, versions, replication, replicas, done, r, at),
                replies,
                k,
                nodes[n],
            )
        },
    decreases replicas + 1 - done.len(),
{
    let m = done.len();
    let kind = type_of_node(m);
    let paths = node_config_paths(root, versions, replication, m);
    let f = |r: Seq<HostReply>|
        nodes_built(root, versions, replication, replicas, done, r, at);
    node_settles(kind, paths, replies, at, replies.len());
    match node_built(kind, paths, replies, at) {
        Outcome::Gives(node, next) => {
            let more = done.push(node);
            node_list_keeps(root, versions, replication, replicas, more, replies, next);
            let nodes = nodes_built(
                root,
                versions,
                replication,
                replicas,
                done,
                replies,
                at,
            )->Gives_0;
            assert forall|j: int| 0 <= j < m implies nodes[j] == done[j] by {
                assert(nodes[j] == more[j]);
            }
            if n > m {
                let k = node_list_calls(
                    root,
                    versions,
                    replication,
                    replicas,
                    more,
                    replies,
                    next,
                    n,
                );
                let g = |r: Seq<HostReply>|
                    nodes_built(root, versions, replication, replicas, more, r, next);
                assert forall|j: nat, call: HostCallView|
                    k <= j && #[trigger] called(g, replies, j, call) implies called(
                    f,
                    replies,
                    j,
                    call,
                ) by {
                    node_settles(kind, paths, replies, at, j);
                }
                lift_settings(g, f, replies, k, nodes[n]);
                k
            } else {
                node_calls(kind, paths, replies, at);
                let g = |r: Seq<HostReply>| node_built(kind, paths, r, at);
                assert(nodes[n] == more[n]);
                assert(within(g, f, replies, at));
                lift_settings(g, f, replies, at, nodes[n]);
                at
            }
        },
        _ => 0,
    }
}

proof fn node_list_keeps(
    root: Seq<char>,
    versions: nat,
    replication: bool,
    replicas: nat,
    done: Seq<NodeView>,
    replies: Seq<HostReply>,
    at: nat,
)
    requires
        done.len() <= replicas + 1,
    ensures
        nodes_built(root, versions, replication, replicas, done, replies, at) matches Outcome::Gives(
            nodes,
            _,
        ) ==> {
            &&& nodes.len() == replicas + 1
            &&& forall|j: int| 0 <= j < done.len() ==> nodes[j] == done[j]
        },
    decreases replicas + 1 - done.len(),
{
    let m = done.len();
    if m <= replicas {
        let paths = node_config_paths(root, versions, replication, m);
        if let Outcome::Gives(node, next) = node_built(type_of_node(m), paths, replies, at) {
            let more = done.push(node);
            node_list_keeps(root, versions, replication, replicas, more, replies, next);
            match nodes_built(root, versions, replication, replicas, done, replies, at) {
                Outcome::Gives(nodes, _) => {
                    assert forall|j: int| 0 <= j < m implies nodes[j] == done[j] by {
                        assert(nodes[j] == more[j]);
                    }
                },
                _ => {},
            }
        }
    }
}

/// The port and the storage path of every node that is detected are those that its own config files
/// have been read to hold: those of the first version, with which the others agree. The first node
/// is the master, and the others are the replicas, in their order.
pub proof fn settings_are_read_from_the_configs(
    root: Seq<char>,
    versions: nat,
    simple_mode: Seq<char>,
    replies: Seq<HostReply>,
    at: nat,
    n: int,
) -> (k: nat)
    requires
        versions > 0,
        nodes_detected(root, versions, simple_mode, replies, at) matches Outcome::Gives(nodes, _)
            && 0 <= n < nodes.len(),
    ensures
        at <= k,
        nodes_detected(root, versions, simple_mode, replies, at) matches Outcome::Gives(nodes, _) && {
            &&& n == 0 ==> nodes[n].node_type is Master
            &&& 0 < n <= usize::MAX ==> nodes[n].node_type == NodeType::Replica((n - 1) as usize)
            &&& settings_read(
                |r: Seq<HostReply>| nodes_detected(root, versions, simple_mode, r, at),
                replies,
                k,
                nodes[n],
            )
        },
{
    let f = |r: Seq<HostReply>| nodes_detected(root, versions, simple_mode, r, at);
    let dir = version_dir(root, 0);
    let (replication, replicas) = mode_detected(dir, simple_mode, replies, at)->Gives_0;
    let n1 = mode_detected(dir, simple_mode, replies, at)->Gives_1;
    let n2 = versions_checked(root, versions, 0, replication, replicas, replies, n1)->Gives_1;
    let count = replicas as nat;
    let known = replies.len();
    mode_settles(dir, simple_mode, replies, at, known);
    version_checks_settle(root, versions, 0, replication, replicas, replies, n1, known);
    node_list_keeps(root, versions, replication, count, seq![], replies, n2);
    let k = node_list_calls(root, versions, replication, count, seq![], replies, n2, n);
    let g = |r: Seq<HostReply>|
        nodes_built(root, versions, replication, count, seq![], r, n2);
    assert forall|j: nat, call: HostCallView|
        k <= j && #[trigger] called(g, replies, j, call) implies called(f, replies, j, call) by {
        mode_settles(dir, simple_mode, replies, at, j);
        version_checks_settle(root, versions, 0, replication, replicas, replies, n1, j);
    }
    lift_settings(g, f, replies, k, f(replies)->Gives_0[n]);
    k
}

proof fn found_calls(
    root: Seq<char>,
    version: nat,
    replication: bool,
    replicas: nat,
    node: nat,
    replies: Seq<HostReply>,
    at: nat,
    n: int,
)
    requires
        node <= n <= replicas,
        configs_found(root, version, replication, replicas, node, replies, at) is Gives,
    ensures
        called(
            |r: Seq<HostReply>|
                configs_found(root, version, replication, replicas, node, r, at),
            replies,
            (at + n - node) as nat,
            HostCallView::PathExists { path: config_file(root, version as int, replication, n) },
        ),
        flag_at(replies, (at + n - node) as nat) == Some(true),
    decreases n - node,
{
    let f = |r: Seq<HostReply>|
        configs_found(root, version, replication, replicas, node, r, at);
    let k = at + n - node;
    if n > node {
        found_calls(root, version, replication, replicas, node + 1, replies, at + 1, n);
        let g = |r: Seq<HostReply>|
            configs_found(root, version, replication, replicas, node + 1, r, at + 1);
        assert(g(replies.take(k)) is Asks);
        assert(f(replies.take(k)) == g(replies.take(k)));
    } else {
        assert(f(replies.take(k)) is Asks);
    }
}

proof fn check_calls(
    root: Seq<char>,
    versions: nat,
    version: nat,
    replication: bool,
    replicas: usize,
    replies: Seq<HostReply>,
    at: nat,
    v: int,
    n: int,
) -> (k: nat)
    requires
        version <= v < versions,
        0 <= n <= replicas,
        versions_checked(root, versions, version, replication, replicas, replies, at) is Gives,
    ensures
        at <= k,
        called(
            |r: Seq<HostReply>|
                versions_checked(root, versions, version, replication, replicas, r, at),
            replies,
            k,
            HostCallView::PathExists { path: config_file(root, v, replication, n) },
        ),
        flag_at(replies, k) == Some(true),
    decreases v - version,
{
    let f = |r: Seq<HostReply>|
        versions_checked(root, versions, version, replication, replicas, r, at);
    version_check_settles(root, version, replication, replicas, replies, at, replies.len());
    if v > version {
        let next = version_checked(root, version, replication, replicas, replies, at)->Gives_1;
        let k = check_calls(
            root,
            versions,
            version + 1,
            replication,
            replicas,
            replies,
            next,
            v,
            n,
        );
        let g = |r: Seq<HostReply>|
            versions_checked(root, versions, version + 1, replication, replicas, r, next);
        assert(g(replies.take(k as int)) is Asks);
        version_check_settles(root, version, replication, replicas, replies, at, k);
        assert(f(replies.take(k as int)) == g(replies.take(k as int)));
        k
    } else {
        found_calls(root, version, replication, replicas as nat, 0, replies, at, n);
        let k = (at + n) as nat;
        let g = |r: Seq<HostReply>|
            configs_found(root, version, replication, replicas as nat, 0, r, at);
        assert(g(replies.take(k as int)) is Asks);
        assert(f(replies.take(k as int)) is Asks);
        k
    }
}

/// Every version of a test case whose nodes are detected has been found to have every node's config
/// file.
pub proof fn every_version_has_every_config(
    root: Seq<char>,
    versions: nat,
    simple_mode: Seq<char>,
    replies: Seq<HostReply>,
    at: nat,
    v: int,
    n: int,
) -> (k: nat)
    requires
        0 <= v < versions,
        nodes_detected(root, versions, simple_mode, replies, at) matches Outcome::Gives(nodes, _)
            && 0 <= n < nodes.len(),
    ensures
        nodes_detected(root, versions, simple_mode, replies, at) matches Outcome::Gives(nodes, _)
            && called(
            |r: Seq<HostReply>| nodes_detected(root, versions, simple_mode, r, at),
            replies,
            k,
            HostCallView::PathExists { path: nodes[n].config_paths[v] },
        ),
        flag_at(replies, k) == Some(true),
{
    let f = |r: Seq<HostReply>| nodes_detected(root, versions, simple_mode, r, at);
    let dir = version_dir(root, 0);
    let (mode, replicas) = mode_detected(dir, simple_mode, replies, at)->Gives_0;
    let n1 = mode_detected(dir, simple_mode, replies, at)->Gives_1;
    let n2 = versions_checked(root, versions, 0, mode, replicas, replies, n1)->Gives_1;
    let replication = mode_is_told_by_the_files(root, versions, simple_mode, replies, at);
    node_list_keeps(root, versions, mode, replicas as nat, seq![], replies, n2);
    mode_settles(dir, simple_mode, replies, at, replies.len());
    let k = check_calls(root, versions, 0, mode, replicas, replies, n1, v, n);
    let g = |r: Seq<HostReply>| versions_checked(root, versions, 0, mode, replicas, r, n1);
    assert(g(replies.take(k as int)) is Asks);
    mode_settles(dir, simple_mode, replies, at, k);
    assert(f(replies.take(k as int)) is Asks);
    k
}

/// A conflict that is reported is there: two nodes, the later one the first that conflicts with an
/// earlier one, have the port or the storage path that is named. A port goes before a path.
pub proof fn reported_conflict_is_there(keys: Seq<(NodeType, u16, Seq<char>)>, k: int) -> (r: (
    int,
    int,
))
    requires
        0 <= k <= keys.len(),
    ensures
        first_conflict(keys, k) is None <==> forall|i: int, j: int|
            0 <= i < j < keys.len() && k <= j ==> (#[trigger] keys[i]).1 != (#[trigger] keys[j]).1
                && !componentwise_equal(keys[i].2, keys[j].2),
        first_conflict(keys, k) matches Some(e) ==> {
            let (i, j) = r;
            &&& 0 <= i < j < keys.len()
            &&& k <= j
            &&& match e {
                TestCaseError::PortConflict { port, node1, node2 } => {
                    &&& keys[i].1 == port && keys[j].1 == port
                    &&& node1 == keys[i].0.name() && node2 == keys[j].0.name()
                },
                TestCaseError::StoragePathConflict { path, node1, node2 } => {
                    &&& keys[j].2 == path && componentwise_equal(keys[i].2, path)
                    &&& node1 == keys[i].0.name() && node2 == keys[j].0.name()
                    &&& forall|l: int| 0 <= l < j ==> (#[trigger] keys[l]).1 != keys[j].1
                },
                _ => false,
            }
        },
    decreases keys.len() - k,
{
    if k == keys.len() {
        (0, 0)
    } else {
        earlier_is_there(keys, k, 0);
        match (earlier_port(keys, k, 0), earlier_storage(keys, k, 0)) {
            (Some(i), _) => (i, k),
            (None, Some(i)) => (i, k),
            (None, None) => reported_conflict_is_there(keys, k + 1),
        }
    }
}

proof fn earlier_is_there(keys: Seq<(NodeType, u16, Seq<char>)>, k: int, j: int)
    requires
        0 <= j,
        k < keys.len(),
    ensures
        match earlier_port(keys, k, j) {
            Some(i) => j <= i < k && keys[i].1 == keys[k].1,
            None => forall|i: int| j <= i < k ==> (#[trigger] keys[i]).1 != keys[k].1,
        },
        match earlier_storage(keys, k, j) {
            Some(i) => j <= i < k && componentwise_equal(keys[i].2, keys[k].2),
            None => forall|i: int|
                j <= i < k ==> !componentwise_equal((#[trigger] keys[i]).2, keys[k].2),
        },
    decreases k - j,
{
    if j < k {
        earlier_is_there(keys, k, j + 1);
        if componentwise_equal(keys[j].2, keys[k].2) {
            assert(crate::path::components(keys[j].2) =~= crate::path::components(keys[k].2));
        }
    }
}

/// A test case that has been loaded is what its file has been read to hold: its versions, its extra
/// blocks, its soak testing and its repository, which is the starter repository where the file
/// names none. It goes by the name of its directory, and its nodes are those found there.
pub proof fn test_case_is_as_its_file_says(dir: Seq<char>, replies: Seq<HostReply>, at: nat)
    requires
        test_case_loaded(dir, replies, at) is Gives,
    ensures
        ({
            let f = |r: Seq<HostReply>| test_case_loaded(dir, r, at);
            &&& called(
                f,
                replies,
                at,
                HostCallView::ReadTestCase { path: joined_path(dir, "test_case.toml"@) },
            )
            &&& test_case_at(replies, at) matches Some(FileRead::Parsed(file)) && f(
                replies,
            ) matches Outcome::Gives(case, _) && {
                &&& file.versions.len() > 0
                &&& file_name(dir) == Some(case.name)
                &&& case.versions == file.versions
                &&& case.extra_blocks_after_resync == file.extra_blocks_after_resync
                &&& case.soak_testing == file.soak_testing
                &&& match file.repo_url {
                    Some(url) => case.repo_url == url@,
                    None => case.repo_url == "https://github.com/Sovereign-Labs/rollup-starter"@,
                }
                &&& nodes_detected(
                    dir,
                    case.versions.len(),
                    "simple (config.toml)"@,
                    replies,
                    at + 1,
                ) matches Outcome::Gives(nodes, _) && nodes == case.nodes
                &&& forall|i: int, j: int|
                    0 <= i < j < case.nodes.len() ==> (#[trigger] case.nodes[i]).http_port != (
                    #[trigger] case.nodes[j]).http_port && !componentwise_equal(
                        case.nodes[i].storage_path,
                        case.nodes[j].storage_path,
                    )
            }
            &&& within(
                |r: Seq<HostReply>|
                    nodes_detected(
                        dir,
                        f(replies)->Gives_0.versions.len(),
                        "simple (config.toml)"@,
                        r,
                        at + 1,
                    ),
                f,
                replies,
                at + 1,
            )
        }),
{
    let f = |r: Seq<HostReply>| test_case_loaded(dir, r, at);
    assert(f(replies.take(at as int)) is Asks);
    let case = f(replies)->Gives_0;
    let keys = layout_keys(case.nodes);
    let conflict = reported_conflict_is_there(keys, 0);
    assert forall|i: int, j: int| 0 <= i < j < case.nodes.len() implies (
    #[trigger] case.nodes[i]).http_port != (#[trigger] case.nodes[j]).http_port
        && !componentwise_equal(case.nodes[i].storage_path, case.nodes[j].storage_path) by {
        assert(keys[i].1 != keys[j].1 && !componentwise_equal(keys[i].2, keys[j].2));
    }
    let g = |r: Seq<HostReply>|
        nodes_detected(dir, case.versions.len(), "simple (config.toml)"@, r, at + 1);
    assert forall|j: nat, call: HostCallView|
        at + 1 <= j && #[trigger] called(g, replies, j, call) implies called(
        f,
        replies,
        j,
        call,
    ) by {
        assert(replies.take(j as int)[at as int] == replies[at as int]);
        assert(test_case_at(replies.take(j as int), at) == test_case_at(replies, at));
    }
}

proof fn count_check_calls(
    root: Seq<char>,
    versions: nat,
    version: nat,
    replication: bool,
    replicas: usize,
    replies: Seq<HostReply>,
    at: nat,
    v: int,
) -> (k: nat)
    requires
        version <= v < versions,
        replies.len() <= usize::MAX,
        versions_checked(root, versions, version, replication, replicas, replies, at) is Gives,
    ensures
        at <= k,
        called(
            |r: Seq<HostReply>|
                versions_checked(root, versions, version, replication, replicas, r, at),
            replies,
            k,
            HostCallView::PathExists { path: config_file(root, v, true, replicas + 1) },
        ),
        flag_at(replies, k) == Some(false),
    decreases v - version,
{
    let f = |r: Seq<HostReply>|
        versions_checked(root, versions, version, replication, replicas, r, at);
    version_check_settles(root, version, replication, replicas, replies, at, replies.len());
    if v > version {
        let next = version_checked(root, version, replication, replicas, replies, at)->Gives_1;
        let k = count_check_calls(
            root,
            versions,
            version + 1,
            replication,
            replicas,
            replies,
            next,
            v,
        );
        let g = |r: Seq<HostReply>|
            versions_checked(root, versions, version + 1, replication, replicas, r, next);
        assert(g(replies.take(k as int)) is Asks);
        version_check_settles(root, version, replication, replicas, replies, at, k);
        assert(f(replies.take(k as int)) == g(replies.take(k as int)));
        k
    } else {
        let dir = version_dir(root, version);
        let count = replicas as nat;
        let found = configs_found(root, version, replication, count, 0, replies, at)->Gives_1;
        configs_settle(root, version, replication, count, 0, replies, at, replies.len());
        count_is_of_files(dir, 0, replies, found);
        let k = (found + replicas) as nat;
        count_calls(dir, 0, replies, found, replicas as int);
        let g = |r: Seq<HostReply>| replicas_counted(dir, 0, r, found);
        assert(g(replies.take(k as int)) is Asks);
        configs_settle(root, version, replication, count, 0, replies, at, k);
        assert(f(replies.take(k as int)) is Asks);
        k
    }
}

/// No version of a test case whose nodes are detected has a config file for one more replica.
pub proof fn no_version_has_more_replicas(
    root: Seq<char>,
    versions: nat,
    simple_mode: Seq<char>,
    replies: Seq<HostReply>,
    at: nat,
    v: int,
) -> (k: nat)
    requires
        0 <= v < versions,
        replies.len() <= usize::MAX,
        nodes_detected(root, versions, simple_mode, replies, at) is Gives,
    ensures
        nodes_detected(root, versions, simple_mode, replies, at) matches Outcome::Gives(nodes, _)
            && called(
            |r: Seq<HostReply>| nodes_detected(root, versions, simple_mode, r, at),
            replies,
            k,
            HostCallView::PathExists { path: config_file(root, v, true, nodes.len() as int) },
        ),
        flag_at(replies, k) == Some(false),
{
    let f = |r: Seq<HostReply>| nodes_detected(root, versions, simple_mode, r, at);
    let dir = version_dir(root, 0);
    let (mode, replicas) = mode_detected(dir, simple_mode, replies, at)->Gives_0;
    let n1 = mode_detected(dir, simple_mode, replies, at)->Gives_1;
    let n2 = versions_checked(root, versions, 0, mode, replicas, replies, n1)->Gives_1;
    node_list_keeps(root, versions, mode, replicas as nat, seq![], replies, n2);
    mode_settles(dir, simple_mode, replies, at, replies.len());
    let k = count_check_calls(root, versions, 0, mode, replicas, replies, n1, v);
    let g = |r: Seq<HostReply>| versions_checked(root, versions, 0, mode, replicas, r, n1);
    assert(g(replies.take(k as int)) is Asks);
    mode_settles(dir, simple_mode, replies, at, k);
    assert(f(replies.take(k as int)) is Asks);
    k
}

/// A layout is the nodes that are found in the directory: the first is the master and the others
/// are the replicas, in their order; it needs postgres exactly where there are replicas. A test
/// case without versions has none, and no two of its nodes share a port or a storage path.
pub proof fn layout_is_the_nodes_found(
    root: Seq<char>,
    versions: nat,
    replies: Seq<HostReply>,
    at: nat,
)
    ensures
        versions == 0 ==> (layout_detected(root, versions, replies, at) matches Outcome::Fails(e, _)
            && e is NoVersions),
        layout_detected(root, versions, replies, at) matches Outcome::Gives(layout, next) ==> {
            &&& versions > 0
            &&& nodes_detected(
                root,
                versions,
                "legacy (config.toml)"@,
                replies,
                at,
            ) matches Outcome::Gives(nodes, end) && {
                &&& end == next
                &&& layout.master == nodes[0]
                &&& layout.replicas.len() == nodes.len() - 1
                &&& forall|i: int|
                    0 <= i < layout.replicas.len() ==> #[trigger] layout.replicas[i] == nodes[i + 1]
                &&& layout.requires_postgres <==> nodes.len() > 1
                &&& forall|i: int, j: int|
                    0 <= i < j < nodes.len() ==> (#[trigger] nodes[i]).http_port != (
                    #[trigger] nodes[j]).http_port && !componentwise_equal(
                        nodes[i].storage_path,
                        nodes[j].storage_path,
                    )
            }
        },
{
    if let Outcome::Gives(nodes, _) = nodes_detected(
        root,
        versions,
        "legacy (config.toml)"@,
        replies,
        at,
    ) {
        let replication = mode_is_told_by_the_files(
            root,
            versions,
            "legacy (config.toml)"@,
            replies,
            at,
        );
        let keys = layout_keys(nodes);
        let conflict = reported_conflict_is_there(keys, 0);
        if first_conflict(keys, 0) is None {
            assert forall|i: int, j: int| 0 <= i < j < nodes.len() implies (
            #[trigger] nodes[i]).http_port != (#[trigger] nodes[j]).http_port
                && !componentwise_equal(nodes[i].storage_path, nodes[j].storage_path) by {
                assert(keys[i].1 != keys[j].1 && !componentwise_equal(keys[i].2, keys[j].2));
            }
        }
    }
}

/// A test case is loaded wherever its directory has a name, its file has been read and lists
/// versions, and its nodes are detected without a conflict; otherwise it fails with the reason.
pub proof fn test_case_is_loaded_where_all_is_in_order(
    dir: Seq<char>,
    replies: Seq<HostReply>,
    at: nat,
)
    ensures
        ({
            let result = test_case_loaded(dir, replies, at);
            let path = joined_path(dir, "test_case.toml"@);
            match (file_name(dir), test_case_at(replies, at)) {
                (None, _) => result == Outcome::<TestCaseView, TestCaseError<Seq<char>>>::Fails(
                    TestCaseError::InvalidDirName(dir),
                    at,
                ),
                (Some(_), None) => result is Asks,
                (Some(_), Some(FileRead::Unreadable(m))) => result == Outcome::<
                    TestCaseView,
                    TestCaseError<Seq<char>>,
                >::Fails(TestCaseError::ReadTestCase { path, source: m@ }, at + 1),
                (Some(_), Some(FileRead::Malformed(m))) => result == Outcome::<
                    TestCaseView,
                    TestCaseError<Seq<char>>,
                >::Fails(TestCaseError::ParseTestCase { path, source: m@ }, at + 1),
                (Some(_), Some(FileRead::Parsed(file))) => if file.versions.len() == 0 {
                    result matches Outcome::Fails(e, _) && e is NoVersions
                } else {
                    match nodes_detected(
                        dir,
                        file.versions.len(),
                        "simple (config.toml)"@,
                        replies,
                        at + 1,
                    ) {
                        Outcome::Asks(call, stop) => result == Outcome::<
                            TestCaseView,
                            TestCaseError<Seq<char>>,
                        >::Asks(call, stop),
                        Outcome::Fails(e, next) => result == Outcome::<
                            TestCaseView,
                            TestCaseError<Seq<char>>,
                        >::Fails(e, next),
                        Outcome::Gives(nodes, _) => match first_conflict(layout_keys(nodes), 0) {
                            Some(e) => result matches Outcome::Fails(failure, _) && failure == e,
                            None => result is Gives,
                        },
                    }
                },
            }
        }),
{
}

} // verus!

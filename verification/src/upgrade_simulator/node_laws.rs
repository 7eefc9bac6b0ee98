//! How the nodes of a test case are started, waited for and ended, and how they are resynced.
use vstd::prelude::*;

use crate::config::VersionView;
use crate::journal::{
    called, config_write_at, done_at, gives_at, node_exit_at, soak_end_at, spawned_at, ConfigWrite,
    HostCallView, HostReply, NodeExit, Outcome, SoakEnd,
};
use crate::path::joined_path;
use crate::process::{CommandView, ExitStatus};
use crate::soak_manager::{SoakManagerError, SoakManagerView};
use crate::text::decimal;
use crate::upgrade_simulator::docker::reset_statements;
use crate::upgrade_simulator::error::TestCaseError;
use crate::upgrade_simulator::node_runner::{
    name_of_node, node_spawned, nodes_awaited, nodes_spawned, registered_pids, with_processes,
    NodesView,
};
use crate::upgrade_simulator::phase_laws::resync_follows_clearing;
use crate::upgrade_simulator::replies_read::{clearing_settles, run_settles, statements_settle};
use crate::upgrade_simulator::run::{all_storage_cleared, run_soaked, PhasesView};

verus! {

/// Whether a procedure has, from position `k` on, written the manager config of node `n`, with
/// these versions, and started the node's manager on it, and both have worked.
pub open spec fn node_started<T, E>(
    procedure: spec_fn(Seq<HostReply>) -> Outcome<T, E>,
    replies: Seq<HostReply>,
    k: nat,
    nodes: NodesView,
    n: int,
    versions: Seq<VersionView>,
) -> bool {
    let name = nodes.names[n];
    let file = "manager_config_"@ + name + ".json"@;
    &&& called(
        procedure,
        replies,
        k,
        HostCallView::WriteManagerConfig { path: joined_path(nodes.run_dir, file), versions },
    )
    &&& config_write_at(replies, k) matches Some(ConfigWrite::Written)
    &&& called(
        procedure,
        replies,
        k + 1,
        HostCallView::Spawn {
            name,
            command: CommandView {
                program: nodes.manager_binary,
                args: seq!["-c"@, file, "--no-checkpoint-file"@, "--"@] + nodes.extra_args + seq![
                    "--metrics"@,
                    decimal((9845 + n) as nat),
                ],
                current_dir: Some(nodes.run_dir),
            },
        },
    )
    &&& spawned_at(replies, k + 1) matches Some(Ok(_))
}

/// The nodes' managers, where those before them are `done`.
spec fn spawning(
    nodes: NodesView,
    done: Seq<(Seq<char>, Option<u32>)>,
    replies: Seq<HostReply>,
    at: nat,
) -> Outcome<Seq<(Seq<char>, Option<u32>)>, TestCaseError<Seq<char>>> {
    nodes_spawned(
        nodes.manager_binary,
        nodes.versions,
        nodes.names,
        nodes.extra_args,
        nodes.run_dir,
        done,
        replies,
        at,
    )
}

proof fn start_calls(
    nodes: NodesView,
    done: Seq<(Seq<char>, Option<u32>)>,
    replies: Seq<HostReply>,
    at: nat,
    n: int,
)
    requires
        done.len() <= n < nodes.versions.len(),
        n < nodes.names.len(),
        spawning(nodes, done, replies, at) is Gives,
    ensures
        node_started(
            |r: Seq<HostReply>| spawning(nodes, done, r, at),
            replies,
            (at + 2 * (n - done.len())) as nat,
            nodes,
            n,
            nodes.versions[n],
        ),
        spawning(nodes, done, replies, at) matches Outcome::Gives(processes, next) && {
            &&& next == at + 2 * (nodes.versions.len() - done.len())
            &&& processes.len() == nodes.versions.len()
            &&& forall|j: int| 0 <= j < done.len() ==> processes[j] == done[j]
            &&& processes[n].0 == nodes.names[n]
            &&& spawned_at(replies, (at + 2 * (n - done.len()) + 1) as nat) matches Some(Ok(pid))
                && pid == processes[n].1
        },
    decreases nodes.versions.len() - done.len(),
{
    let m = done.len();
    let name = name_of_node(nodes.names, m);
    let f = |r: Seq<HostReply>| spawning(nodes, done, r, at);
    match node_spawned(
        nodes.manager_binary,
        name,
        m,
        nodes.versions[m as int],
        nodes.extra_args,
        nodes.run_dir,
        replies,
        at,
    ) {
        Outcome::Gives(pid, next) => {
            let more = done.push((name, pid));
            let k = (at + 2 * (n - m)) as nat;
            if n > m {
                start_calls(nodes, more, replies, next, n);
                let g = |r: Seq<HostReply>| spawning(nodes, more, r, next);
                assert(g(replies.take(k as int)) == f(replies.take(k as int)));
                assert(g(replies.take(k + 1int)) == f(replies.take(k + 1int)));
            } else {
                if n + 1 < nodes.versions.len() {
                    rest_of_the_nodes(nodes, more, replies, next);
                }
                assert(f(replies.take(k as int)) is Asks);
                assert(f(replies.take(k + 1int)) is Asks);
            }
            match spawning(nodes, done, replies, at) {
                Outcome::Gives(processes, _) => {
                    assert(processes == (spawning(nodes, more, replies, next)->Gives_0));
                    assert forall|j: int| 0 <= j < done.len() implies processes[j] == done[j] by {
                        assert(processes[j] == more[j]);
                    }
                    if n == m {
                        assert(processes[n] == more[n]);
                    }
                },
                _ => {},
            }
        },
        _ => {},
    }
}

proof fn rest_of_the_nodes(
    nodes: NodesView,
    done: Seq<(Seq<char>, Option<u32>)>,
    replies: Seq<HostReply>,
    at: nat,
)
    requires
        done.len() <= nodes.versions.len(),
        spawning(nodes, done, replies, at) is Gives,
    ensures
        spawning(nodes, done, replies, at) matches Outcome::Gives(processes, next) && {
            &&& next == at + 2 * (nodes.versions.len() - done.len())
            &&& processes.len() == nodes.versions.len()
            &&& forall|j: int| 0 <= j < done.len() ==> processes[j] == done[j]
        },
    decreases nodes.versions.len() - done.len(),
{
    let m = done.len();
    let name = name_of_node(nodes.names, m);
    if m < nodes.versions.len() {
        match node_spawned(
            nodes.manager_binary,
            name,
            m,
            nodes.versions[m as int],
            nodes.extra_args,
            nodes.run_dir,
            replies,
            at,
        ) {
            Outcome::Gives(pid, next) => {
                let more = done.push((name, pid));
                rest_of_the_nodes(nodes, more, replies, next);
                match spawning(nodes, done, replies, at) {
                    Outcome::Gives(processes, _) => {
                        assert forall|j: int| 0 <= j < m implies processes[j] == done[j] by {
                            assert(processes[j] == more[j]);
                        }
                    },
                    _ => {},
                }
            },
            _ => {},
        }
    }
}

/// Every node is started, in order: its own versions are written to its manager config in the run
/// directory, and its manager is started there on that file, without a checkpoint file, with the
/// extra arguments and a metrics port of its own. Each process is kept under its node's name.
pub proof fn every_node_is_started(
    nodes: NodesView,
    notify_soak: bool,
    registry: Seq<(Seq<char>, u32)>,
    replies: Seq<HostReply>,
    at: nat,
    n: int,
)
    requires
        0 <= n < nodes.versions.len(),
        n < nodes.names.len(),
        nodes.spawned(replies, at) is Gives,
    ensures
        node_started(
            |r: Seq<HostReply>| nodes.run(notify_soak, registry, r, at),
            replies,
            (at + 2 * n) as nat,
            nodes,
            n,
            nodes.versions[n],
        ),
        nodes.spawned(replies, at) matches Outcome::Gives(processes, next) && {
            &&& next == at + 2 * nodes.versions.len()
            &&& processes.len() == nodes.versions.len()
            &&& processes[n].0 == nodes.names[n]
            &&& spawned_at(replies, (at + 2 * n + 1) as nat) matches Some(Ok(pid)) && pid
                == processes[n].1
        },
{
    start_calls(nodes, seq![], replies, at, n);
    let f = |r: Seq<HostReply>| nodes.run(notify_soak, registry, r, at);
    let g = |r: Seq<HostReply>| spawning(nodes, seq![], r, at);
    let k = at + 2 * n;
    assert(g(replies.take(k)) is Asks && f(replies.take(k)) is Asks);
    assert(g(replies.take(k + 1)) is Asks && f(replies.take(k + 1)) is Asks);
}

/// The processes that have been started are all known afterwards, and so are those that were known
/// before.
pub proof fn started_processes_are_known(
    registry: Seq<(Seq<char>, u32)>,
    processes: Seq<(Seq<char>, Option<u32>)>,
)
    ensures
        forall|i: int|
            0 <= i < registry.len() ==> registered_pids(
                with_processes(registry, processes),
            ).contains((#[trigger] registry[i]).1),
        forall|n: int|
            0 <= n < processes.len() ==> ((#[trigger] processes[n]).1 matches Some(pid)
                ==> registered_pids(with_processes(registry, processes)).contains(pid)),
    decreases processes.len(),
{
    let all = with_processes(registry, processes);
    if processes.len() == 0 {
        assert forall|i: int| 0 <= i < registry.len() implies registered_pids(all).contains(
            (#[trigger] registry[i]).1,
        ) by {
            assert(registered_pids(all)[i] == registry[i].1);
        }
    } else {
        let rest = processes.drop_last();
        let earlier = with_processes(registry, rest);
        started_processes_are_known(registry, rest);
        assert forall|pid: u32| registered_pids(earlier).contains(pid) implies registered_pids(
            all,
        ).contains(pid) by {
            let i = choose|i: int|
                0 <= i < registered_pids(earlier).len() && registered_pids(earlier)[i] == pid;
            assert(registered_pids(all)[i] == pid);
        }
        assert forall|n: int| 0 <= n < processes.len() implies ((
        #[trigger] processes[n]).1 matches Some(pid) ==> registered_pids(all).contains(pid)) by {
            if n < rest.len() {
                assert(rest[n] == processes[n]);
            } else if let Some(pid) = processes[n].1 {
                assert(registered_pids(all)[earlier.len() as int] == pid);
            }
        }
    }
}

/// A node that has exited with success leaves the others to be waited for; one that has failed, or
/// that could not be waited for, ends the wait with its error, once all processes have been asked
/// to terminate, have had five seconds for that, and have been given up on.
pub proof fn first_failure_ends_the_wait(
    pids: Seq<u32>,
    name: String,
    outcome: Result<ExitStatus, String>,
    replies: Seq<HostReply>,
    at: nat,
)
    requires
        node_exit_at(replies, at) == Some(NodeExit::Exited { name, outcome }),
    ensures
        outcome == Ok::<ExitStatus, String>(ExitStatus::Exited(0)) ==> nodes_awaited(
            pids,
            replies,
            at,
        ) == nodes_awaited(pids, replies, at + 1),
        outcome != Ok::<ExitStatus, String>(ExitStatus::Exited(0)) ==> {
            let f = |r: Seq<HostReply>| nodes_awaited(pids, r, at);
            &&& replies.len() > at + 1 ==> called(
                f,
                replies,
                at + 1,
                HostCallView::Terminate { pids },
            )
            &&& replies.len() > at + 2 && done_at(replies, at + 1) ==> called(
                f,
                replies,
                at + 2,
                HostCallView::Sleep { millis: 5000 },
            )
            &&& replies.len() > at + 3 && done_at(replies, at + 1) && done_at(replies, at + 2)
                ==> called(f, replies, at + 3, HostCallView::AbortNodes)
            &&& done_at(replies, at + 1) && done_at(replies, at + 2) && done_at(replies, at + 3)
                ==> nodes_awaited(pids, replies, at) == Outcome::<
                Option<TestCaseError<Seq<char>>>,
                TestCaseError<Seq<char>>,
            >::Gives(
                Some(
                    match outcome {
                        Ok(status) => TestCaseError::ManagerNonZeroExit { node_type: name@, status },
                        Err(m) => TestCaseError::ManagerWait { node_type: name@, source: m@ },
                    },
                ),
                at + 4,
            )
        },
{
    let f = |r: Seq<HostReply>| nodes_awaited(pids, r, at);
    if replies.len() > at + 1 {
        assert(replies.take(at + 1int)[at as int] == replies[at as int]);
        assert(node_exit_at(replies.take(at + 1int), at) == node_exit_at(replies, at));
        assert(!done_at(replies.take(at + 1int), at + 1));
    }
    if replies.len() > at + 2 {
        assert(node_exit_at(replies.take(at + 2int), at) == node_exit_at(replies, at));
        assert(done_at(replies.take(at + 2int), at + 1) == done_at(replies, at + 1));
    }
    if replies.len() > at + 3 {
        assert(node_exit_at(replies.take(at + 3int), at) == node_exit_at(replies, at));
        assert(done_at(replies.take(at + 3int), at + 1) == done_at(replies, at + 1));
        assert(done_at(replies.take(at + 3int), at + 2) == done_at(replies, at + 2));
    }
}

/// A soak test is started before the nodes, on its own versions and the given API; what it fails
/// with is what a run of nodes that have succeeded fails with.
pub proof fn soak_runs_beside_the_nodes(
    nodes: NodesView,
    soak: SoakManagerView,
    api_url: Seq<char>,
    registry: Seq<(Seq<char>, u32)>,
    replies: Seq<HostReply>,
    at: nat,
    over: nat,
)
    requires
        at < replies.len(),
    ensures
        called(
            |r: Seq<HostReply>| run_soaked(nodes, Some(soak), api_url, registry, r, at),
            replies,
            at,
            HostCallView::StartSoak { soak, api_url },
        ),
        done_at(replies, at) && gives_at(nodes.run(true, registry, replies, at + 1), over) ==> match (
            soak_end_at(replies, over),
            run_soaked(nodes, Some(soak), api_url, registry, replies, at),
        ) {
            (
                Some(SoakEnd::Failed(SoakManagerError::SoakTestFailed { exit_code: code })),
                result,
            ) => result matches Outcome::Fails(TestCaseError::SoakTestFailed { exit_code }, _)
                && exit_code == code,
            (
                Some(SoakEnd::Failed(SoakManagerError::SoakTestStartFailed(message))),
                result,
            ) => result matches Outcome::Fails(TestCaseError::SoakTestStartFailed(m), _) && m
                == message@,
            (Some(_), result) => result is Gives,
            (None, result) => result matches Outcome::Asks(
                HostCallView::AwaitSoak { timeout_millis },
                _,
            ) && timeout_millis == 5000,
        },
{
    let f = |r: Seq<HostReply>| run_soaked(nodes, Some(soak), api_url, registry, r, at);
    assert(f(replies.take(at as int)) is Asks);
}

/// Whether versions are those of an initial run, as they are to be run again: the same binaries,
/// config files, migrations and heights, but for the last stop height, which is later by the extra
/// blocks.
pub open spec fn reruns(
    again: Seq<VersionView>,
    versions: Seq<VersionView>,
    extra_blocks: u64,
) -> bool {
    &&& again.len() == versions.len()
    &&& forall|i: int|
        0 <= i < versions.len() ==> {
            &&& (#[trigger] again[i]).rollup_binary == versions[i].rollup_binary
            &&& again[i].config_path == versions[i].config_path
            &&& again[i].migration_path == versions[i].migration_path
            &&& again[i].start_height == versions[i].start_height
            &&& i < versions.len() - 1 ==> again[i].stop_height == versions[i].stop_height
            &&& i == versions.len() - 1 ==> match versions[i].stop_height {
                None => again[i].stop_height is None,
                Some(stop) => again[i].stop_height matches Some(later) && later == stop
                    + extra_blocks,
            }
        }
}

/// The resync runs the same nodes through the same versions, the last one longer by the extra
/// blocks; its soak test, where there are extra blocks, is the last version's alone, up to the
/// later height, with as many workers and with salts from behind those of all versions on.
pub proof fn resync_reruns_every_version(phases: PhasesView, n: int)
    requires
        phases.representable(),
        0 <= n < phases.nodes.versions.len(),
    ensures
        ({
            let nodes = phases.resync_nodes();
            &&& nodes.manager_binary == phases.nodes.manager_binary
            &&& nodes.names == phases.nodes.names
            &&& nodes.extra_args == phases.nodes.extra_args
            &&& nodes.run_dir == phases.nodes.run_dir
            &&& nodes.versions.len() == phases.nodes.versions.len()
            &&& reruns(nodes.versions[n], phases.nodes.versions[n], phases.extra_blocks)
        }),
        match phases.soak {
            Some(soak) if phases.extra_blocks > 0 && 0 < soak.versions.len() <= u32::MAX => {
                phases.resync_soak() matches Some(again) && {
                    let last = soak.versions[soak.versions.len() - 1];
                    &&& again.config.num_workers == soak.config.num_workers
                    &&& again.config.salt == soak.config.salt + soak.config.num_workers
                        * soak.versions.len()
                    &&& again.versions.len() == 1
                    &&& again.versions[0].0 == last.0
                    &&& again.versions[0].1 == last.1 + phases.extra_blocks
                }
            },
            Some(soak) if soak.versions.len() <= u32::MAX => phases.resync_soak() is None,
            Some(_) => true,
            None => phases.resync_soak() is None,
        },
{
    let versions = phases.nodes.versions[n];
    assert(crate::upgrade_simulator::run::stop_representable(versions, phases.extra_blocks));
    if let Some(soak) = phases.soak {
        assert(0 <= soak.config.num_workers * soak.versions.len()) by (nonlinear_arith);
    }
}

/// A test that has been through both phases has started every node twice: in the initial run on the
/// node's own versions, and again in the resync, after the initial run has ended, on the versions
/// to be run again.
pub proof fn both_phases_start_every_node(
    phases: PhasesView,
    registry: Seq<(Seq<char>, u32)>,
    replies: Seq<HostReply>,
    at: nat,
    ran: nat,
    n: int,
) -> (starts: (nat, nat))
    requires
        phases.representable(),
        0 <= n < phases.nodes.versions.len(),
        n < phases.nodes.names.len(),
        gives_at(phases.initial(registry, replies, at), ran),
        phases.run(registry, replies, at) is Gives,
    ensures
        ({
            let run = |r: Seq<HostReply>| phases.run(registry, r, at);
            let (first, again) = starts;
            &&& at <= first < ran <= again
            &&& node_started(run, replies, first, phases.nodes, n, phases.nodes.versions[n])
            &&& exists|versions: Seq<VersionView>|
                reruns(versions, phases.nodes.versions[n], phases.extra_blocks)
                    && #[trigger] node_started(run, replies, again, phases.nodes, n, versions)
        }),
{
    let run = |r: Seq<HostReply>| phases.run(registry, r, at);
    let cleared = resync_follows_clearing(phases, registry, replies, at, ran);
    resync_reruns_every_version(phases, n);
    let nodes = phases.nodes;
    let later = phases.resync_nodes();
    let k = run_starts(nodes, phases.soak, phases.api_url, registry, replies, at, n);
    let l = run_starts(
        later,
        phases.resync_soak(),
        phases.api_url,
        seq![],
        replies,
        cleared + 3,
        n,
    );
    initial_lifts(phases, registry, replies, at, k, n);
    resync_lifts(phases, registry, replies, at, ran, cleared, l, n);
    assert(node_started(run, replies, l, nodes, n, later.versions[n]));
    (k, l)
}

proof fn initial_lifts(
    phases: PhasesView,
    registry: Seq<(Seq<char>, u32)>,
    replies: Seq<HostReply>,
    at: nat,
    k: nat,
    n: int,
)
    requires
        node_started(
            |r: Seq<HostReply>|
                run_soaked(phases.nodes, phases.soak, phases.api_url, registry, r, at),
            replies,
            k,
            phases.nodes,
            n,
            phases.nodes.versions[n],
        ),
    ensures
        node_started(
            |r: Seq<HostReply>| phases.run(registry, r, at),
            replies,
            k,
            phases.nodes,
            n,
            phases.nodes.versions[n],
        ),
{
    let f = |r: Seq<HostReply>|
        run_soaked(phases.nodes, phases.soak, phases.api_url, registry, r, at);
    let run = |r: Seq<HostReply>| phases.run(registry, r, at);
    lift_start(f, run, replies, k, phases.nodes, n, phases.nodes.versions[n]);
}

proof fn resync_lifts(
    phases: PhasesView,
    registry: Seq<(Seq<char>, u32)>,
    replies: Seq<HostReply>,
    at: nat,
    ran: nat,
    cleared: nat,
    k: nat,
    n: int,
)
    requires
        gives_at(phases.initial(registry, replies, at), ran),
        gives_at(
            all_storage_cleared(phases.nodes.run_dir, phases.layout, replies, ran),
            cleared,
        ),
        gives_at(
            phases.container.all_sql_executed(reset_statements(), replies, cleared),
            cleared + 3,
        ),
        ran <= cleared,
        cleared + 3 <= k,
        node_started(
            |r: Seq<HostReply>|
                run_soaked(
                    phases.resync_nodes(),
                    phases.resync_soak(),
                    phases.api_url,
                    seq![],
                    r,
                    cleared + 3,
                ),
            replies,
            k,
            phases.resync_nodes(),
            n,
            phases.resync_nodes().versions[n],
        ),
    ensures
        node_started(
            |r: Seq<HostReply>| phases.run(registry, r, at),
            replies,
            k,
            phases.nodes,
            n,
            phases.resync_nodes().versions[n],
        ),
{
    let later = phases.resync_nodes();
    let g = |r: Seq<HostReply>|
        run_soaked(later, phases.resync_soak(), phases.api_url, seq![], r, cleared + 3);
    let run = |r: Seq<HostReply>| phases.run(registry, r, at);
    assert forall|j: nat, call: HostCallView|
        k <= j && called(g, replies, j, call) implies #[trigger] called(
        run,
        replies,
        j,
        call,
    ) by {
        resync_asks(phases, registry, replies, at, ran, cleared, j, call);
    }
    lift_start(g, run, replies, k, later, n, later.versions[n]);
}

/// Where a run with a soak test beside the nodes starts node `n`.
proof fn run_starts(
    nodes: NodesView,
    soak: Option<SoakManagerView>,
    api_url: Seq<char>,
    registry: Seq<(Seq<char>, u32)>,
    replies: Seq<HostReply>,
    at: nat,
    n: int,
) -> (k: nat)
    requires
        0 <= n < nodes.versions.len(),
        n < nodes.names.len(),
        run_soaked(nodes, soak, api_url, registry, replies, at) is Gives,
    ensures
        at <= k,
        run_soaked(nodes, soak, api_url, registry, replies, at) matches Outcome::Gives(_, next) && k
            < next,
        node_started(
            |r: Seq<HostReply>| run_soaked(nodes, soak, api_url, registry, r, at),
            replies,
            k,
            nodes,
            n,
            nodes.versions[n],
        ),
{
    let notify = soak is Some;
    let start: nat = if notify {
        at + 1
    } else {
        at
    };
    spawn_ends_before(nodes, notify, registry, replies, start);
    every_node_is_started(nodes, notify, registry, replies, start, n);
    let k = (start + 2 * n) as nat;
    let f = |r: Seq<HostReply>| nodes.run(notify, registry, r, start);
    let g = |r: Seq<HostReply>| run_soaked(nodes, soak, api_url, registry, r, at);
    assert forall|j: nat, call: HostCallView|
        k <= j && called(f, replies, j, call) implies #[trigger] called(g, replies, j, call) by {
        soaked_asks(nodes, soak, api_url, registry, replies, at, j, call);
    }
    lift_start(f, g, replies, k, nodes, n, nodes.versions[n]);
    k
}

/// What the nodes ask for, a run with a soak test beside them asks for.
proof fn soaked_asks(
    nodes: NodesView,
    soak: Option<SoakManagerView>,
    api_url: Seq<char>,
    registry: Seq<(Seq<char>, u32)>,
    replies: Seq<HostReply>,
    at: nat,
    j: nat,
    call: HostCallView,
)
    requires
        soak is Some ==> done_at(replies, at) && at < j,
        j <= replies.len(),
        nodes.run(
            soak is Some,
            registry,
            replies.take(j as int),
            if soak is Some {
                at + 1
            } else {
                at
            },
        ) == Outcome::<(), TestCaseError<Seq<char>>>::Asks(call, j),
    ensures
        run_soaked(nodes, soak, api_url, registry, replies.take(j as int), at) == Outcome::<
            (),
            TestCaseError<Seq<char>>,
        >::Asks(call, j),
{
}

/// What the resync asks for, the test asks for.
pub(crate) proof fn resync_asks(
    phases: PhasesView,
    registry: Seq<(Seq<char>, u32)>,
    replies: Seq<HostReply>,
    at: nat,
    ran: nat,
    cleared: nat,
    j: nat,
    call: HostCallView,
)
    requires
        gives_at(phases.initial(registry, replies, at), ran),
        gives_at(
            all_storage_cleared(phases.nodes.run_dir, phases.layout, replies, ran),
            cleared,
        ),
        gives_at(
            phases.container.all_sql_executed(reset_statements(), replies, cleared),
            cleared + 3,
        ),
        ran <= cleared,
        cleared + 3 <= j <= replies.len(),
        run_soaked(
            phases.resync_nodes(),
            phases.resync_soak(),
            phases.api_url,
            seq![],
            replies.take(j as int),
            cleared + 3,
        ) == Outcome::<(), TestCaseError<Seq<char>>>::Asks(call, j),
    ensures
        phases.run(registry, replies.take(j as int), at) == Outcome::<
            (),
            TestCaseError<Seq<char>>,
        >::Asks(call, j),
{
    run_settles(phases.nodes, phases.soak, phases.api_url, registry, replies, at, j);
    clearing_settles(phases.nodes.run_dir, phases.layout, replies, ran, j);
    statements_settle(phases.container, reset_statements(), replies, cleared, j);
}

proof fn spawn_ends_before(
    nodes: NodesView,
    notify_soak: bool,
    registry: Seq<(Seq<char>, u32)>,
    replies: Seq<HostReply>,
    at: nat,
)
    ensures
        nodes.run(notify_soak, registry, replies, at) matches Outcome::Gives(_, next) ==> (
        nodes.spawned(replies, at) matches Outcome::Gives(_, started) && started < next),
{
    crate::upgrade_simulator::node_runner::success_means_every_node_succeeded(
        nodes,
        notify_soak,
        registry,
        replies,
        at,
    );
}

proof fn lift_start<T, E, U, F>(
    inner: spec_fn(Seq<HostReply>) -> Outcome<T, E>,
    outer: spec_fn(Seq<HostReply>) -> Outcome<U, F>,
    replies: Seq<HostReply>,
    k: nat,
    nodes: NodesView,
    n: int,
    versions: Seq<VersionView>,
)
    requires
        node_started(inner, replies, k, nodes, n, versions),
        forall|j: nat, call: HostCallView|
            k <= j && called(inner, replies, j, call) ==> #[trigger] called(
                outer,
                replies,
                j,
                call,
            ),
    ensures
        node_started(outer, replies, k, nodes, n, versions),
{
}

/// A soak test is waited for however its nodes have ended: a run whose nodes have failed asks for
/// the soak test's end, gives it five seconds, and fails with what the nodes have failed with only
/// once that is known.
pub proof fn soak_is_always_waited_for(
    nodes: NodesView,
    soak: SoakManagerView,
    api_url: Seq<char>,
    registry: Seq<(Seq<char>, u32)>,
    replies: Seq<HostReply>,
    at: nat,
    over: nat,
)
    requires
        done_at(replies, at),
        nodes.run(true, registry, replies, at + 1) matches Outcome::Fails(_, next) && next == over,
    ensures
        match run_soaked(nodes, Some(soak), api_url, registry, replies, at) {
            Outcome::Asks(call, stop) => soak_end_at(replies, over) is None && stop == over && call
                == (HostCallView::AwaitSoak { timeout_millis: 5000 }),
            Outcome::Fails(_, next) => soak_end_at(replies, over) is Some && next == over + 1,
            Outcome::Gives(_, _) => false,
        },
{
}

/// The processes that a test knows of while its nodes run are those that it knew of before and all
/// that the nodes have been started as; the resync, once begun, knows of its own.
pub proof fn running_processes_are_known(
    phases: PhasesView,
    registry: Seq<(Seq<char>, u32)>,
    replies: Seq<HostReply>,
    at: nat,
    n: int,
    pid: u32,
)
    ensures
        ({
            let start: nat = if phases.soak is Some {
                at + 1
            } else {
                at
            };
            let known = registered_pids(phases.registry_after(registry, replies, at));
            phases.initial(registry, replies, at) !is Gives && (phases.soak is Some ==> done_at(
                replies,
                at,
            )) && (phases.nodes.spawned(replies, start) matches Outcome::Gives(processes, _) && 0
                <= n < processes.len() && processes[n].1 == Some(pid)) ==> known.contains(pid)
        }),
        ({
            let known = registered_pids(phases.registry_after(registry, replies, at));
            phases.initial(registry, replies, at) matches Outcome::Gives(_, ran) ==> (
            phases.state_cleared(replies, ran) matches Outcome::Gives(_, cleared) ==> {
                let start: nat = if phases.resync_soak() is Some {
                    cleared + 1
                } else {
                    cleared
                };
                (phases.resync_soak() is Some ==> done_at(replies, cleared)) && (
                phases.resync_nodes().spawned(replies, start) matches Outcome::Gives(processes, _)
                    && 0 <= n < processes.len() && processes[n].1 == Some(pid)) ==> known.contains(
                    pid,
                )
            })
        }),
{
    let start: nat = if phases.soak is Some {
        at + 1
    } else {
        at
    };
    if let Outcome::Gives(processes, _) = phases.nodes.spawned(replies, start) {
        started_processes_are_known(registry, processes);
    }
    if let Outcome::Gives(_, ran) = phases.initial(registry, replies, at) {
        if let Outcome::Gives(_, cleared) = phases.state_cleared(replies, ran) {
            let later: nat = if phases.resync_soak() is Some {
                cleared + 1
            } else {
                cleared
            };
            if let Outcome::Gives(processes, _) = phases.resync_nodes().spawned(replies, later) {
                started_processes_are_known(seq![], processes);
            }
        }
    }
}

/// A node whose task has panicked ends the wait like one that has failed. A node that was given no
/// name goes by its number.
pub proof fn panicked_node_ends_the_wait(
    pids: Seq<u32>,
    message: String,
    replies: Seq<HostReply>,
    at: nat,
    names: Seq<Seq<char>>,
    n: nat,
)
    requires
        node_exit_at(replies, at) == Some(NodeExit::Panicked(message)),
        done_at(replies, at + 1),
        done_at(replies, at + 2),
        done_at(replies, at + 3),
    ensures
        nodes_awaited(pids, replies, at) matches Outcome::Gives(
            Some(TestCaseError::NodeTaskPanic { node_type, source }),
            next,
        ) && source == message@ && node_type == "unknown"@ && next == at + 4,
        n >= names.len() ==> name_of_node(names, n) == "node_"@ + decimal(n),
        n < names.len() ==> name_of_node(names, n) == names[n as int],
{
}

proof fn waiting_ends_with_the_last_exit(
    pids: Seq<u32>,
    replies: Seq<HostReply>,
    at: nat,
    over: nat,
)
    requires
        at <= over,
        node_exit_at(replies, over) == Some(NodeExit::NoneLeft),
        forall|k: nat| at <= k < over ==> #[trigger] exited_well(replies, k),
    ensures
        nodes_awaited(pids, replies, at) == Outcome::<
            Option<TestCaseError<Seq<char>>>,
            TestCaseError<Seq<char>>,
        >::Gives(None, over + 1),
    decreases over - at,
{
    if at < over {
        assert(exited_well(replies, at));
        waiting_ends_with_the_last_exit(pids, replies, at + 1, over);
    }
}

/// Whether the reply at a position is that a node has exited with success.
pub open spec fn exited_well(replies: Seq<HostReply>, k: nat) -> bool {
    node_exit_at(replies, k) matches Some(NodeExit::Exited { outcome: Ok(status), .. }) && status
        == ExitStatus::Exited(0)
}

/// Nodes that have all been started and have all exited with success have run successfully, once
/// the soak test, where there is one, has been told; without a soak test that is the whole run.
pub proof fn nodes_that_succeed_give_success(
    nodes: NodesView,
    notify_soak: bool,
    api_url: Seq<char>,
    registry: Seq<(Seq<char>, u32)>,
    replies: Seq<HostReply>,
    at: nat,
    started: nat,
    over: nat,
)
    requires
        gives_at(nodes.spawned(replies, at), started),
        started <= over,
        forall|k: nat| started <= k < over ==> #[trigger] exited_well(replies, k),
        node_exit_at(replies, over) == Some(NodeExit::NoneLeft),
        notify_soak ==> done_at(replies, over + 1),
    ensures
        gives_at(
            nodes.run(notify_soak, registry, replies, at),
            if notify_soak {
                over + 2
            } else {
                over + 1
            },
        ),
        !notify_soak ==> gives_at(
            run_soaked(nodes, None, api_url, registry, replies, at),
            over + 1,
        ),
{
    let processes = nodes.spawned(replies, at)->Gives_0;
    let pids = registered_pids(with_processes(registry, processes));
    waiting_ends_with_the_last_exit(pids, replies, started, over);
}

} // verus!

//! What a test case asks of its host, and in which order.
//!
//! A procedure has made a call after `k` replies where, on those replies alone, it stops at that
//! call. The laws below say which calls have been made, and what the host has replied to them, by
//! the time a test case has come to a given point.
use vstd::prelude::*;

use crate::journal::{
    called, flag_at, gives_at, succeeded, within, worked, HostCallView, HostReply, Outcome,
};
use crate::path::joined_path;
use crate::process::CommandView;
use crate::upgrade_simulator::docker::{reset_statements, ContainerView, DockerError};
use crate::upgrade_simulator::error::TestCaseError;
use crate::upgrade_simulator::node_config::NodeView;
use crate::upgrade_simulator::replies_read::{clearing_settles, run_settles};
use crate::upgrade_simulator::run::{all_storage_cleared, run_soaked, storage_cleared, PhasesView};

verus! {

/// Whether a procedure has had a directory removed, if it was there, and made again, in the calls
/// from position `k` on.
pub open spec fn remade<T, E>(
    procedure: spec_fn(Seq<HostReply>) -> Outcome<T, E>,
    replies: Seq<HostReply>,
    k: nat,
    dir: Seq<char>,
) -> bool {
    &&& called(procedure, replies, k, HostCallView::PathExists { path: dir })
    &&& match flag_at(replies, k) {
        None => false,
        Some(true) => {
            &&& called(procedure, replies, k + 1, HostCallView::RemoveDirAll { path: dir })
            &&& worked(replies, k + 1)
            &&& called(procedure, replies, k + 2, HostCallView::CreateDirAll { path: dir })
            &&& worked(replies, k + 2)
        },
        Some(false) => {
            &&& called(procedure, replies, k + 1, HostCallView::CreateDirAll { path: dir })
            &&& worked(replies, k + 1)
        },
    }
}

/// What a part of a procedure has had removed and made again, the procedure has.
pub(crate) proof fn lift_remade<T, E, U, F>(
    inner: spec_fn(Seq<HostReply>) -> Outcome<T, E>,
    outer: spec_fn(Seq<HostReply>) -> Outcome<U, F>,
    replies: Seq<HostReply>,
    at: nat,
    k: nat,
    dir: Seq<char>,
)
    requires
        at <= k,
        within(inner, outer, replies, at),
        remade(inner, replies, k, dir),
    ensures
        remade(outer, replies, k, dir),
{
}

/// Where the clearing of the storage makes the calls for node `i`.
pub(crate) proof fn clearing_calls(
    run_dir: Seq<char>,
    nodes: Seq<NodeView>,
    replies: Seq<HostReply>,
    at: nat,
    i: int,
) -> (k: nat)
    requires
        0 <= i < nodes.len(),
        all_storage_cleared(run_dir, nodes, replies, at) is Gives,
    ensures
        at <= k,
        remade(
            |r: Seq<HostReply>| all_storage_cleared(run_dir, nodes, r, at),
            replies,
            k,
            joined_path(run_dir, nodes[i].storage_path),
        ),
        all_storage_cleared(run_dir, nodes, replies, at) matches Outcome::Gives(_, next) && k + 1
            < next && (flag_at(replies, k) == Some(true) ==> k + 2 < next),
    decreases nodes.len(),
{
    let dir = joined_path(run_dir, nodes[0].storage_path);
    let f = |r: Seq<HostReply>| all_storage_cleared(run_dir, nodes, r, at);
    match storage_cleared(dir, replies, at) {
        Outcome::Gives(_, next) => {
            let rest = nodes.skip(1);
            clearing_settles(run_dir, rest, replies, next, replies.len());
            if i == 0 {
                assert(called(f, replies, at, HostCallView::PathExists { path: dir }));
                if flag_at(replies, at) == Some(true) {
                    assert(called(f, replies, at + 1, HostCallView::RemoveDirAll { path: dir }));
                    assert(called(f, replies, at + 2, HostCallView::CreateDirAll { path: dir }));
                } else {
                    assert(called(f, replies, at + 1, HostCallView::CreateDirAll { path: dir }));
                }
                at
            } else {
                let k = clearing_calls(run_dir, rest, replies, next, i - 1);
                let g = |r: Seq<HostReply>| all_storage_cleared(run_dir, rest, r, next);
                assert(rest[i - 1] == nodes[i]);
                assert forall|j: nat, call: HostCallView|
                    k <= j && #[trigger] called(g, replies, j, call) implies called(
                    f,
                    replies,
                    j,
                    call,
                ) by {
                    assert(storage_cleared(dir, replies.take(j as int), at) == storage_cleared(
                        dir,
                        replies,
                        at,
                    ));
                }
                lift_remade(
                    g,
                    f,
                    replies,
                    k,
                    k,
                    joined_path(run_dir, nodes[i].storage_path),
                );
                k
            }
        },
        _ => 0,
    }
}

/// Whether a test has come to its resync: it asks for something that only a run of the nodes asks
/// for, or has come to a good end.
pub open spec fn resync_begun(outcome: Outcome<(), TestCaseError<Seq<char>>>) -> bool {
    match outcome {
        Outcome::Asks(call, _) => call is StartSoak || call is WriteManagerConfig || call is Spawn
            || call is NextExit || call is Terminate || call is Sleep || call is AbortNodes
            || call is NotifySoak || call is AwaitSoak,
        Outcome::Fails(_, _) => false,
        Outcome::Gives(_, _) => true,
    }
}

/// The command that has the test's database execute a statement.
pub open spec fn sql(container: ContainerView, statement: Seq<char>) -> CommandView {
    CommandView {
        program: "docker"@,
        args: seq![
            "exec"@,
            container.container_name,
            "psql"@,
            "-U"@,
            "postgres"@,
            "-c"@,
            statement,
        ],
        current_dir: None,
    }
}

pub(crate) proof fn resync_follows_clearing(
    phases: PhasesView,
    registry: Seq<(Seq<char>, u32)>,
    replies: Seq<HostReply>,
    at: nat,
    ran: nat,
) -> (cleared: nat)
    requires
        gives_at(phases.initial(registry, replies, at), ran),
        resync_begun(phases.run(registry, replies, at)),
    ensures
        gives_at(
            all_storage_cleared(phases.nodes.run_dir, phases.layout, replies, ran),
            cleared,
        ),
        gives_at(
            phases.container.all_sql_executed(reset_statements(), replies, cleared),
            cleared + 3,
        ),
        phases.run(registry, replies, at) == run_soaked(
            phases.resync_nodes(),
            phases.resync_soak(),
            phases.api_url,
            seq![],
            replies,
            cleared + 3,
        ),
        ran <= cleared,
        cleared + 3 <= replies.len(),
{
    no_clearing_call(phases.nodes.run_dir, phases.layout, replies, ran);
    clearing_settles(phases.nodes.run_dir, phases.layout, replies, ran, 0);
    match all_storage_cleared(phases.nodes.run_dir, phases.layout, replies, ran) {
        Outcome::Gives(_, cleared) => {
            reset_calls(phases.container, replies, cleared);
            cleared
        },
        _ => 0,
    }
}

/// The calls by which the sequencer's database is reset.
proof fn reset_calls(container: ContainerView, replies: Seq<HostReply>, at: nat)
    ensures
        container.all_sql_executed(reset_statements(), replies, at) is Gives ==> {
            &&& gives_at(container.all_sql_executed(reset_statements(), replies, at), at + 3)
            &&& at + 3 <= replies.len()
            &&& succeeded(replies, at)
            &&& succeeded(replies, at + 1)
            &&& succeeded(replies, at + 2)
        },
        container.all_sql_executed(reset_statements(), replies, at) matches Outcome::Asks(
            call,
            _,
        ) ==> call is Run,
        at <= replies.len() ==> asks_sql(
            container,
            replies.take(at as int),
            at,
            at,
            "SELECT pg_terminate_backend(pid) FROM pg_stat_activity WHERE datname = '"@
                + "sequencer"@ + "'"@,
        ),
        at + 1 <= replies.len() && succeeded(replies, at) ==> asks_sql(
            container,
            replies.take(at + 1int),
            at,
            at + 1,
            "DROP DATABASE IF EXISTS "@ + "sequencer"@,
        ),
        at + 2 <= replies.len() && succeeded(replies, at) && succeeded(replies, at + 1)
            ==> asks_sql(
            container,
            replies.take(at + 2int),
            at,
            at + 2,
            "CREATE DATABASE "@ + "sequencer"@,
        ),
{
    reveal_with_fuel(ContainerView::all_sql_executed, 4);
    let statements = reset_statements();
    assert(statements.skip(1)[0] == statements[1]);
    assert(statements.skip(1).skip(1)[0] == statements[2]);
    assert(statements.skip(1).skip(1).skip(1).len() == 0);
}

/// Whether the reset of the database, having begun after `at` replies, stops after `k` replies at
/// a statement.
spec fn asks_sql(
    container: ContainerView,
    replies: Seq<HostReply>,
    at: nat,
    k: nat,
    statement: Seq<char>,
) -> bool {
    container.all_sql_executed(reset_statements(), replies, at) == Outcome::<
        (),
        DockerError<Seq<char>>,
    >::Asks(HostCallView::Run { command: sql(container, statement) }, k)
}

proof fn no_clearing_call(
    run_dir: Seq<char>,
    nodes: Seq<NodeView>,
    replies: Seq<HostReply>,
    at: nat,
)
    ensures
        all_storage_cleared(run_dir, nodes, replies, at) is Gives || !resync_begun(
            all_storage_cleared(run_dir, nodes, replies, at),
        ),
    decreases nodes.len(),
{
    if nodes.len() > 0 {
        match storage_cleared(joined_path(run_dir, nodes[0].storage_path), replies, at) {
            Outcome::Gives(_, next) => no_clearing_call(run_dir, nodes.skip(1), replies, next),
            _ => {},
        }
    }
}

/// Between the initial run and the resync, the storage directory of every node of the layout is
/// removed, if it is there, and made again, so that a fresh node is resynced: by the time that the
/// resync begins the test has asked for that, after the initial run, and the host has replied that
/// it has worked.
pub proof fn storage_is_wiped_before_the_resync(
    phases: PhasesView,
    registry: Seq<(Seq<char>, u32)>,
    replies: Seq<HostReply>,
    at: nat,
    ran: nat,
    i: int,
) -> (k: nat)
    requires
        0 <= i < phases.layout.len(),
        gives_at(phases.initial(registry, replies, at), ran),
        resync_begun(phases.run(registry, replies, at)),
    ensures
        ran <= k,
        remade(
            |r: Seq<HostReply>| phases.run(registry, r, at),
            replies,
            k,
            joined_path(phases.nodes.run_dir, phases.layout[i].storage_path),
        ),
{
    let run_dir = phases.nodes.run_dir;
    let cleared = resync_follows_clearing(phases, registry, replies, at, ran);
    let k = clearing_calls(run_dir, phases.layout, replies, ran, i);
    let f = |r: Seq<HostReply>| phases.run(registry, r, at);
    let g = |r: Seq<HostReply>| all_storage_cleared(run_dir, phases.layout, r, ran);
    assert forall|j: nat, call: HostCallView|
        ran <= j && #[trigger] called(g, replies, j, call) implies called(
        f,
        replies,
        j,
        call,
    ) by {
        run_settles(phases.nodes, phases.soak, phases.api_url, registry, replies, at, j);
    }
    let path = joined_path(run_dir, phases.layout[i].storage_path);
    lift_remade(g, f, replies, ran, k, path);
    k
}

/// Between the initial run and the resync, the sequencer's database, and no other, is dropped and
/// made again, after its connections have been cut; each of these has succeeded by the time that
/// the resync begins.
pub proof fn sequencer_db_is_reset_before_the_resync(
    phases: PhasesView,
    registry: Seq<(Seq<char>, u32)>,
    replies: Seq<HostReply>,
    at: nat,
    ran: nat,
) -> (k: nat)
    requires
        gives_at(phases.initial(registry, replies, at), ran),
        resync_begun(phases.run(registry, replies, at)),
    ensures
        ran <= k,
        ({
            let run = |r: Seq<HostReply>| phases.run(registry, r, at);
            let cut =
                "SELECT pg_terminate_backend(pid) FROM pg_stat_activity WHERE datname = '"@
                + "sequencer"@ + "'"@;
            let dropped = "DROP DATABASE IF EXISTS "@ + "sequencer"@;
            let made = "CREATE DATABASE "@ + "sequencer"@;
            &&& called(run, replies, k, HostCallView::Run { command: sql(phases.container, cut) })
            &&& called(
                run,
                replies,
                k + 1,
                HostCallView::Run { command: sql(phases.container, dropped) },
            )
            &&& called(
                run,
                replies,
                k + 2,
                HostCallView::Run { command: sql(phases.container, made) },
            )
        }),
        succeeded(replies, k),
        succeeded(replies, k + 1),
        succeeded(replies, k + 2),
{
    let k = resync_follows_clearing(phases, registry, replies, at, ran);
    reset_calls(phases.container, replies, k);
    assert forall|j: nat| k <= j <= replies.len() implies #[trigger] phases.run(
        registry,
        replies.take(j as int),
        at,
    ) == match phases.container.all_sql_executed(reset_statements(), replies.take(j as int), k) {
        Outcome::Asks(call, stop) => Outcome::Asks(call, stop),
        _ => phases.run(registry, replies.take(j as int), at),
    } by {
        run_settles(
            phases.nodes,
            phases.soak,
            phases.api_url,
            registry,
            replies,
            at,
            j,
        );
        clearing_settles(phases.nodes.run_dir, phases.layout, replies, ran, j);
    }
    assert(phases.run(registry, replies.take(k as int), at) is Asks);
    assert(phases.run(registry, replies.take((k + 1) as nat as int), at) is Asks);
    assert(phases.run(registry, replies.take((k + 2) as nat as int), at) is Asks);
    k
}

} // verus!

//! What holds of a run of a whole test case.
use vstd::prelude::*;

use crate::journal::{
    called, command_at, done_at, flag_at, gives_at, interrupted_at, millis_at, status_at, succeeded,
    text_at, within, HostCallView, HostReply, Outcome,
};
use crate::path::joined_path;
use crate::process::{CommandOutcome, CommandView, ExitStatus};
use crate::text::decimal;
use crate::upgrade_simulator::builder::RollupBuilder;
use crate::upgrade_simulator::docker::{
    container_started, fresh_container, reset_statements, ContainerView, DockerError, MOCK_DA_DB,
    READY_TIMEOUT_SECS, SEQUENCER_DB,
};
use crate::upgrade_simulator::error::TestCaseError;
use crate::upgrade_simulator::node_config::{layout_detected, LayoutView, NodeView};
use crate::upgrade_simulator::node_runner::registered_pids;
use crate::upgrade_simulator::phase_laws::{
    lift_remade, remade, resync_begun, sql, storage_is_wiped_before_the_resync,
};
use crate::upgrade_simulator::preparation_laws::node_name;
use crate::upgrade_simulator::replies_read::{
    container_settles, layout_settles, preparation_settles, readiness_settles, settled,
};
use crate::upgrade_simulator::run::{
    all_storage_cleared, phases_of, phases_seen_through, prepared, root_resolved, run_dir_created,
    run_in_container, run_soaked, test_case_run, wound_up, PhasesView, SetupView,
};
use crate::upgrade_simulator::test_case::TestCaseView;

verus! {

/// What a test case has come to by the time that its phases begin.
pub struct Stage {
    /// The directory of the test case.
    pub root: Seq<char>,
    pub layout: LayoutView,
    pub container: ContainerView,
    pub setup: SetupView,
    /// Where the layout has been detected.
    pub detected: nat,
    /// Where the run directory has been made.
    pub made: nat,
    /// Where the container has been started.
    pub started: nat,
    /// Where the phases begin.
    pub ready: nat,
}

/// Whether a run of a test case has come to a stage.
pub open spec fn at_stage(
    builder: RollupBuilder,
    test_root: Seq<char>,
    case: TestCaseView,
    password: Seq<char>,
    replies: Seq<HostReply>,
    at: nat,
    s: Stage,
) -> bool {
    let run_dir = joined_path(s.root, "run-dir"@);
    &&& root_resolved(joined_path(test_root, case.name), replies, at) == Outcome::<
        Seq<char>,
        TestCaseError<Seq<char>>,
    >::Gives(s.root, at + 1)
    &&& layout_detected(s.root, case.versions.len(), replies, at + 1) == Outcome::<
        LayoutView,
        TestCaseError<Seq<char>>,
    >::Gives(s.layout, s.detected)
    &&& gives_at(run_dir_created(run_dir, replies, s.detected), s.made)
    &&& container_started(password, replies, s.made) == Outcome::<
        ContainerView,
        DockerError<Seq<char>>,
    >::Gives(s.container, s.started)
    &&& prepared(
        case,
        builder,
        s.container,
        run_dir,
        s.layout.nodes(),
        replies,
        s.started,
    ) == Outcome::<SetupView, TestCaseError<Seq<char>>>::Gives(s.setup, s.ready)
}

/// The steps of a test case are made one after the other.
proof fn stage_is_in_order(
    builder: RollupBuilder,
    test_root: Seq<char>,
    case: TestCaseView,
    password: Seq<char>,
    replies: Seq<HostReply>,
    at: nat,
    s: Stage,
)
    requires
        at_stage(builder, test_root, case, password, replies, at, s),
    ensures
        at + 1 <= s.detected <= s.made <= s.started <= s.ready,
        called(
            |r: Seq<HostReply>| test_case_run(builder, test_root, case, password, r, at),
            replies,
            at,
            HostCallView::Canonicalize { path: joined_path(test_root, case.name) },
        ),
{
    let f = |r: Seq<HostReply>| test_case_run(builder, test_root, case, password, r, at);
    let run_dir = joined_path(s.root, "run-dir"@);
    let known = replies.len();
    let nodes = s.layout.nodes();
    layout_settles(s.root, case.versions.len(), replies, at + 1, known);
    container_settles(password, replies, s.made, known);
    preparation_settles(case, builder, s.container, run_dir, nodes, replies, s.started, known);
    assert(f(replies.take(at as int)) is Asks);
}

/// What a test case does once it has come past a step, where it is told of the first `j` replies.
proof fn past_the_layout(
    builder: RollupBuilder,
    test_root: Seq<char>,
    case: TestCaseView,
    password: Seq<char>,
    replies: Seq<HostReply>,
    at: nat,
    s: Stage,
    j: nat,
)
    requires
        at_stage(builder, test_root, case, password, replies, at, s),
        s.detected <= j <= replies.len(),
        at + 1 <= s.detected,
    ensures
        ({
            let r = replies.take(j as int);
            &&& root_resolved(joined_path(test_root, case.name), r, at) == Outcome::<
                Seq<char>,
                TestCaseError<Seq<char>>,
            >::Gives(s.root, at + 1)
            &&& layout_detected(s.root, case.versions.len(), r, at + 1) == Outcome::<
                LayoutView,
                TestCaseError<Seq<char>>,
            >::Gives(s.layout, s.detected)
        }),
{
    layout_settles(s.root, case.versions.len(), replies, at + 1, j);
}

proof fn past_the_container(
    builder: RollupBuilder,
    test_root: Seq<char>,
    case: TestCaseView,
    password: Seq<char>,
    replies: Seq<HostReply>,
    at: nat,
    s: Stage,
    j: nat,
)
    requires
        at_stage(builder, test_root, case, password, replies, at, s),
        s.started <= j <= replies.len(),
        at + 1 <= s.detected <= s.made <= s.started,
    ensures
        test_case_run(builder, test_root, case, password, replies.take(j as int), at)
            == run_in_container(
            case,
            builder,
            s.root,
            s.layout,
            s.container,
            replies.take(j as int),
            s.started,
        ),
{
    past_the_layout(builder, test_root, case, password, replies, at, s, j);
    container_settles(password, replies, s.made, j);
    run_dir_settles(joined_path(s.root, "run-dir"@), replies, s.detected, j);
}

proof fn run_dir_settles(run_dir: Seq<char>, replies: Seq<HostReply>, at: nat, known: nat)
    requires
        known <= replies.len(),
    ensures
        settled(
            run_dir_created(run_dir, replies, at),
            run_dir_created(run_dir, replies.take(known as int), at),
            at,
            known,
        ),
{
}

proof fn run_dir_is_within(
    builder: RollupBuilder,
    test_root: Seq<char>,
    case: TestCaseView,
    password: Seq<char>,
    replies: Seq<HostReply>,
    at: nat,
    s: Stage,
)
    requires
        at_stage(builder, test_root, case, password, replies, at, s),
        at + 1 <= s.detected,
    ensures
        within(
            |r: Seq<HostReply>|
                run_dir_created(joined_path(s.root, "run-dir"@), r, s.detected),
            |r: Seq<HostReply>| test_case_run(builder, test_root, case, password, r, at),
            replies,
            s.detected,
        ),
{
    let f = |r: Seq<HostReply>| test_case_run(builder, test_root, case, password, r, at);
    let g = |r: Seq<HostReply>| run_dir_created(joined_path(s.root, "run-dir"@), r, s.detected);
    assert forall|j: nat, call: HostCallView|
        s.detected <= j && #[trigger] called(g, replies, j, call) implies called(
        f,
        replies,
        j,
        call,
    ) by {
        past_the_layout(builder, test_root, case, password, replies, at, s, j);
    }
}

/// The calls by which the container is started are the test case's.
pub proof fn container_start_is_within(
    builder: RollupBuilder,
    test_root: Seq<char>,
    case: TestCaseView,
    password: Seq<char>,
    replies: Seq<HostReply>,
    at: nat,
    s: Stage,
)
    requires
        at_stage(builder, test_root, case, password, replies, at, s),
    ensures
        within(
            |r: Seq<HostReply>| container_started(password, r, s.made),
            |r: Seq<HostReply>| test_case_run(builder, test_root, case, password, r, at),
            replies,
            s.made,
        ),
{
    stage_is_in_order(builder, test_root, case, password, replies, at, s);
    let f = |r: Seq<HostReply>| test_case_run(builder, test_root, case, password, r, at);
    let g = |r: Seq<HostReply>| container_started(password, r, s.made);
    assert forall|j: nat, call: HostCallView|
        s.made <= j && #[trigger] called(g, replies, j, call) implies called(
        f,
        replies,
        j,
        call,
    ) by {
        past_the_layout(builder, test_root, case, password, replies, at, s, j);
        run_dir_settles(joined_path(s.root, "run-dir"@), replies, s.detected, j);
    }
}

/// The calls by which a test case is prepared are the test case's.
pub proof fn preparation_is_within(
    builder: RollupBuilder,
    test_root: Seq<char>,
    case: TestCaseView,
    password: Seq<char>,
    replies: Seq<HostReply>,
    at: nat,
    s: Stage,
)
    requires
        at_stage(builder, test_root, case, password, replies, at, s),
    ensures
        within(
            |r: Seq<HostReply>|
                prepared(
                    case,
                    builder,
                    s.container,
                    joined_path(s.root, "run-dir"@),
                    s.layout.nodes(),
                    r,
                    s.started,
                ),
            |r: Seq<HostReply>| test_case_run(builder, test_root, case, password, r, at),
            replies,
            s.started,
        ),
{
    stage_is_in_order(builder, test_root, case, password, replies, at, s);
    let f = |r: Seq<HostReply>| test_case_run(builder, test_root, case, password, r, at);
    let run_dir = joined_path(s.root, "run-dir"@);
    let nodes = s.layout.nodes();
    let g = |r: Seq<HostReply>|
        prepared(case, builder, s.container, run_dir, nodes, r, s.started);
    assert forall|j: nat, call: HostCallView|
        s.started <= j && #[trigger] called(g, replies, j, call) implies called(
        f,
        replies,
        j,
        call,
    ) by {
        past_the_container(builder, test_root, case, password, replies, at, s, j);
    }
}

/// The calls of both phases are the test case's.
pub proof fn phases_are_within(
    builder: RollupBuilder,
    test_root: Seq<char>,
    case: TestCaseView,
    password: Seq<char>,
    replies: Seq<HostReply>,
    at: nat,
    s: Stage,
)
    requires
        at_stage(builder, test_root, case, password, replies, at, s),
    ensures
        within(
            |r: Seq<HostReply>|
                phases_of(case, s.root, s.layout, s.container, s.setup).run(
                    s.setup.registry,
                    r,
                    s.ready,
                ),
            |r: Seq<HostReply>| test_case_run(builder, test_root, case, password, r, at),
            replies,
            s.ready,
        ),
{
    stage_is_in_order(builder, test_root, case, password, replies, at, s);
    let f = |r: Seq<HostReply>| test_case_run(builder, test_root, case, password, r, at);
    let phases = phases_of(case, s.root, s.layout, s.container, s.setup);
    let run_dir = joined_path(s.root, "run-dir"@);
    let nodes = s.layout.nodes();
    let g = |r: Seq<HostReply>|
        phases_of(case, s.root, s.layout, s.container, s.setup).run(
            s.setup.registry,
            r,
            s.ready,
        );
    assert forall|j: nat, call: HostCallView|
        s.ready <= j && #[trigger] called(g, replies, j, call) implies called(
        f,
        replies,
        j,
        call,
    ) by {
        past_the_container(builder, test_root, case, password, replies, at, s, j);
        preparation_settles(case, builder, s.container, run_dir, nodes, replies, s.started, j);
        assert(!interrupted_at(replies.take(j as int), j));
    }
}

/// A test case whose resync begins has, after the initial run has ended, had the storage directory
/// of each of its nodes, the master and every replica, removed from the run directory, if it was
/// there, and made again.
pub proof fn resync_of_a_test_case_starts_clean(
    builder: RollupBuilder,
    test_root: Seq<char>,
    case: TestCaseView,
    password: Seq<char>,
    replies: Seq<HostReply>,
    at: nat,
    s: Stage,
    ran: nat,
    node: NodeView,
) -> (k: nat)
    requires
        at_stage(builder, test_root, case, password, replies, at, s),
        ({
            let phases = phases_of(case, s.root, s.layout, s.container, s.setup);
            &&& gives_at(phases.initial(s.setup.registry, replies, s.ready), ran)
            &&& resync_begun(phases.run(s.setup.registry, replies, s.ready))
        }),
        node == s.layout.master || s.layout.replicas.contains(node),
    ensures
        ran <= k,
        remade(
            |r: Seq<HostReply>| test_case_run(builder, test_root, case, password, r, at),
            replies,
            k,
            joined_path(joined_path(s.root, "run-dir"@), node.storage_path),
        ),
{
    let f = |r: Seq<HostReply>| test_case_run(builder, test_root, case, password, r, at);
    let phases = phases_of(case, s.root, s.layout, s.container, s.setup);
    let registry = s.setup.registry;
    phases_are_within(builder, test_root, case, password, replies, at, s);
    let i: int = if node == s.layout.master {
        0
    } else {
        1 + choose|i: int| 0 <= i < s.layout.replicas.len() && s.layout.replicas[i] == node
    };
    assert(phases.layout[i] == node);
    let k = storage_is_wiped_before_the_resync(phases, registry, replies, s.ready, ran, i);
    let g = |r: Seq<HostReply>|
        phases_of(case, s.root, s.layout, s.container, s.setup).run(
            s.setup.registry,
            r,
            s.ready,
        );
    crate::upgrade_simulator::replies_read::run_settles(
        phases.nodes,
        phases.soak,
        phases.api_url,
        registry,
        replies,
        s.ready,
        replies.len(),
    );
    lift_remade(g, f, replies, s.ready, k, joined_path(phases.nodes.run_dir, node.storage_path));
    k
}

/// The phases of a test case run all nodes of its layout, each under its name, on the versions and
/// the manager that have been prepared, in its run directory and with its genesis file; the soak
/// test goes to the master's port.
pub proof fn phases_run_the_whole_layout(
    case: TestCaseView,
    root: Seq<char>,
    layout: LayoutView,
    container: ContainerView,
    setup: SetupView,
    n: int,
)
    requires
        0 <= n < setup.versions.len() <= usize::MAX,
    ensures
        ({
            let phases = phases_of(case, root, layout, container, setup);
            &&& phases.nodes.manager_binary == setup.manager_binary
            &&& phases.nodes.versions == setup.versions
            &&& phases.nodes.names.len() == setup.versions.len()
            &&& phases.nodes.names[n] == node_name(n)
            &&& phases.nodes.extra_args == seq![
                "--genesis-path"@,
                joined_path(root, "genesis.json"@),
            ]
            &&& phases.nodes.run_dir == joined_path(root, "run-dir"@)
            &&& phases.soak == setup.soak
            &&& phases.api_url == "http://localhost:"@ + decimal(layout.master.http_port as nat)
            &&& phases.layout.len() == 1 + layout.replicas.len()
            &&& phases.layout[0] == layout.master
            &&& forall|i: int|
                0 <= i < layout.replicas.len() ==> phases.layout[i + 1]
                    == #[trigger] layout.replicas[i]
            &&& phases.extra_blocks == case.extra_blocks_after_resync
            &&& phases.container == container
        }),
{
}

proof fn run_dir_calls(dir: Seq<char>, replies: Seq<HostReply>, at: nat)
    requires
        run_dir_created(dir, replies, at) is Gives,
    ensures
        remade(|r: Seq<HostReply>| run_dir_created(dir, r, at), replies, at, dir),
{
    let g = |r: Seq<HostReply>| run_dir_created(dir, r, at);
    assert(g(replies.take(at as int)) is Asks);
    assert(g(replies.take(at + 1int)) is Asks);
    if flag_at(replies, at) == Some(true) {
        assert(g(replies.take(at + 2int)) is Asks);
    }
}

/// A test case is run in a directory `run-dir` of its own, which is emptied first.
pub proof fn run_directory_is_emptied(
    builder: RollupBuilder,
    test_root: Seq<char>,
    case: TestCaseView,
    password: Seq<char>,
    replies: Seq<HostReply>,
    at: nat,
    s: Stage,
)
    requires
        at_stage(builder, test_root, case, password, replies, at, s),
    ensures
        called(
            |r: Seq<HostReply>| test_case_run(builder, test_root, case, password, r, at),
            replies,
            at,
            HostCallView::Canonicalize { path: joined_path(test_root, case.name) },
        ),
        text_at(replies, at) matches Some(Ok(text)) && text@ == s.root,
        remade(
            |r: Seq<HostReply>| test_case_run(builder, test_root, case, password, r, at),
            replies,
            s.detected,
            joined_path(s.root, "run-dir"@),
        ),
{
    let f = |r: Seq<HostReply>| test_case_run(builder, test_root, case, password, r, at);
    let dir = joined_path(s.root, "run-dir"@);
    stage_is_in_order(builder, test_root, case, password, replies, at, s);
    run_dir_is_within(builder, test_root, case, password, replies, at, s);
    let g = |r: Seq<HostReply>| run_dir_created(joined_path(s.root, "run-dir"@), r, s.detected);
    run_dir_calls(dir, replies, s.detected);
    lift_remade(g, f, replies, s.detected, s.detected, dir);
}

proof fn ready_calls(
    container: ContainerView,
    timeout_secs: u64,
    replies: Seq<HostReply>,
    at: nat,
    next: nat,
)
    requires
        gives_at(container.became_ready(timeout_secs, replies, at), next),
    ensures
        at + 2 <= next,
        called(
            |r: Seq<HostReply>| container.became_ready(timeout_secs, r, at),
            replies,
            (next - 1) as nat,
            HostCallView::Run {
                command: CommandView {
                    program: "docker"@,
                    args: seq![
                        "exec"@,
                        container.container_name,
                        "pg_isready"@,
                        "-U"@,
                        "postgres"@,
                    ],
                    current_dir: None,
                },
            },
        ),
        succeeded(replies, (next - 1) as nat),
    decreases replies.len() - at,
{
    let f = |r: Seq<HostReply>| container.became_ready(timeout_secs, r, at);
    if !succeeded(replies, at + 1) {
        ready_calls(container, timeout_secs, replies, at + 3, next);
        let g = |r: Seq<HostReply>| container.became_ready(timeout_secs, r, at + 3);
        assert(f(replies.take(next - 1)) == g(replies.take(next - 1)));
    } else {
        assert(f(replies.take(at + 1int)) is Asks);
    }
}

/// A container that has been started runs postgres with the given password, has been found to
/// accept connections, and has had the sequencer's database and that of the DA layer made, in that
/// order; each of these commands has succeeded.
pub proof fn container_is_set_up(
    password: Seq<char>,
    replies: Seq<HostReply>,
    at: nat,
    next: nat,
)
    requires
        gives_at(container_started(password, replies, at), next),
    ensures
        container_started(password, replies, at) matches Outcome::Gives(container, _) && {
            let f = |r: Seq<HostReply>| container_started(password, r, at);
            let name = "upgrade_simulator_postgres"@;
            &&& container.container_name == name
            &&& container.port == 5432
            &&& container.password == password
            &&& !container.cleaned_up
            &&& at + 4 < next
            &&& called(
                f,
                replies,
                at,
                HostCallView::Run {
                    command: CommandView {
                        program: "docker"@,
                        args: seq![
                            "run"@,
                            "-d"@,
                            "--name"@,
                            name,
                            "-e"@,
                            "POSTGRES_PASSWORD="@ + password,
                            "-p"@,
                            decimal(5432) + ":5432"@,
                            "postgres:16"@,
                        ],
                        current_dir: None,
                    },
                },
            )
            &&& succeeded(replies, at)
            &&& called(
                f,
                replies,
                (next - 3) as nat,
                HostCallView::Run {
                    command: CommandView {
                        program: "docker"@,
                        args: seq!["exec"@, name, "pg_isready"@, "-U"@, "postgres"@],
                        current_dir: None,
                    },
                },
            )
            &&& succeeded(replies, (next - 3) as nat)
            &&& called(
                f,
                replies,
                (next - 2) as nat,
                HostCallView::Run { command: sql(container, "CREATE DATABASE "@ + "sequencer"@) },
            )
            &&& succeeded(replies, (next - 2) as nat)
            &&& called(
                f,
                replies,
                (next - 1) as nat,
                HostCallView::Run { command: sql(container, "CREATE DATABASE "@ + "mock_da"@) },
            )
            &&& succeeded(replies, (next - 1) as nat)
        },
{
    let f = |r: Seq<HostReply>| container_started(password, r, at);
    let container = fresh_container(password);
    let databases = seq!["CREATE DATABASE "@ + SEQUENCER_DB@, "CREATE DATABASE "@ + MOCK_DA_DB@];
    assert(f(replies.take(at as int)) is Asks);
    let secs = READY_TIMEOUT_SECS;
    let ready = container.became_ready(secs, replies, at + 2)->Gives_1;
    ready_calls(container, secs, replies, at + 2, ready);
    reveal_with_fuel(ContainerView::all_sql_executed, 3);
    assert(databases.skip(1)[0] == databases[1]);
    assert(databases.skip(1).skip(1).len() == 0);
    assert(next == ready + 2);
    let g = |r: Seq<HostReply>| container.became_ready(secs, r, at + 2);
    assert(g(replies.take(ready - 1)) is Asks);
    assert(f(replies.take(ready - 1)) is Asks);
    readiness_settles(container, secs, replies, at + 2, ready);
    assert(f(replies.take(ready as int)) is Asks);
    readiness_settles(container, secs, replies, at + 2, ready + 1);
    assert(f(replies.take(ready + 1int)) is Asks);
}

/// Whether a procedure has, at two positions, had the container stopped and removed.
pub open spec fn removed<T, E>(
    procedure: spec_fn(Seq<HostReply>) -> Outcome<T, E>,
    replies: Seq<HostReply>,
    k: nat,
    name: Seq<char>,
) -> bool {
    &&& called(
        procedure,
        replies,
        k,
        HostCallView::Run {
            command: CommandView {
                program: "docker"@,
                args: seq!["stop"@, name],
                current_dir: None,
            },
        },
    )
    &&& called(
        procedure,
        replies,
        k + 1,
        HostCallView::Run {
            command: CommandView {
                program: "docker"@,
                args: seq!["rm"@, "-f"@, name],
                current_dir: None,
            },
        },
    )
}

/// A test that is over asks every process that it knows of to terminate, and then stops its
/// container and removes it, whether stopping has worked or not, with a second attempt at both
/// where the removal could not be started. Its result is the one that it had before.
pub proof fn winding_up_ends_everything(
    container: ContainerView,
    registry: Seq<(Seq<char>, u32)>,
    error: Option<TestCaseError<Seq<char>>>,
    replies: Seq<HostReply>,
    at: nat,
)
    requires
        !container.cleaned_up,
        wound_up(container, registry, error, replies, at) !is Asks,
    ensures
        ({
            let f = |r: Seq<HostReply>| wound_up(container, registry, error, r, at);
            &&& called(
                f,
                replies,
                at,
                HostCallView::Terminate {
                    pids: registry.map_values(|process: (Seq<char>, u32)| process.1),
                },
            )
            &&& removed(f, replies, at + 1, container.container_name)
            &&& match command_at(replies, at + 2) {
                Some(CommandOutcome::NotStarted(_)) => removed(
                    f,
                    replies,
                    at + 3,
                    container.container_name,
                ),
                _ => true,
            }
            &&& match error {
                Some(e) => f(replies) matches Outcome::Fails(failure, _) && failure == e,
                None => f(replies) is Gives,
            }
        }),
{
    let f = |r: Seq<HostReply>| wound_up(container, registry, error, r, at);
    assert(registered_pids(registry) =~= registry.map_values(
        |process: (Seq<char>, u32)| process.1,
    ));
    assert(f(replies.take(at as int)) is Asks);
    assert(f(replies.take(at + 1int)) is Asks);
    assert(f(replies.take(at + 2int)) is Asks);
    if let Some(CommandOutcome::NotStarted(_)) = command_at(replies, at + 2) {
        assert(f(replies.take(at + 3int)) is Asks);
        assert(f(replies.take(at + 4int)) is Asks);
    }
}

/// A test ends with what its phases end with. One that is interrupted, at whichever call, asks the
/// processes that it knows of to terminate, gives them five seconds, and fails as interrupted.
pub proof fn interruption_fails_the_test(
    phases: PhasesView,
    registry: Seq<(Seq<char>, u32)>,
    replies: Seq<HostReply>,
    at: nat,
)
    requires
        !phases.container.cleaned_up,
    ensures
        ({
            let pids = phases.registry_after(registry, replies, at).map_values(
                |process: (Seq<char>, u32)| process.1,
            );
            let result = phases_seen_through(phases, registry, replies, at);
            match phases.run(registry, replies, at) {
                Outcome::Gives(_, _) => result !is Fails,
                Outcome::Fails(e, _) => result !is Gives && (result matches Outcome::Fails(
                    failure,
                    _,
                ) ==> failure == e),
                Outcome::Asks(call, stop) => if !interrupted_at(replies, stop) {
                    result == Outcome::<(), TestCaseError<Seq<char>>>::Asks(call, stop)
                } else if !done_at(replies, stop + 1) {
                    result == Outcome::<(), TestCaseError<Seq<char>>>::Asks(
                        HostCallView::Terminate { pids },
                        stop + 1,
                    )
                } else if !done_at(replies, stop + 2) {
                    result == Outcome::<(), TestCaseError<Seq<char>>>::Asks(
                        HostCallView::Sleep { millis: 5000 },
                        stop + 2,
                    )
                } else {
                    result !is Gives && (result matches Outcome::Fails(failure, _)
                        ==> failure is Interrupted)
                },
            }
        }),
{
    let after = phases.registry_after(registry, replies, at);
    assert(registered_pids(after) =~= after.map_values(|process: (Seq<char>, u32)| process.1));
}

/// Postgres is given up on once thirty seconds have passed, and not before; while it does not accept
/// connections, it is asked again a second later.
pub proof fn readiness_is_awaited_for_half_a_minute(
    container: ContainerView,
    replies: Seq<HostReply>,
    at: nat,
    millis: u64,
)
    requires
        millis_at(replies, at) == Some(millis),
    ensures
        millis >= 30000 ==> (container.became_ready(30, replies, at) matches Outcome::Fails(e, _)
            && e is NotReady),
        millis < 30000 && succeeded(replies, at + 1) ==> gives_at(
            container.became_ready(30, replies, at),
            at + 2,
        ),
        millis < 30000 && (command_at(replies, at + 1) matches Some(CommandOutcome::Finished(output))
            && output.status != ExitStatus::Exited(0)) ==> if done_at(replies, at + 2) {
            container.became_ready(30, replies, at) == container.became_ready(30, replies, at + 3)
        } else {
            container.became_ready(30, replies, at) == Outcome::<(), DockerError<Seq<char>>>::Asks(
                HostCallView::Sleep { millis: 1000 },
                at + 2,
            )
        },
{
}

/// A test case can be run unless a node lacks a config file, there are more nodes than metrics
/// ports, or the heights of the resync or the salts of the soak workers cannot be represented.
pub proof fn only_limits_keep_a_test_case_from_running(case: TestCaseView)
    requires
        case.versions.len() > 0,
    ensures
        case.runnable() <==> {
            &&& forall|n: int|
                0 <= n < case.nodes.len() ==> (#[trigger] case.nodes[n]).config_paths.len()
                    >= case.versions.len()
            &&& 9845 + case.nodes.len() <= u16::MAX + 1
            &&& case.versions[case.versions.len() - 1].stop_height
                + case.extra_blocks_after_resync <= u64::MAX
            &&& case.soak_testing matches Some(soak) ==> soak.salt + case.versions.len()
                * soak.num_workers <= u32::MAX
        },
{
}

/// A test comes to what its steps come to: to the failure of its initial run, or, once that has
/// succeeded and the state has been cleared, to what the resync comes to.
pub proof fn test_ends_as_its_resync_does(
    phases: PhasesView,
    registry: Seq<(Seq<char>, u32)>,
    replies: Seq<HostReply>,
    at: nat,
    ran: nat,
    cleared: nat,
)
    ensures
        phases.initial(registry, replies, at) matches Outcome::Fails(e, _) ==> (phases.run(
            registry,
            replies,
            at,
        ) matches Outcome::Fails(failure, _) && failure == e),
        gives_at(phases.initial(registry, replies, at), ran) && gives_at(
            all_storage_cleared(phases.nodes.run_dir, phases.layout, replies, ran),
            cleared,
        ) && succeeded(replies, cleared) && succeeded(replies, cleared + 1) && succeeded(
            replies,
            cleared + 2,
        ) ==> match (
            phases.run(registry, replies, at),
            run_soaked(
                phases.resync_nodes(),
                phases.resync_soak(),
                phases.api_url,
                seq![],
                replies,
                cleared + 3,
            ),
        ) {
            (Outcome::Asks(call, stop), Outcome::Asks(c, s)) => call == c && stop == s,
            (Outcome::Fails(e, _), Outcome::Fails(failure, _)) => e == failure,
            (Outcome::Gives(_, next), Outcome::Gives(_, end)) => next == end,
            _ => false,
        },
{
    reveal_with_fuel(ContainerView::all_sql_executed, 4);
    let statements = reset_statements();
    assert(statements.skip(1)[0] == statements[1]);
    assert(statements.skip(1).skip(1)[0] == statements[2]);
    assert(statements.skip(1).skip(1).skip(1).len() == 0);
}

/// A test case that has come to its phases ends as they do.
pub proof fn test_case_ends_as_its_phases_do(
    builder: RollupBuilder,
    test_root: Seq<char>,
    case: TestCaseView,
    password: Seq<char>,
    replies: Seq<HostReply>,
    at: nat,
    s: Stage,
)
    requires
        at_stage(builder, test_root, case, password, replies, at, s),
    ensures
        test_case_run(builder, test_root, case, password, replies, at) == phases_seen_through(
            phases_of(case, s.root, s.layout, s.container, s.setup),
            s.setup.registry,
            replies,
            s.ready,
        ),
{
}

/// A test case that cannot be begun fails with the reason: its directory cannot be resolved, its
/// layout is not in order, its run directory cannot be emptied, or its container cannot be started.
pub proof fn test_case_fails_where_it_cannot_begin(
    builder: RollupBuilder,
    test_root: Seq<char>,
    case: TestCaseView,
    password: Seq<char>,
    replies: Seq<HostReply>,
    at: nat,
)
    ensures
        ({
            let result = test_case_run(builder, test_root, case, password, replies, at);
            let path = joined_path(test_root, case.name);
            match text_at(replies, at) {
                None => result == Outcome::<(), TestCaseError<Seq<char>>>::Asks(
                    HostCallView::Canonicalize { path },
                    at,
                ),
                Some(Err(m)) => result == Outcome::<(), TestCaseError<Seq<char>>>::Fails(
                    TestCaseError::InvalidTestCaseRoot(path, m@),
                    at + 1,
                ),
                Some(Ok(root)) => {
                    let run_dir = joined_path(root@, "run-dir"@);
                    match layout_detected(root@, case.versions.len(), replies, at + 1) {
                        Outcome::Fails(e, next) => result == Outcome::<
                            (),
                            TestCaseError<Seq<char>>,
                        >::Fails(e, next),
                        Outcome::Asks(call, stop) => result == Outcome::<
                            (),
                            TestCaseError<Seq<char>>,
                        >::Asks(call, stop),
                        Outcome::Gives(_, n) => match run_dir_created(run_dir, replies, n) {
                            Outcome::Fails(e, next) => {
                                &&& result == Outcome::<(), TestCaseError<Seq<char>>>::Fails(
                                    e,
                                    next,
                                )
                                &&& next > 0
                                &&& status_at(replies, (next - 1) as nat) matches Some(Err(m)) && (e
                                    == TestCaseError::<Seq<char>>::ClearRunDir(run_dir, m@) || e
                                    == TestCaseError::<Seq<char>>::CreateRunDir(run_dir, m@))
                            },
                            Outcome::Asks(call, stop) => result == Outcome::<
                                (),
                                TestCaseError<Seq<char>>,
                            >::Asks(call, stop),
                            Outcome::Gives(_, made) => container_started(
                                password,
                                replies,
                                made,
                            ) matches Outcome::Fails(e, next) ==> result == Outcome::<
                                (),
                                TestCaseError<Seq<char>>,
                            >::Fails(TestCaseError::Docker(e), next),
                        },
                    }
                },
            }
        }),
{
}

/// A container whose commands succeed, and which accepts connections at once, is started.
pub proof fn container_starts_where_its_commands_succeed(
    password: Seq<char>,
    replies: Seq<HostReply>,
    at: nat,
    millis: u64,
)
    requires
        succeeded(replies, at),
        done_at(replies, at + 1),
        millis_at(replies, at + 2) == Some(millis),
        millis < 30000,
        succeeded(replies, at + 3),
        succeeded(replies, at + 4),
        succeeded(replies, at + 5),
    ensures
        gives_at(container_started(password, replies, at), at + 6),
{
    reveal_with_fuel(ContainerView::all_sql_executed, 3);
    let databases = seq!["CREATE DATABASE "@ + SEQUENCER_DB@, "CREATE DATABASE "@ + MOCK_DA_DB@];
    assert(databases.skip(1)[0] == databases[1]);
    assert(databases.skip(1).skip(1).len() == 0);
}

/// A test case that cannot be prepared fails with the reason for that, once its container has been
/// stopped and removed, or that has been tried.
pub proof fn unprepared_test_case_fails_with_the_reason(
    case: TestCaseView,
    builder: RollupBuilder,
    root: Seq<char>,
    layout: LayoutView,
    container: ContainerView,
    replies: Seq<HostReply>,
    at: nat,
    error: TestCaseError<Seq<char>>,
    stopped: nat,
)
    requires
        !container.cleaned_up,
        prepared(
            case,
            builder,
            container,
            joined_path(root, "run-dir"@),
            layout.nodes(),
            replies,
            at,
        ) == Outcome::<SetupView, TestCaseError<Seq<char>>>::Fails(error, stopped),
    ensures
        match run_in_container(case, builder, root, layout, container, replies, at) {
            Outcome::Asks(call, k) => call is Run && (k == stopped || k == stopped + 1)
                && command_at(replies, k) is None,
            Outcome::Fails(e, next) => e == error && next == stopped + 2,
            Outcome::Gives(_, _) => false,
        },
{
}

} // verus!

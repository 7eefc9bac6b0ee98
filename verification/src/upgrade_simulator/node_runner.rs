//! Node orchestration - spawn and monitor rollup-manager processes.
//!
//! One rollup-manager process runs for each node (master + replicas), with its own manager config.
//! The soak test, where there is one, is told when all nodes have completed or any node has failed.
use vstd::prelude::*;

use crate::config::{ManagerConfig, RollupVersion, VersionView};
use crate::journal::{
    config_write_at, done_at, node_exit_at, outcome, spawned_at, text_at, ConfigWrite, HostCall,
    HostCallView, HostReply, Journal, NodeExit, Outcome, Stop,
};
use crate::path::{join_path, joined_path};
use crate::process::{no_args, push_all, push_arg, CommandSpec, CommandView, ExitStatus};
use crate::text::{concat2, concat3, decimal, decimal_text};
use crate::upgrade_simulator::error::TestCaseError;

verus! {

/// Base port for prometheus metrics. Each node gets base_port + node_index.
pub const METRICS_BASE_PORT: u16 = 9845;

/// Grace period for SIGTERM before the nodes that are still running are given up on.
pub const GRACEFUL_SHUTDOWN_MILLIS: u64 = 5000;

/// The largest number of nodes that there are ports for.
pub const MAX_NODES: usize = 55691;

/// Registry for tracking spawned process PIDs, for graceful shutdown.
///
/// Stores (name, pid) pairs where name is for logging (e.g., "master", "replica_0", "mock-da").
#[derive(Debug)]
pub struct ProcessRegistry {
    pub pids: Vec<(String, u32)>,
}

/// The processes of a registry, in the order of their registration.
pub open spec fn registered_pids(registry: Seq<(Seq<char>, u32)>) -> Seq<u32> {
    registry.map_values(|entry: (Seq<char>, u32)| entry.1)
}

impl DeepView for ProcessRegistry {
    type V = Seq<(Seq<char>, u32)>;

    open spec fn deep_view(&self) -> Seq<(Seq<char>, u32)> {
        self.pids.deep_view()
    }
}

impl Default for ProcessRegistry {
    fn default() -> (r: Self)
        ensures
            r.deep_view() == Seq::<(Seq<char>, u32)>::empty(),
    {
        ProcessRegistry::new()
    }
}

impl ProcessRegistry {
    pub fn new() -> (r: Self)
        ensures
            r.deep_view() == Seq::<(Seq<char>, u32)>::empty(),
    {
        let r = ProcessRegistry { pids: Vec::new() };
        assert(r.deep_view() =~= Seq::<(Seq<char>, u32)>::empty());
        r
    }

    /// Register a process PID with a name for logging.
    pub fn register(&mut self, name: String, pid: u32)
        ensures
            final(self).deep_view() == old(self).deep_view().push((name@, pid)),
    {
        let ghost before = self.deep_view();
        self.pids.push((name, pid));
        assert(self.deep_view() =~= before.push((name@, pid)));
    }

    /// The processes that a termination of all registered processes reaches, in order.
    pub fn terminate_all(&self) -> (pids: Vec<u32>)
        ensures
            pids@ == registered_pids(self.deep_view()),
    {
        let ghost all = registered_pids(self.deep_view());
        let mut pids: Vec<u32> = Vec::new();
        let mut i: usize = 0;
        while i < self.pids.len()
            invariant
                i <= self.pids.len(),
                all == registered_pids(self.deep_view()),
                pids@ == all.take(i as int),
            decreases self.pids.len() - i,
        {
            assert(self.deep_view()[i as int].1 == self.pids@[i as int].1);
            pids.push(self.pids[i].1);
            assert(all.take(i + 1) =~= all.take(i as int).push(all[i as int]));
            i = i + 1;
        }
        assert(all.take(i as int) =~= all);
        pids
    }

    /// Clear all registered PIDs.
    pub fn clear(&mut self)
        ensures
            final(self).deep_view() == Seq::<(Seq<char>, u32)>::empty(),
    {
        self.pids.clear();
        assert(self.deep_view() =~= Seq::<(Seq<char>, u32)>::empty());
    }
}

/// Versions for all nodes in a test case.
///
/// `nodes[0]` is always master, `nodes[1..]` are replicas.
/// Single-node tests have exactly one entry.
#[derive(Debug)]
pub struct NodeVersions {
    /// RollupVersions for each node. nodes[0] = master, nodes[1..] = replicas.
    pub nodes: Vec<Vec<RollupVersion>>,
}

impl DeepView for NodeVersions {
    type V = Seq<Seq<VersionView>>;

    open spec fn deep_view(&self) -> Seq<Seq<VersionView>> {
        self.nodes.deep_view()
    }
}

/// The name of the file with a node's manager config.
pub open spec fn manager_config_name(name: Seq<char>) -> Seq<char> {
    "manager_config_"@ + name + ".json"@
}

/// The command that starts a node's manager.
pub open spec fn manager_command(
    manager_binary: Seq<char>,
    name: Seq<char>,
    node: nat,
    extra_args: Seq<Seq<char>>,
    run_dir: Seq<char>,
) -> CommandView {
    CommandView {
        program: manager_binary,
        args: seq!["-c"@, manager_config_name(name), "--no-checkpoint-file"@, "--"@] + extra_args
            + seq!["--metrics"@, decimal((METRICS_BASE_PORT + node) as nat)],
        current_dir: Some(run_dir),
    }
}

/// A node is started: its manager config is written, and its manager spawned.
pub open spec fn node_spawned(
    manager_binary: Seq<char>,
    name: Seq<char>,
    node: nat,
    versions: Seq<VersionView>,
    extra_args: Seq<Seq<char>>,
    run_dir: Seq<char>,
    replies: Seq<HostReply>,
    at: nat,
) -> Outcome<Option<u32>, TestCaseError<Seq<char>>> {
    let path = joined_path(run_dir, manager_config_name(name));
    match config_write_at(replies, at) {
        None => Outcome::Asks(HostCallView::WriteManagerConfig { path, versions }, at),
        Some(ConfigWrite::NotSerialized(m)) => Outcome::Fails(
            TestCaseError::SerializeManagerConfig(m@),
            at + 1,
        ),
        Some(ConfigWrite::NotWritten(m)) => Outcome::Fails(
            TestCaseError::WriteManagerConfig { node_type: name, source: m@ },
            at + 1,
        ),
        Some(ConfigWrite::Written) => match spawned_at(replies, at + 1) {
            None => Outcome::Asks(
                HostCallView::Spawn {
                    name,
                    command: manager_command(manager_binary, name, node, extra_args, run_dir),
                },
                at + 1,
            ),
            Some(Err(m)) => Outcome::Fails(
                TestCaseError::ManagerSpawn { node_type: name, source: m@ },
                at + 2,
            ),
            Some(Ok(pid)) => Outcome::Gives(pid, at + 2),
        },
    }
}

/// The name of a node: the given one, or one made of its index.
pub open spec fn name_of_node(names: Seq<Seq<char>>, node: nat) -> Seq<char> {
    if node < names.len() {
        names[node as int]
    } else {
        "node_"@ + decimal(node)
    }
}

/// The nodes are started one after the other, where those before them are `done`.
pub open spec fn nodes_spawned(
    manager_binary: Seq<char>,
    versions: Seq<Seq<VersionView>>,
    names: Seq<Seq<char>>,
    extra_args: Seq<Seq<char>>,
    run_dir: Seq<char>,
    done: Seq<(Seq<char>, Option<u32>)>,
    replies: Seq<HostReply>,
    at: nat,
) -> Outcome<Seq<(Seq<char>, Option<u32>)>, TestCaseError<Seq<char>>>
    decreases versions.len() - done.len(),
{
    if done.len() >= versions.len() {
        Outcome::Gives(done, at)
    } else {
        let name = name_of_node(names, done.len());
        match node_spawned(
            manager_binary,
            name,
            done.len(),
            versions[done.len() as int],
            extra_args,
            run_dir,
            replies,
            at,
        ) {
            Outcome::Asks(call, stop) => Outcome::Asks(call, stop),
            Outcome::Fails(e, next) => Outcome::Fails(e, next),
            Outcome::Gives(pid, next) => nodes_spawned(
                manager_binary,
                versions,
                names,
                extra_args,
                run_dir,
                done.push((name, pid)),
                replies,
                next,
            ),
        }
    }
}

/// A registry to which the processes of a list have been added, in order.
pub open spec fn with_processes(
    registry: Seq<(Seq<char>, u32)>,
    processes: Seq<(Seq<char>, Option<u32>)>,
) -> Seq<(Seq<char>, u32)>
    decreases processes.len(),
{
    if processes.len() == 0 {
        registry
    } else {
        let earlier = with_processes(registry, processes.drop_last());
        match processes.last().1 {
            Some(pid) => earlier.push((processes.last().0, pid)),
            None => earlier,
        }
    }
}

/// What the exit of a node's manager amounts to.
pub open spec fn node_result(name: Seq<char>, outcome: Result<ExitStatus, String>) -> Option<
    TestCaseError<Seq<char>>,
> {
    match outcome {
        Err(m) => Some(TestCaseError::ManagerWait { node_type: name, source: m@ }),
        Ok(status) => if status.succeeded() {
            None
        } else {
            Some(TestCaseError::ManagerNonZeroExit { node_type: name, status })
        },
    }
}

/// What the end of a node amounts to.
pub open spec fn exit_error(exit: NodeExit) -> Option<TestCaseError<Seq<char>>> {
    match exit {
        NodeExit::Exited { name, outcome } => node_result(name@, outcome),
        NodeExit::Panicked(m) => Some(
            TestCaseError::NodeTaskPanic { node_type: "unknown"@, source: m@ },
        ),
        NodeExit::NoneLeft => None,
    }
}

/// The nodes are shut down after one has failed: those that are left are asked to terminate, get
/// time for that, and are then given up on.
pub open spec fn nodes_shut_down(pids: Seq<u32>, replies: Seq<HostReply>, at: nat) -> Result<
    nat,
    (HostCallView, nat),
> {
    if !done_at(replies, at) {
        Err((HostCallView::Terminate { pids }, at))
    } else if !done_at(replies, at + 1) {
        Err((HostCallView::Sleep { millis: GRACEFUL_SHUTDOWN_MILLIS }, at + 1))
    } else if !done_at(replies, at + 2) {
        Err((HostCallView::AbortNodes, at + 2))
    } else {
        Ok(at + 3)
    }
}

/// The nodes are waited for until all have completed or one has failed; the error of that one.
pub open spec fn nodes_awaited(pids: Seq<u32>, replies: Seq<HostReply>, at: nat) -> Outcome<
    Option<TestCaseError<Seq<char>>>,
    TestCaseError<Seq<char>>,
>
    decreases replies.len() - at,
{
    match node_exit_at(replies, at) {
        None => Outcome::Asks(HostCallView::NextExit, at),
        Some(NodeExit::NoneLeft) => Outcome::Gives(None, at + 1),
        Some(exit) => match exit_error(exit) {
            None => nodes_awaited(pids, replies, at + 1),
            Some(e) => match nodes_shut_down(pids, replies, at + 1) {
                Err((call, stop)) => Outcome::Asks(call, stop),
                Ok(next) => Outcome::Gives(Some(e), next),
            },
        },
    }
}

/// The nodes are over, with an error or without one, and the soak test is told of it.
pub open spec fn nodes_over(
    error: Option<TestCaseError<Seq<char>>>,
    notify_soak: bool,
    replies: Seq<HostReply>,
    at: nat,
) -> Outcome<(), TestCaseError<Seq<char>>> {
    if notify_soak && !done_at(replies, at) {
        Outcome::Asks(HostCallView::NotifySoak, at)
    } else {
        let next = if notify_soak {
            at + 1
        } else {
            at
        };
        match error {
            Some(e) => Outcome::Fails(e, next),
            None => Outcome::Gives((), next),
        }
    }
}

/// The nodes that have been started are seen through.
pub open spec fn nodes_finished(
    pids: Seq<u32>,
    notify_soak: bool,
    replies: Seq<HostReply>,
    at: nat,
) -> Outcome<(), TestCaseError<Seq<char>>> {
    match nodes_awaited(pids, replies, at) {
        Outcome::Asks(call, stop) => Outcome::Asks(call, stop),
        Outcome::Fails(e, next) => Outcome::Fails(e, next),
        Outcome::Gives(error, over) => nodes_over(error, notify_soak, replies, over),
    }
}

/// What running all nodes needs to know.
#[verifier::ext_equal]
pub struct NodesView {
    pub manager_binary: Seq<char>,
    pub versions: Seq<Seq<VersionView>>,
    pub names: Seq<Seq<char>>,
    pub extra_args: Seq<Seq<char>>,
    pub run_dir: Seq<char>,
}

impl NodesView {
    /// The nodes are started.
    pub open spec fn spawned(self, replies: Seq<HostReply>, at: nat) -> Outcome<
        Seq<(Seq<char>, Option<u32>)>,
        TestCaseError<Seq<char>>,
    > {
        nodes_spawned(
            self.manager_binary,
            self.versions,
            self.names,
            self.extra_args,
            self.run_dir,
            seq![],
            replies,
            at,
        )
    }

    /// All nodes are run: they are started, registered, and seen through. Where one cannot be
    /// started, those that have been are given up on.
    pub open spec fn run(
        self,
        notify_soak: bool,
        registry: Seq<(Seq<char>, u32)>,
        replies: Seq<HostReply>,
        at: nat,
    ) -> Outcome<(), TestCaseError<Seq<char>>> {
        match self.spawned(replies, at) {
            Outcome::Asks(call, stop) => Outcome::Asks(call, stop),
            Outcome::Fails(e, failed) => if !done_at(replies, failed) {
                Outcome::Asks(HostCallView::AbortNodes, failed)
            } else {
                nodes_over(Some(e), notify_soak, replies, failed + 1)
            },
            Outcome::Gives(processes, started) => nodes_finished(
                registered_pids(with_processes(registry, processes)),
                notify_soak,
                replies,
                started,
            ),
        }
    }

    /// The registry after that, or as far as it has come.
    pub open spec fn registry_after(
        self,
        registry: Seq<(Seq<char>, u32)>,
        replies: Seq<HostReply>,
        at: nat,
    ) -> Seq<(Seq<char>, u32)> {
        match self.spawned(replies, at) {
            Outcome::Gives(processes, _) => with_processes(registry, processes),
            _ => registry,
        }
    }
}

/// What running all nodes needs to know.
#[derive(Debug)]
pub struct Nodes<'a> {
    /// Path to the rollup-manager binary.
    pub manager_binary: &'a String,
    /// Version configurations for all nodes (nodes\[0\] = master).
    pub versions: &'a NodeVersions,
    /// Names for each node (for logging), matching indices in versions.nodes.
    pub node_names: &'a Vec<String>,
    /// Additional arguments passed through to rollup (e.g., `--genesis-path`).
    pub extra_args: &'a Vec<String>,
    /// Working directory for all nodes (configs use relative paths from here).
    pub run_dir: &'a String,
}

impl<'a> View for Nodes<'a> {
    type V = NodesView;

    open spec fn view(&self) -> NodesView {
        NodesView {
            manager_binary: self.manager_binary@,
            versions: self.versions.deep_view(),
            names: self.node_names.deep_view(),
            extra_args: self.extra_args.deep_view(),
            run_dir: self.run_dir@,
        }
    }
}

/// A copy of a list of versions.
pub fn copy_versions(versions: &Vec<RollupVersion>) -> (r: Vec<RollupVersion>)
    ensures
        r@ == versions@,
        r.deep_view() == versions.deep_view(),
{
    let mut r: Vec<RollupVersion> = Vec::new();
    let mut i: usize = 0;
    while i < versions.len()
        invariant
            i <= versions.len(),
            r@ == versions@.take(i as int),
        decreases versions.len() - i,
    {
        r.push(versions[i].clone());
        assert(versions@.take(i + 1) =~= versions@.take(i as int).push(versions@[i as int]));
        i = i + 1;
    }
    assert(versions@.take(i as int) =~= versions@);
    assert(r.deep_view() =~= versions.deep_view());
    r
}

/// Spawn a single rollup-manager process for a node.
fn spawn_node(
    manager_binary: &String,
    node_name: &String,
    node_idx: usize,
    versions: &Vec<RollupVersion>,
    extra_args: &Vec<String>,
    run_dir: &String,
    journal: &mut Journal,
) -> (r: Result<Option<u32>, Stop<TestCaseError>>)
    requires
        node_idx < MAX_NODES,
    ensures
        outcome(r, *final(journal)) == node_spawned(
            manager_binary@,
            node_name@,
            node_idx as nat,
            versions.deep_view(),
            extra_args.deep_view(),
            run_dir@,
            old(journal).replies@,
            old(journal).next as nat,
        ),
        final(journal).replies == old(journal).replies,
{
    let config_filename = concat3("manager_config_", node_name, ".json");
    let path = join_path(run_dir, config_filename.as_str());
    let config = ManagerConfig { versions: copy_versions(versions) };
    match journal.ask_config_write(HostCall::WriteManagerConfig { path, config })? {
        ConfigWrite::NotSerialized(m) => {
            return Err(Stop::Fail(TestCaseError::SerializeManagerConfig(m)));
        },
        ConfigWrite::NotWritten(source) => {
            let node_type = node_name.clone();
            return Err(Stop::Fail(TestCaseError::WriteManagerConfig { node_type, source }));
        },
        ConfigWrite::Written => {},
    }

    let metrics_port = decimal_text(METRICS_BASE_PORT as u64 + node_idx as u64);
    let mut args = no_args();
    push_arg(&mut args, "-c");
    push_arg(&mut args, config_filename.as_str());
    push_arg(&mut args, "--no-checkpoint-file");
    push_arg(&mut args, "--");
    push_all(&mut args, extra_args);
    push_arg(&mut args, "--metrics");
    push_arg(&mut args, metrics_port.as_str());
    let command = CommandSpec {
        program: manager_binary.clone(),
        args,
        current_dir: Some(run_dir.clone()),
    };
    assert(command@ =~= manager_command(
        manager_binary@,
        node_name@,
        node_idx as nat,
        extra_args.deep_view(),
        run_dir@,
    ));
    match journal.ask_spawned(HostCall::Spawn { name: node_name.clone(), command })? {
        Ok(pid) => Ok(pid),
        Err(source) => {
            let node_type = node_name.clone();
            Err(Stop::Fail(TestCaseError::ManagerSpawn { node_type, source }))
        },
    }
}

/// Wait for a node's rollup-manager process to complete.
fn wait_for_node(node_name: String, waited: Result<ExitStatus, String>) -> (r: Result<
    (),
    TestCaseError,
>)
    ensures
        match node_result(node_name@, waited) {
            None => r is Ok,
            Some(e) => r is Err && r->Err_0.deep_view() == e,
        },
{
    match waited {
        Err(source) => Err(TestCaseError::ManagerWait { node_type: node_name, source }),
        Ok(status) => {
            if !status.success() {
                return Err(TestCaseError::ManagerNonZeroExit { node_type: node_name, status });
            }
            Ok(())
        },
    }
}

fn shut_down_nodes(registry: &ProcessRegistry, journal: &mut Journal) -> (r: Result<
    (),
    Stop<TestCaseError>,
>)
    ensures
        final(journal).replies == old(journal).replies,
        match nodes_shut_down(
            registered_pids(registry.deep_view()),
            old(journal).replies@,
            old(journal).next as nat,
        ) {
            Ok(next) => r is Ok && final(journal).next == next,
            Err((call, stop)) => r matches Err(Stop::Ask(c)) && c@ == call && final(journal).next
                == stop,
        },
{
    journal.ask_done(HostCall::Terminate { pids: registry.terminate_all() })?;
    journal.ask_done(HostCall::Sleep { millis: GRACEFUL_SHUTDOWN_MILLIS })?;
    journal.ask_done(HostCall::AbortNodes)
}

/// Waits until all nodes have completed or one has failed.
fn await_nodes(registry: &ProcessRegistry, journal: &mut Journal) -> (r: Result<
    Option<TestCaseError>,
    Stop<TestCaseError>,
>)
    ensures
        outcome(r, *final(journal)) == nodes_awaited(
            registered_pids(registry.deep_view()),
            old(journal).replies@,
            old(journal).next as nat,
        ),
        final(journal).replies == old(journal).replies,
{
    let ghost pids = registered_pids(registry.deep_view());
    let ghost replies = journal.replies@;
    let ghost whole = nodes_awaited(pids, replies, journal.next as nat);
    loop
        invariant
            pids == registered_pids(registry.deep_view()),
            replies == journal.replies@,
            journal.replies == old(journal).replies,
            whole == nodes_awaited(pids, replies, old(journal).next as nat),
            whole == nodes_awaited(pids, replies, journal.next as nat),
        decreases replies.len() - journal.next,
    {
        let error = match journal.ask_node_exit(HostCall::NextExit)? {
            NodeExit::NoneLeft => {
                return Ok(None);
            },
            NodeExit::Exited { name, outcome } => wait_for_node(name, outcome),
            NodeExit::Panicked(source) => {
                let node_type = "unknown".to_string();
                Err(TestCaseError::NodeTaskPanic { node_type, source })
            },
        };
        if let Err(e) = error {
            shut_down_nodes(registry, journal)?;
            return Ok(Some(e));
        }
    }
}

fn name_node(names: &Vec<String>, node: usize) -> (name: String)
    ensures
        name@ == name_of_node(names.deep_view(), node as nat),
{
    if node < names.len() {
        names[node].clone()
    } else {
        let index = decimal_text(node as u64);
        concat2("node_", index.as_str())
    }
}

impl<'a> Nodes<'a> {
    fn spawn(&self, journal: &mut Journal) -> (r: Result<
        Vec<(String, Option<u32>)>,
        Stop<TestCaseError>,
    >)
        requires
            self.versions.nodes@.len() <= MAX_NODES,
        ensures
            outcome(r, *final(journal)) == self@.spawned(
                old(journal).replies@,
                old(journal).next as nat,
            ),
            final(journal).replies == old(journal).replies,
    {
        let ghost v = self@;
        let ghost replies = journal.replies@;
        let ghost whole = v.spawned(replies, journal.next as nat);
        let mut processes: Vec<(String, Option<u32>)> = Vec::new();
        assert(processes.deep_view() =~= seq![]);
        while processes.len() < self.versions.nodes.len()
            invariant
                processes.len() <= self.versions.nodes.len() <= MAX_NODES,
                v == self@,
                replies == journal.replies@,
                journal.replies == old(journal).replies,
                whole == v.spawned(replies, old(journal).next as nat),
                whole == nodes_spawned(
                    v.manager_binary,
                    v.versions,
                    v.names,
                    v.extra_args,
                    v.run_dir,
                    processes.deep_view(),
                    replies,
                    journal.next as nat,
                ),
            decreases self.versions.nodes.len() - processes.len(),
        {
            let node: usize = processes.len();
            let ghost done = processes.deep_view();
            let name = name_node(self.node_names, node);
            let pid: Option<u32> = spawn_node(
                self.manager_binary,
                &name,
                node,
                &self.versions.nodes[node],
                self.extra_args,
                self.run_dir,
                journal,
            )?;
            let process = (name, pid);
            processes.push(process);
            assert(process.deep_view() == (name@, pid));
            assert(processes.deep_view() =~= done.push(process.deep_view()));
        }
        Ok(processes)
    }
}

fn register_processes(processes: Vec<(String, Option<u32>)>, registry: &mut ProcessRegistry)
    ensures
        final(registry).deep_view() == with_processes(
            old(registry).deep_view(),
            processes.deep_view(),
        ),
{
    let ghost all = processes.deep_view();
    let ghost before = registry.deep_view();
    let mut i: usize = 0;
    while i < processes.len()
        invariant
            i <= processes.len(),
            all == processes.deep_view(),
            registry.deep_view() == with_processes(before, all.take(i as int)),
        decreases processes.len() - i,
    {
        assert(all.take(i + 1).drop_last() =~= all.take(i as int));
        assert(all[i as int].0 == processes@[i as int].0@);
        assert(all[i as int].1 == processes@[i as int].1);
        if let Some(pid) = processes[i].1 {
            registry.register(processes[i].0.clone(), pid);
        }
        i = i + 1;
    }
    assert(all.take(i as int) =~= all);
}

/// Tells the soak test, where there is one, that the nodes are over, and gives their result.
fn conclude(error: Option<TestCaseError>, notify_soak: bool, journal: &mut Journal) -> (r: Result<
    (),
    Stop<TestCaseError>,
>)
    ensures
        outcome(r, *final(journal)) == nodes_over(
            match error {
                Some(e) => Some(e.deep_view()),
                None => None,
            },
            notify_soak,
            old(journal).replies@,
            old(journal).next as nat,
        ),
        final(journal).replies == old(journal).replies,
{
    if notify_soak {
        journal.ask_done(HostCall::NotifySoak)?;
    }
    match error {
        Some(e) => Err(Stop::Fail(e)),
        None => Ok(()),
    }
}

/// Spawn and monitor rollup-manager processes for all nodes.
///
/// All nodes are started roughly simultaneously and monitored in parallel.
/// If any node fails, all other nodes are terminated (SIGTERM) and the error
/// is propagated; if one cannot be started, the others are given up on. The soak test, where there
/// is one, is told when nodes complete or fail.
pub fn run_nodes(
    manager_binary: &String,
    versions: &NodeVersions,
    node_names: &Vec<String>,
    extra_args: &Vec<String>,
    run_dir: &String,
    notify_soak: bool,
    registry: &mut ProcessRegistry,
    journal: &mut Journal,
) -> (r: Result<(), Stop<TestCaseError>>)
    requires
        versions.nodes@.len() <= MAX_NODES,
    ensures
        ({
            let nodes = NodesView {
                manager_binary: manager_binary@,
                versions: versions.deep_view(),
                names: node_names.deep_view(),
                extra_args: extra_args.deep_view(),
                run_dir: run_dir@,
            };
            let replies = old(journal).replies@;
            let at = old(journal).next as nat;
            &&& outcome(r, *final(journal)) == nodes.run(
                notify_soak,
                old(registry).deep_view(),
                replies,
                at,
            )
            &&& final(registry).deep_view() == nodes.registry_after(
                old(registry).deep_view(),
                replies,
                at,
            )
        }),
        final(journal).replies == old(journal).replies,
{
    let nodes = Nodes { manager_binary, versions, node_names, extra_args, run_dir };
    let processes = match nodes.spawn(journal) {
        Ok(processes) => processes,
        Err(Stop::Ask(call)) => {
            return Err(Stop::Ask(call));
        },
        Err(Stop::Fail(e)) => {
            journal.ask_done(HostCall::AbortNodes)?;
            return conclude(Some(e), notify_soak, journal);
        },
    };
    register_processes(processes, registry);
    let error = await_nodes(registry, journal)?;
    conclude(error, notify_soak, journal)
}

proof fn awaited_exits(pids: Seq<u32>, replies: Seq<HostReply>, at: nat)
    ensures
        nodes_awaited(pids, replies, at) matches Outcome::Gives(None, next) ==> {
            &&& at < next <= replies.len()
            &&& replies[next - 1] == HostReply::NodeExit(NodeExit::NoneLeft)
            &&& forall|k: int|
                at <= k < next - 1 ==> ((#[trigger] replies[k]) matches HostReply::NodeExit(exit)
                    && exit_error(exit) is None)
        },
    decreases replies.len() - at,
{
    match node_exit_at(replies, at) {
        Some(exit) => {
            if !(exit is NoneLeft) && exit_error(exit) is None {
                awaited_exits(pids, replies, at + 1);
            }
        },
        None => {},
    }
}

/// Nodes that have been run without an error have all been reported to have succeeded, and none
/// is left; and the soak test, where there is one, has been told.
pub proof fn success_means_every_node_succeeded(
    nodes: NodesView,
    notify_soak: bool,
    registry: Seq<(Seq<char>, u32)>,
    replies: Seq<HostReply>,
    at: nat,
) -> (range: (nat, nat))
    ensures
        nodes.run(notify_soak, registry, replies, at) matches Outcome::Gives(_, next) ==> {
            let (started, over) = range;
            &&& started < over <= replies.len()
            &&& nodes.spawned(replies, at) matches Outcome::Gives(_, s) && s == started
            &&& replies[over - 1] == HostReply::NodeExit(NodeExit::NoneLeft)
            &&& forall|k: int|
                started <= k < over - 1 ==> ((#[trigger] replies[k]) matches HostReply::NodeExit(
                    exit,
                ) && exit_error(exit) is None)
            &&& if notify_soak {
                done_at(replies, over) && next == over + 1
            } else {
                next == over
            }
        },
{
    match nodes.spawned(replies, at) {
        Outcome::Gives(processes, started) => {
            let pids = registered_pids(with_processes(registry, processes));
            awaited_exits(pids, replies, started);
            match nodes_awaited(pids, replies, started) {
                Outcome::Gives(_, over) => (started, over),
                _ => (started, 0),
            }
        },
        _ => (0, 0),
    }
}

/// Where a node cannot be started, the run fails with that, and before it does so the nodes that
/// have been started are given up on and the soak test, where there is one, is told.
pub proof fn failed_start_abandons_the_nodes(
    nodes: NodesView,
    notify_soak: bool,
    registry: Seq<(Seq<char>, u32)>,
    replies: Seq<HostReply>,
    at: nat,
)
    ensures
        nodes.spawned(replies, at) matches Outcome::Fails(e, failed) ==> match nodes.run(
            notify_soak,
            registry,
            replies,
            at,
        ) {
            Outcome::Asks(call, stop) => {
                ||| stop == failed && call == HostCallView::AbortNodes
                ||| notify_soak && stop == failed + 1 && call == HostCallView::NotifySoak
            },
            Outcome::Fails(error, next) => {
                &&& error == e
                &&& done_at(replies, failed)
                &&& notify_soak ==> done_at(replies, failed + 1)
                &&& next == failed + if notify_soak {
                    2nat
                } else {
                    1nat
                }
            },
            Outcome::Gives(_, _) => false,
        },
{
}

/// The first node that fails decides the error, and every registered process is asked to
/// terminate before the run ends with it.
pub proof fn failing_node_ends_the_run(
    pids: Seq<u32>,
    exit: NodeExit,
    replies: Seq<HostReply>,
    at: nat,
)
    requires
        node_exit_at(replies, at) == Some(exit),
        exit_error(exit) is Some,
    ensures
        !done_at(replies, at + 1) ==> nodes_awaited(pids, replies, at) == Outcome::<
            Option<TestCaseError<Seq<char>>>,
            TestCaseError<Seq<char>>,
        >::Asks(HostCallView::Terminate { pids }, at + 1),
        nodes_awaited(pids, replies, at) matches Outcome::Gives(error, _) ==> error == exit_error(
            exit,
        ) && done_at(replies, at + 1),
{
}

/// The manager binary is built.
pub open spec fn manager_binary_built(replies: Seq<HostReply>, at: nat) -> Outcome<
    Seq<char>,
    TestCaseError<Seq<char>>,
> {
    match text_at(replies, at) {
        None => Outcome::Asks(HostCallView::BuildManager, at),
        Some(Err(m)) => Outcome::Fails(
            TestCaseError::BuildManager("escargot build failed: "@ + m@),
            at + 1,
        ),
        Some(Ok(path)) => Outcome::Gives(path@, at + 1),
    }
}

/// Build the rollup-manager binary.
pub fn build_manager_binary(journal: &mut Journal) -> (r: Result<String, Stop<TestCaseError>>)
    ensures
        outcome(r, *final(journal)) == manager_binary_built(
            old(journal).replies@,
            old(journal).next as nat,
        ),
        final(journal).replies == old(journal).replies,
{
    match journal.ask_text(HostCall::BuildManager)? {
        Ok(path) => Ok(path),
        Err(m) => {
            let message = concat2("escargot build failed: ", m.as_str());
            Err(Stop::Fail(TestCaseError::BuildManager(message)))
        },
    }
}

} // verus!

//! What holds of every run of the rollup versions, whatever events it meets.
use vstd::prelude::*;

use crate::checkpoint::{Checkpoint, CheckpointWrite};
use crate::config::FileRead;
use crate::process::ExitStatus;
use crate::runner::{
    exit_code_of, exit_verdict, migration_verdict, MonitorStage, RunActionView, RunEvent, RunMachine, RunPhase,
    RunnerError, TerminateReason,
};

verus! {

/// The run after a sequence of events.
pub open spec fn after(m: RunMachine, events: Seq<RunEvent>) -> RunMachine
    decreases events.len(),
{
    if events.len() == 0 {
        m
    } else {
        after(m, events.drop_last()).stepped(events.last())
    }
}

/// The run just before the event at `k`.
pub open spec fn before(m: RunMachine, events: Seq<RunEvent>, k: int) -> RunMachine {
    after(m, events.take(k))
}

/// Whether an event completes the version at `i`: its process has exited, and the verdict on
/// that is success.
pub open spec fn completes(m: RunMachine, event: RunEvent, i: int) -> bool {
    match (m.phase, event) {
        (
            RunPhase::Monitoring {
                version,
                stage: MonitorStage::FinalHeight { status },
                last_known_height,
            },
            RunEvent::Height(height),
        ) => {
            let v = m.versions@[version as int];
            let known = if height is Some {
                height
            } else {
                last_known_height
            };
            version == i && exit_verdict(
                status,
                known,
                v.stop_height,
                v.rollup_binary,
                m.height_slack,
            ) is Ok
        },
        _ => false,
    }
}

/// Whether an event tells a run that is looking for a checkpoint that it names version `i`.
pub open spec fn resumes_at(m: RunMachine, event: RunEvent, i: int) -> bool {
    &&& m.phase is LoadingCheckpoint
    &&& event matches RunEvent::CheckpointLoaded(Some(FileRead::Parsed(c))) && c.version_index == i
}

/// Whether an event reports that the checkpoint for version `i` has been written.
pub open spec fn checkpoints(m: RunMachine, event: RunEvent, i: int) -> bool {
    &&& m.phase matches RunPhase::WritingCheckpoint { version } && version == i
    &&& event == RunEvent::CheckpointWritten(CheckpointWrite::Written)
}

/// Whether an event reports that the migration for version `i` has succeeded.
pub open spec fn migrates(m: RunMachine, event: RunEvent, i: int) -> bool {
    &&& m.phase matches RunPhase::Migrating { version } && version == i
    &&& event matches RunEvent::MigrationDone(outcome) && migration_verdict(
        m.versions@[i].migration_path->0,
        outcome,
    ) is Ok
}

proof fn takes(m: RunMachine, events: Seq<RunEvent>, k: int)
    requires
        events.len() > 0,
        0 <= k < events.len(),
    ensures
        before(m, events, k) == before(m, events.drop_last(), k),
        k < events.len() - 1 ==> events[k] == events.drop_last()[k],
        before(m, events, events.len() - 1) == after(m, events.drop_last()),
        before(m, events, events.len() as int) == after(m, events),
{
    assert(events.take(k) =~= events.drop_last().take(k));
    assert(events.take(events.len() - 1) =~= events.drop_last());
    assert(events.take(events.len() as int) =~= events);
}

proof fn step_keeps(m: RunMachine, event: RunEvent)
    requires
        m.wf(),
    ensures
        m.stepped(event).wf(),
{
    reveal(RunMachine::next);
    assert(m.versions@.len() == m.versions.len());
    match m.phase {
        RunPhase::Monitoring { .. } => {},
        RunPhase::Terminating { .. } => {},
        _ => {},
    }
}

pub(crate) proof fn after_keeps(m: RunMachine, events: Seq<RunEvent>)
    requires
        m.wf(),
    ensures
        after(m, events).wf(),
        after(m, events).versions == m.versions,
        after(m, events).checkpoint_config == m.checkpoint_config,
        after(m, events).extra_args == m.extra_args,
        after(m, events).height_slack == m.height_slack,
    decreases events.len(),
{
    if events.len() > 0 {
        after_keeps(m, events.drop_last());
        step_keeps(after(m, events.drop_last()), events.last());
    }
}

/// A version gives way only to the next one, and only when its process has exited and been found
/// to have done its part.
pub proof fn next_version_needs_completion(m: RunMachine, event: RunEvent)
    requires
        m.wf(),
    ensures
        m.version() matches Some(i) ==> m.stepped(event).version() matches Some(j) ==> j == i || (j
            == i + 1 && completes(m, event, i)),
{
    reveal(RunMachine::next);
    assert(m.versions@.len() == m.versions.len());
}

/// Whether one of the events has completed version `i`.
pub open spec fn version_completed(m: RunMachine, events: Seq<RunEvent>, i: int) -> bool {
    exists|k: int|
        0 <= k < events.len() && completes(#[trigger] before(m, events, k), events[k], i)
}

/// Whether the versions from `s` to `end` have each been completed.
pub open spec fn completed(m: RunMachine, events: Seq<RunEvent>, s: int, end: int) -> bool {
    forall|i: int| s <= i < end ==> #[trigger] version_completed(m, events, i)
}

/// Whether the run was told to start at version `s`, or starts at the first.
pub open spec fn started_at(m: RunMachine, events: Seq<RunEvent>, s: int) -> bool {
    s == 0 || exists|k: int|
        0 <= k < events.len() && resumes_at(#[trigger] before(m, events, k), events[k], s)
}

/// Whether the run has never been occupied with a version before `s`.
pub open spec fn skips_to(m: RunMachine, events: Seq<RunEvent>, s: int) -> bool {
    forall|k: int|
        0 <= k <= events.len() ==> ((#[trigger] before(m, events, k)).version() matches Some(i)
            ==> s <= i)
}

proof fn completed_grows(m: RunMachine, events: Seq<RunEvent>, s: int, end: int)
    requires
        events.len() > 0,
        completed(m, events.drop_last(), s, end),
    ensures
        completed(m, events, s, end),
{
    assert forall|i: int| s <= i < end implies #[trigger] version_completed(m, events, i) by {
        assert(version_completed(m, events.drop_last(), i));
        let k = choose|k: int|
            0 <= k < events.drop_last().len() && completes(
                #[trigger] before(m, events.drop_last(), k),
                events.drop_last()[k],
                i,
            );
        takes(m, events, k);
    }
}

proof fn started_grows(m: RunMachine, events: Seq<RunEvent>, s: int)
    requires
        events.len() > 0,
        started_at(m, events.drop_last(), s),
    ensures
        started_at(m, events, s),
{
    if s != 0 {
        let k = choose|k: int|
            0 <= k < events.drop_last().len() && resumes_at(
                #[trigger] before(m, events.drop_last(), k),
                events.drop_last()[k],
                s,
            );
        takes(m, events, k);
    }
}

proof fn skips_grows(m: RunMachine, events: Seq<RunEvent>, s: int)
    requires
        events.len() > 0,
        skips_to(m, events.drop_last(), s),
        after(m, events).version() matches Some(i) ==> s <= i,
    ensures
        skips_to(m, events, s),
{
    assert forall|k: int| 0 <= k <= events.len() implies ((#[trigger] before(
        m,
        events,
        k,
    )).version() matches Some(i) ==> s <= i) by {
        if k < events.len() {
            takes(m, events, k);
        } else {
            takes(m, events, 0);
        }
    }
}

/// How far a run has come: the version it is occupied with, or all of them once it has succeeded.
pub open spec fn reached(m: RunMachine) -> Option<int> {
    match m.phase {
        RunPhase::Finished(Ok(())) => Some(m.versions@.len() as int),
        _ => m.version(),
    }
}

proof fn reached_step(m: RunMachine, event: RunEvent)
    requires
        m.wf(),
    ensures
        m.stepped(event).phase is LoadingCheckpoint ==> m.phase is LoadingCheckpoint,
        m.phase is LoadingCheckpoint ==> (reached(m.stepped(event)) matches Some(end) ==> match event {
            RunEvent::CheckpointLoaded(Some(FileRead::Parsed(c))) => end == c.version_index,
            _ => end == 0,
        }),
        m.phase !is LoadingCheckpoint ==> (reached(m.stepped(event)) matches Some(end) ==> {
            &&& reached(m) is Some
            &&& end == reached(m)->0 || (end == reached(m)->0 + 1 && completes(
                m,
                event,
                reached(m)->0,
            ))
        }),
{
    reveal(RunMachine::next);
    assert(m.versions@.len() == m.versions.len());
    match m.phase {
        RunPhase::Monitoring { .. } => {},
        RunPhase::Terminating { .. } => {},
        _ => {},
    }
}

/// The versions run in sequence, each at most once: a run starts at the first version or at the
/// one that the checkpoint names, is never occupied with an earlier one, and every version
/// between the start and the one that it has reached has been completed. In particular a run
/// that succeeds has completed all of them.
pub proof fn versions_run_in_sequence(m: RunMachine, events: Seq<RunEvent>) -> (s: int)
    requires
        m.wf(),
        m.phase == m.initial(),
    ensures
        reached(after(m, events)) matches Some(end) ==> {
            &&& 0 <= s <= end
            &&& started_at(m, events, s)
            &&& skips_to(m, events, s)
            &&& completed(m, events, s, end)
        },
        after(m, events).phase is LoadingCheckpoint ==> forall|k: int|
            0 <= k <= events.len() ==> (#[trigger] before(m, events, k)).version() is None,
    decreases events.len(),
{
    if events.len() == 0 {
        assert(events.take(0) =~= events);
        assert(before(m, events, 0) == m);
        0
    } else {
        let rest = events.drop_last();
        let s = versions_run_in_sequence(m, rest);
        let p = after(m, rest);
        let e = events.last();
        let q = after(m, events);
        after_keeps(m, rest);
        after_keeps(m, events);
        takes(m, events, events.len() - 1);
        reached_step(p, e);
        if reached(q) is None {
            if q.phase is LoadingCheckpoint {
                assert forall|k: int| 0 <= k <= events.len() implies (#[trigger] before(
                    m,
                    events,
                    k,
                )).version() is None by {
                    if k < events.len() {
                        takes(m, events, k);
                    }
                }
            }
            s
        } else if p.phase is LoadingCheckpoint {
            let t: int = match e {
                RunEvent::CheckpointLoaded(Some(FileRead::Parsed(c))) => c.version_index as int,
                _ => 0,
            };
            assert(t != 0 ==> resumes_at(before(m, events, events.len() - 1), e, t));
            assert forall|k: int| 0 <= k <= events.len() implies ((#[trigger] before(
                m,
                events,
                k,
            )).version() matches Some(i) ==> t <= i) by {
                if k < events.len() {
                    takes(m, events, k);
                }
            }
            t
        } else {
            let end = reached(p)->0;
            assert(reached(p) is Some);
            started_grows(m, events, s);
            completed_grows(m, events, s, end);
            skips_grows(m, events, s);
            if reached(q)->0 != end {
                assert(completes(before(m, events, events.len() - 1), e, end));
                assert(version_completed(m, events, end));
                assert(reached(q)->0 == end + 1);
            }
            s
        }
    }
}

proof fn checkpoint_step(m: RunMachine, event: RunEvent)
    requires
        m.wf(),
        m.checkpoint_config is Enabled,
    ensures
        m.stepped(event).version() matches Some(i) ==> {
            ||| m.stepped(event).phase == (RunPhase::WritingCheckpoint { version: i as usize })
            ||| checkpoints(m, event, i)
            ||| m.version() == Some(i) && !(m.phase is WritingCheckpoint)
        },
{
    reveal(RunMachine::next);
    assert(m.versions@.len() == m.versions.len());
}

proof fn migration_step(m: RunMachine, event: RunEvent)
    requires
        m.wf(),
    ensures
        m.stepped(event).version() matches Some(i) ==> m.versions@[i].migration_path is Some ==> {
            ||| m.stepped(event).phase is WritingCheckpoint
            ||| m.stepped(event).phase is Migrating
            ||| migrates(m, event, i)
            ||| m.version() == Some(i) && !(m.phase is WritingCheckpoint) && !(
            m.phase is Migrating)
        },
{
    reveal(RunMachine::next);
    assert(m.versions@.len() == m.versions.len());
}

/// With checkpoints enabled, a version is neither migrated for nor launched before a checkpoint
/// that names it has been written.
pub proof fn checkpoint_precedes_version(m: RunMachine, events: Seq<RunEvent>) -> (k: int)
    requires
        m.wf(),
        m.phase == m.initial(),
        m.checkpoint_config is Enabled,
    ensures
        after(m, events).version() matches Some(i) ==> {
            ||| after(m, events).phase == (RunPhase::WritingCheckpoint { version: i as usize })
            ||| 0 <= k < events.len() && checkpoints(before(m, events, k), events[k], i)
        },
    decreases events.len(),
{
    if events.len() == 0 {
        0
    } else {
        let rest = events.drop_last();
        let k = checkpoint_precedes_version(m, rest);
        after_keeps(m, rest);
        takes(m, events, events.len() - 1);
        let p = after(m, rest);
        checkpoint_step(p, events.last());
        if 0 <= k < rest.len() {
            takes(m, events, k);
        }
        if p.phase is WritingCheckpoint {
            events.len() - 1
        } else {
            k
        }
    }
}

/// A version that has a migration is not launched before that migration has succeeded.
pub proof fn migration_precedes_launch(m: RunMachine, events: Seq<RunEvent>) -> (k: int)
    requires
        m.wf(),
        m.phase == m.initial(),
    ensures
        after(m, events).version() matches Some(i) ==> m.versions@[i].migration_path is Some ==> {
            ||| after(m, events).phase is WritingCheckpoint
            ||| after(m, events).phase is Migrating
            ||| 0 <= k < events.len() && migrates(before(m, events, k), events[k], i)
        },
    decreases events.len(),
{
    if events.len() == 0 {
        0
    } else {
        let rest = events.drop_last();
        let k = migration_precedes_launch(m, rest);
        after_keeps(m, rest);
        takes(m, events, events.len() - 1);
        let p = after(m, rest);
        migration_step(p, events.last());
        if 0 <= k < rest.len() {
            takes(m, events, k);
        }
        if p.phase is Migrating {
            events.len() - 1
        } else {
            k
        }
    }
}

/// A checkpoint that a run has written is accepted by a later run of the same versions, which
/// resumes at the version that it was written for.
pub proof fn checkpoint_resumes_its_version(m: RunMachine, later: RunMachine, c: Checkpoint)
    requires
        m.wf(),
        m.action_view() matches RunActionView::WriteCheckpoint { checkpoint, .. } && checkpoint
            == c,
        later.wf(),
        later.versions@ == m.versions@,
        later.checkpoint_config is Enabled,
        later.phase == later.initial(),
    ensures
        later.stepped(RunEvent::CheckpointLoaded(Some(FileRead::Parsed(c)))).phase == m.phase,
{
    reveal(RunMachine::next);
}

/// The checkpoint that was last written.
pub open spec fn last_written(m: RunMachine, events: Seq<RunEvent>) -> Option<Checkpoint>
    decreases events.len(),
{
    if events.len() == 0 {
        None
    } else {
        match (after(m, events.drop_last()).action_view(), events.last()) {
            (
                RunActionView::WriteCheckpoint { checkpoint, .. },
                RunEvent::CheckpointWritten(CheckpointWrite::Written),
            ) => Some(checkpoint),
            _ => last_written(m, events.drop_last()),
        }
    }
}

/// The version whose process was last started.
pub open spec fn last_launched(m: RunMachine, events: Seq<RunEvent>) -> Option<int>
    decreases events.len(),
{
    if events.len() == 0 {
        None
    } else {
        match (after(m, events.drop_last()).phase, events.last()) {
            (RunPhase::Launching { version, .. }, RunEvent::Launched(Ok(()))) => Some(
                version as int,
            ),
            _ => last_launched(m, events.drop_last()),
        }
    }
}

/// Whether a checkpoint is the one of version `i`.
pub open spec fn names(m: RunMachine, checkpoint: Option<Checkpoint>, i: int) -> bool {
    &&& 0 <= i < m.versions@.len()
    &&& checkpoint matches Some(c) && c.version_index == i && c.binary_path
        == m.versions@[i].rollup_binary
}

/// How the phase of a run, the checkpoint last written and the version last started belong
/// together, where `past` says which versions have been completed.
spec fn in_step(
    m: RunMachine,
    written: Option<Checkpoint>,
    launched: Option<int>,
    past: spec_fn(int) -> bool,
) -> bool {
    &&& match m.phase {
        RunPhase::LoadingCheckpoint => launched is None,
        RunPhase::WritingCheckpoint { version } => launched is None || (launched == Some(
            version - 1,
        ) && names(m, written, version - 1) && past(version - 1)),
        RunPhase::Migrating { version } | RunPhase::ReadingPort { version } => names(
            m,
            written,
            version as int,
        ) && (launched is None || (launched == Some(version - 1) && past(version - 1))),
        RunPhase::RegisteringSignals { version, .. } | RunPhase::Launching { version, .. } => names(
            m,
            written,
            version as int,
        ) && (launched is None || (launched == Some(version - 1) && past(version - 1))),
        RunPhase::Monitoring { version, .. } => names(m, written, version as int) && launched
            == Some(version as int),
        RunPhase::Terminating { version, .. } => names(m, written, version as int) && launched
            == Some(version as int),
        RunPhase::Finished(Ok(())) => names(m, written, m.versions@.len() - 1),
        RunPhase::Finished(Err(_)) => true,
    }
    &&& launched matches Some(i) ==> names(m, written, i) || (names(m, written, i + 1) && past(i))
}

proof fn in_step_step(
    m: RunMachine,
    event: RunEvent,
    written: Option<Checkpoint>,
    launched: Option<int>,
    past: spec_fn(int) -> bool,
    past_after: spec_fn(int) -> bool,
)
    requires
        m.wf(),
        m.checkpoint_config is Enabled,
        m.versions@.len() > 0,
        in_step(m, written, launched, past),
        forall|i: int| past(i) ==> #[trigger] past_after(i),
        forall|i: int| completes(m, event, i) ==> #[trigger] past_after(i),
    ensures
        in_step(
            m.stepped(event),
            match (m.action_view(), event) {
                (
                    RunActionView::WriteCheckpoint { checkpoint, .. },
                    RunEvent::CheckpointWritten(CheckpointWrite::Written),
                ) => Some(checkpoint),
                _ => written,
            },
            match (m.phase, event) {
                (RunPhase::Launching { version, .. }, RunEvent::Launched(Ok(()))) => Some(
                    version as int,
                ),
                _ => launched,
            },
            past_after,
        ),
{
    reveal(RunMachine::next);
    assert(m.versions@.len() == m.versions.len());
    match m.phase {
        RunPhase::Monitoring { version, .. } => {
            assert(completes(m, event, version as int) ==> past_after(version as int));
        },
        RunPhase::Terminating { .. } => {},
        RunPhase::WritingCheckpoint { .. } => {},
        _ => {},
    }
}

proof fn runs_in_step(m: RunMachine, events: Seq<RunEvent>)
    requires
        m.wf(),
        m.phase == m.initial(),
        m.checkpoint_config is Enabled,
        m.versions@.len() > 0,
    ensures
        in_step(
            after(m, events),
            last_written(m, events),
            last_launched(m, events),
            |i: int| version_completed(m, events, i),
        ),
    decreases events.len(),
{
    if events.len() > 0 {
        let rest = events.drop_last();
        let p = after(m, rest);
        let past = |i: int| version_completed(m, rest, i);
        let past_after = |i: int| version_completed(m, events, i);
        runs_in_step(m, rest);
        after_keeps(m, rest);
        takes(m, events, events.len() - 1);
        assert forall|i: int| past(i) implies #[trigger] past_after(i) by {
            assert(completed(m, rest, i, i + 1));
            completed_grows(m, events, i, i + 1);
            assert(version_completed(m, events, i));
        }
        assert forall|i: int| completes(p, events.last(), i) implies #[trigger] past_after(i) by {
            assert(completes(before(m, events, events.len() - 1), events[events.len() - 1], i));
        }
        in_step_step(
            p,
            events.last(),
            last_written(m, rest),
            last_launched(m, rest),
            past,
            past_after,
        );
    }
}

/// With checkpoints enabled, the checkpoint that was last written names the version that the run
/// is occupied with, once it is past writing that checkpoint, and the last version of all once the
/// run has succeeded. However far a run has come, it names the version whose process was last
/// started, or the one after it where that version has been completed.
pub proof fn checkpoint_names_the_version_run(m: RunMachine, events: Seq<RunEvent>)
    requires
        m.wf(),
        m.phase == m.initial(),
        m.checkpoint_config is Enabled,
        m.versions@.len() > 0,
    ensures
        after(m, events).phase !is WritingCheckpoint ==> (after(m, events).version() matches Some(i)
            ==> names(m, last_written(m, events), i)),
        after(m, events).phase matches RunPhase::Finished(Ok(_)) ==> names(
            m,
            last_written(m, events),
            m.versions@.len() - 1,
        ),
        last_launched(m, events) matches Some(i) ==> {
            ||| names(m, last_written(m, events), i)
            ||| names(m, last_written(m, events), i + 1) && version_completed(m, events, i)
        },
{
    runs_in_step(m, events);
    after_keeps(m, events);
}

/// A later run of the same versions that finds the checkpoint of a version begins there.
pub proof fn restart_begins_where_the_checkpoint_is(later: RunMachine, c: Checkpoint, i: int)
    requires
        later.wf(),
        later.checkpoint_config is Enabled,
        later.phase == later.initial(),
        names(later, Some(c), i),
    ensures
        later.stepped(RunEvent::CheckpointLoaded(Some(FileRead::Parsed(c)))).version() == Some(i),
{
    reveal(RunMachine::next);
}

proof fn ending_step(m: RunMachine, event: RunEvent)
    ensures
        m.phase is Finished ==> m.stepped(event) == m,
        m.phase matches RunPhase::Terminating { reason: TerminateReason::CleanUp { error }, .. }
            ==> ({
            ||| m.stepped(event).phase matches RunPhase::Terminating {
                reason: TerminateReason::CleanUp { error: e },
                ..
            } && e == error
            ||| m.stepped(event).phase == RunPhase::Finished(Err(error))
        }),
        m.phase matches RunPhase::Terminating { version, .. } ==> ({
            ||| m.stepped(event).phase matches RunPhase::Terminating { version: v, .. } && v
                == version
            ||| m.stepped(event).phase matches RunPhase::Finished(r) && r is Err
        }),
{
    reveal(RunMachine::next);
}

/// A run that is over stays as it is.
pub proof fn finished_is_final(m: RunMachine, events: Seq<RunEvent>)
    requires
        m.phase is Finished,
    ensures
        after(m, events) == m,
    decreases events.len(),
{
    if events.len() > 0 {
        finished_is_final(m, events.drop_last());
        ending_step(m, events.last());
    }
}

/// Once a failed rollup is being cleaned up after, the run ends with the error that it failed
/// with, whatever the cleaning up meets.
pub proof fn failure_is_kept(m: RunMachine, error: RunnerError, events: Seq<RunEvent>)
    requires
        ({
            ||| m.phase matches RunPhase::Terminating {
                reason: TerminateReason::CleanUp { error: e },
                ..
            } && e == error
            ||| m.phase == RunPhase::Finished(Err(error))
        }),
    ensures
        ({
            ||| after(m, events).phase matches RunPhase::Terminating {
                reason: TerminateReason::CleanUp { error: e },
                ..
            } && e == error
            ||| after(m, events).phase == RunPhase::Finished(Err(error))
        }),
    decreases events.len(),
{
    if events.len() > 0 {
        failure_is_kept(m, error, events.drop_last());
        ending_step(after(m, events.drop_last()), events.last());
    }
}

/// A rollup that is being terminated is the last one of its run, which then fails.
pub proof fn termination_ends_the_run(m: RunMachine, events: Seq<RunEvent>)
    requires
        m.phase is Terminating,
    ensures
        ({
            ||| after(m, events).phase is Terminating
            ||| after(m, events).phase matches RunPhase::Finished(r) && r is Err
        }),
    decreases events.len(),
{
    if events.len() > 0 {
        termination_ends_the_run(m, events.drop_last());
        ending_step(after(m, events.drop_last()), events.last());
    }
}

proof fn failed_exit(m: RunMachine, height: Option<u64>, error: RunnerError, events: Seq<RunEvent>)
    requires
        m.wf(),
        m.phase matches RunPhase::Monitoring {
            version,
            stage: MonitorStage::FinalHeight { status },
            last_known_height,
        } && exit_verdict(
            status,
            if height is Some {
                height
            } else {
                last_known_height
            },
            m.versions@[version as int].stop_height,
            m.versions@[version as int].rollup_binary,
            m.height_slack,
        ) == Err::<(), RunnerError>(error),
    ensures
        after(m.stepped(RunEvent::Height(height)), events).phase matches RunPhase::Finished(r) ==> r
            == Err::<(), RunnerError>(error),
{
    let n = m.stepped(RunEvent::Height(height));
    assert(n.phase matches RunPhase::Terminating {
        reason: TerminateReason::CleanUp { error: e },
        ..
    } && e == error) by {
        reveal(RunMachine::next);
    }
    failure_is_kept(n, error, events);
}

/// Where a rollup exits with a non-zero code, the manager exits with the same code once the run is
/// over.
pub proof fn exit_code_is_passed_on(
    m: RunMachine,
    code: i32,
    height: Option<u64>,
    events: Seq<RunEvent>,
)
    requires
        m.wf(),
        m.phase matches RunPhase::Monitoring { stage: MonitorStage::FinalHeight { status }, .. }
            && status == ExitStatus::Exited(code),
        0 < code < 256,
    ensures
        after(m.stepped(RunEvent::Height(height)), events).phase matches RunPhase::Finished(r)
            ==> exit_code_of(r) == code,
{
    match m.phase {
        RunPhase::Monitoring { version, stage: MonitorStage::FinalHeight { status }, .. } => {
            let path = m.versions@[version as int].rollup_binary;
            failed_exit(m, height, RunnerError::NonZeroExit { path, status }, events);
        },
        _ => {},
    }
}

/// Where a rollup exits with code 0 but not at its stop height, or without one, the manager exits
/// with a non-zero code once the run is over.
pub proof fn unexpected_exit_fails_the_manager(
    m: RunMachine,
    height: Option<u64>,
    events: Seq<RunEvent>,
)
    requires
        m.wf(),
        m.phase matches RunPhase::Monitoring {
            version,
            stage: MonitorStage::FinalHeight { status },
            last_known_height,
        } && {
            let known = if height is Some {
                height
            } else {
                last_known_height
            };
            let stop = m.versions@[version as int].stop_height;
            &&& status.succeeded()
            &&& !(stop is Some && known is Some && known->0 <= stop->0 && stop->0 <= known->0
                + m.height_slack)
        },
    ensures
        after(m.stepped(RunEvent::Height(height)), events).phase matches RunPhase::Finished(r)
            ==> exit_code_of(r) != 0,
{
    match m.phase {
        RunPhase::Monitoring {
            version,
            stage: MonitorStage::FinalHeight { status },
            last_known_height,
        } => {
            let v = m.versions@[version as int];
            let known = if height is Some {
                height
            } else {
                last_known_height
            };
            let error = exit_verdict(
                status,
                known,
                v.stop_height,
                v.rollup_binary,
                m.height_slack,
            )->Err_0;
            failed_exit(m, height, error, events);
        },
        _ => {},
    }
}

/// A height above the stop height fails the run, and no later version starts.
pub proof fn exceeding_the_stop_height_fails(
    m: RunMachine,
    height: u64,
    events: Seq<RunEvent>,
)
    requires
        m.wf(),
        m.phase matches RunPhase::Monitoring { version, stage: MonitorStage::Height, .. }
            && m.versions@[version as int].stop_height is Some
            && m.versions@[version as int].stop_height->0 < height,
    ensures
        after(m.stepped(RunEvent::Height(Some(height))), events).phase matches RunPhase::Finished(
            r,
        ) ==> r is Err,
        after(m.stepped(RunEvent::Height(Some(height))), events).version() matches Some(i) ==> Some(
            i,
        ) == m.version(),
    decreases events.len(),
{
    let n = m.stepped(RunEvent::Height(Some(height)));
    assert(n.phase is Terminating && n.version() == m.version()) by {
        reveal(RunMachine::next);
    }
    termination_ends_the_run(n, events);
    if events.len() > 0 {
        exceeding_the_stop_height_fails(m, height, events.drop_last());
        termination_ends_the_run(n, events.drop_last());
        ending_step(after(n, events.drop_last()), events.last());
    }
}

} // verus!

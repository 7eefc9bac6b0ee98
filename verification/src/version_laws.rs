//! What a run does for each of its versions, and what it makes of what it is told.
use vstd::prelude::*;

use crate::checkpoint::{Checkpoint, CheckpointConfig, CheckpointError, CheckpointWrite};
use crate::config::{FileRead, ManagerConfig};
use crate::path::components;
use crate::process::ExitStatus;
use crate::rollup_api::RollupApiError;
use crate::run_laws::{after, after_keeps};
use crate::runner::{
    exit_code_of, starts, EndSignal, MigrationOutcome, MonitorStage, RunActionView, RunEvent,
    RunMachine, RunPhase, RunnerError, TerminateReason, TerminateStage,
};
use crate::text::decimal;

verus! {

/// Whatever a run has met, every launch that it asks for starts the binary of the version that it
/// is occupied with, on that version's config and heights, and hands on the run's extra arguments:
/// they are the last arguments, in their order, whatever the version's heights.
pub proof fn every_launch_has_the_extra_arguments(m: RunMachine, events: Seq<RunEvent>)
    requires
        m.wf(),
    ensures
        after(m, events).action_view() matches RunActionView::Launch { command, .. } ==> {
            let extra = m.extra_args.deep_view();
            &&& after(m, events).version() matches Some(i) && {
                let v = m.versions@[i];
                let own = command.args.take(command.args.len() - extra.len());
                &&& 0 <= i < m.versions@.len()
                &&& command.program == v.rollup_binary@
                &&& command.current_dir is None
                &&& command.args.len() >= 2 + extra.len()
                &&& command.args.skip(command.args.len() - extra.len()) == extra
                &&& own == match (v.start_height, v.stop_height) {
                    (None, None) => seq!["--rollup-config-path"@, v.config_path@],
                    (Some(start), None) => seq![
                        "--rollup-config-path"@,
                        v.config_path@,
                        "--start-at-rollup-height"@,
                        decimal(start as nat),
                    ],
                    (None, Some(stop)) => seq![
                        "--rollup-config-path"@,
                        v.config_path@,
                        "--stop-at-rollup-height"@,
                        decimal(stop as nat),
                    ],
                    (Some(start), Some(stop)) => seq![
                        "--rollup-config-path"@,
                        v.config_path@,
                        "--start-at-rollup-height"@,
                        decimal(start as nat),
                        "--stop-at-rollup-height"@,
                        decimal(stop as nat),
                    ],
                }
            }
        },
{
    after_keeps(m, events);
    let p = after(m, events);
    match p.action_view() {
        RunActionView::Launch { command, .. } => {
            let v = m.versions@[p.version()->0];
            let extra = m.extra_args.deep_view();
            let own = match (v.start_height, v.stop_height) {
                (None, None) => seq!["--rollup-config-path"@, v.config_path@],
                (Some(start), None) => seq![
                    "--rollup-config-path"@,
                    v.config_path@,
                    "--start-at-rollup-height"@,
                    decimal(start as nat),
                ],
                (None, Some(stop)) => seq![
                    "--rollup-config-path"@,
                    v.config_path@,
                    "--stop-at-rollup-height"@,
                    decimal(stop as nat),
                ],
                (Some(start), Some(stop)) => seq![
                    "--rollup-config-path"@,
                    v.config_path@,
                    "--start-at-rollup-height"@,
                    decimal(start as nat),
                    "--stop-at-rollup-height"@,
                    decimal(stop as nat),
                ],
            };
            assert(command.args =~= own + extra);
            assert(command.args.skip(command.args.len() - extra.len()) =~= extra);
            assert(command.args.take(command.args.len() - extra.len()) =~= own);
        },
        _ => {},
    }
}

/// Whatever a run has met, every migration that it asks for runs the migration binary of the
/// version that it is occupied with on that version's config, with no other arguments.
pub proof fn migration_gets_the_config(m: RunMachine, events: Seq<RunEvent>)
    requires
        m.wf(),
    ensures
        after(m, events).action_view() matches RunActionView::RunMigration { command } ==> {
            &&& after(m, events).version() matches Some(i) && {
                &&& 0 <= i < m.versions@.len()
                &&& m.versions@[i].migration_path matches Some(path) && command.program == path@
                &&& command.args == seq!["--rollup-config-path"@, m.versions@[i].config_path@]
                &&& command.current_dir is None
            }
        },
{
    after_keeps(m, events);
}

/// A rollup's heights are read on the port that its own config file was found to bind.
pub proof fn launch_follows_the_port_read(m: RunMachine, port: u16)
    requires
        m.wf(),
        m.action_view() is ReadHttpPort,
    ensures
        m.version() matches Some(i) && m.action_view() == (RunActionView::ReadHttpPort {
            config_path: m.versions@[i].config_path@,
        }),
        ({
            let registering = m.stepped(RunEvent::PortRead(FileRead::Parsed(port)));
            let launching = registering.stepped(RunEvent::SignalsRegistered(Ok(())));
            &&& registering.action_view() is RegisterSignals
            &&& launching.version() == m.version()
            &&& launching.action_view() matches RunActionView::Launch { port: p, .. } && p == port
        }),
{
    reveal(RunMachine::next);
}

/// Whether two paths have the same root and, one by one, the same components.
pub open spec fn componentwise_equal(p: Seq<char>, q: Seq<char>) -> bool {
    &&& (p.len() > 0 && p[0] == '/') == (q.len() > 0 && q[0] == '/')
    &&& components(p).len() == components(q).len()
    &&& forall|k: int|
        0 <= k < components(p).len() ==> #[trigger] components(p)[k] == components(q)[k]
}

/// A run goes on from the version that a checkpoint names exactly where its configuration has that
/// version with the binary that the checkpoint names, which is compared component by component,
/// from the root to the last one. Otherwise the run is over, with an error that says what did not
/// fit.
pub proof fn checkpoint_has_to_fit_the_config(m: RunMachine, c: Checkpoint)
    requires
        m.wf(),
        m.phase is LoadingCheckpoint,
    ensures
        ({
            let next = m.stepped(RunEvent::CheckpointLoaded(Some(FileRead::Parsed(c))));
            let i = c.version_index;
            if i >= m.versions@.len() {
                next.phase matches RunPhase::Finished(
                    Err(RunnerError::CheckpointIndexOutOfBounds { index, count }),
                ) && index == i && count == m.versions@.len()
            } else if componentwise_equal(c.binary_path@, m.versions@[i as int].rollup_binary@) {
                &&& next.version() == Some(i as int)
                &&& next.phase == (RunPhase::WritingCheckpoint { version: i })
            } else {
                next.phase matches RunPhase::Finished(
                    Err(
                        RunnerError::CheckpointBinaryMismatch {
                            index,
                            checkpoint_path,
                            config_path,
                        },
                    ),
                ) && index == i && checkpoint_path == c.binary_path && config_path
                    == m.versions@[i as int].rollup_binary
            }
        }),
{
    reveal(RunMachine::next);
    let i = c.version_index;
    if i < m.versions@.len() {
        let p = c.binary_path@;
        let q = m.versions@[i as int].rollup_binary@;
        if componentwise_equal(p, q) {
            assert(components(p) =~= components(q));
        }
    }
}

/// Where there is no checkpoint file a run starts at its first version; where the file cannot be
/// read or understood the run is over, with the reason.
pub proof fn missing_checkpoint_starts_afresh(m: RunMachine, message: String)
    requires
        m.wf(),
        m.phase is LoadingCheckpoint,
        m.versions@.len() > 0,
    ensures
        m.stepped(RunEvent::CheckpointLoaded(None)).version() == Some(0int),
        m.stepped(RunEvent::CheckpointLoaded(Some(FileRead::Unreadable(message)))).phase
            == RunPhase::Finished(
            Err(RunnerError::CheckpointRead(CheckpointError::Read(message))),
        ),
        m.stepped(RunEvent::CheckpointLoaded(Some(FileRead::Malformed(message)))).phase
            == RunPhase::Finished(
            Err(RunnerError::CheckpointRead(CheckpointError::Parse(message))),
        ),
{
    reveal(RunMachine::next);
}

/// A checkpoint is looked for and written at the path that the run was given, and nowhere where
/// checkpoints are disabled. One that could not be written ends the run.
pub proof fn checkpoint_stays_at_its_path(m: RunMachine, events: Seq<RunEvent>, message: String)
    requires
        m.wf(),
    ensures
        after(m, events).action_view() matches RunActionView::LoadCheckpoint { path: p } ==>
            m.checkpoint_config matches CheckpointConfig::Enabled { path } && p == path@,
        after(m, events).action_view() matches RunActionView::WriteCheckpoint { path: p, .. } ==>
            m.checkpoint_config matches CheckpointConfig::Enabled { path } && p == path@,
        after(m, events).action_view() is WriteCheckpoint ==> after(m, events).stepped(
            RunEvent::CheckpointWritten(CheckpointWrite::NotWritten(message)),
        ).phase == RunPhase::Finished(
            Err(RunnerError::CheckpointWrite(CheckpointError::Write(message))),
        ),
        after(m, events).action_view() is WriteCheckpoint ==> after(m, events).stepped(
            RunEvent::CheckpointWritten(CheckpointWrite::NotSerialized(message)),
        ).phase == RunPhase::Finished(
            Err(RunnerError::CheckpointWrite(CheckpointError::Serialize(message))),
        ),
{
    after_keeps(m, events);
    reveal(RunMachine::next);
}

/// A migration that could not be started or waited for, or did not exit with success, ends the run
/// with an error that names it; after one that succeeded the version is launched.
pub proof fn failed_migration_ends_the_run(
    m: RunMachine,
    version: usize,
    message: String,
    status: ExitStatus,
)
    requires
        m.wf(),
        m.phase == (RunPhase::Migrating { version }),
    ensures
        m.versions@[version as int].migration_path matches Some(path) && {
            &&& m.stepped(
                RunEvent::MigrationDone(MigrationOutcome::NotSpawned(message)),
            ).phase == RunPhase::Finished(Err(RunnerError::Spawn { path, source: message }))
            &&& m.stepped(
                RunEvent::MigrationDone(MigrationOutcome::NotAwaited(message)),
            ).phase == RunPhase::Finished(Err(RunnerError::Wait { path, source: message }))
            &&& status != ExitStatus::Exited(0) ==> m.stepped(
                RunEvent::MigrationDone(MigrationOutcome::Finished(status)),
            ).phase == RunPhase::Finished(Err(RunnerError::NonZeroExit { path, status }))
            &&& status == ExitStatus::Exited(0) ==> m.stepped(
                RunEvent::MigrationDone(MigrationOutcome::Finished(status)),
            ).phase == (RunPhase::ReadingPort { version })
        },
{
    reveal(RunMachine::next);
}

/// A rollup whose port, signals or process could not be had is not run: the run ends with the
/// reason.
pub proof fn failed_launch_ends_the_run(m: RunMachine, message: String)
    requires
        m.wf(),
    ensures
        m.action_view() is RegisterSignals ==> m.stepped(
            RunEvent::SignalsRegistered(Err(message)),
        ).phase == RunPhase::Finished(Err(RunnerError::SignalRegistration(message))),
        m.action_view() is Launch ==> m.stepped(RunEvent::Launched(Err(message))).phase
            == RunPhase::Finished(
            Err(
                RunnerError::Spawn {
                    path: m.versions@[m.version()->0].rollup_binary,
                    source: message,
                },
            ),
        ),
{
    reveal(RunMachine::next);
}

/// Whether a rollup that has failed is now being ended, so that the run is to fail with an error.
pub open spec fn is_failing_with(m: RunMachine, version: usize, error: RunnerError) -> bool {
    m.phase == (RunPhase::Terminating {
        version,
        stage: TerminateStage::Sigterm,
        reason: TerminateReason::CleanUp { error },
    })
}

/// What a rollup that has exited is held to: it has to exit with success, it has to have been given
/// a stop height, its height has to be known, and that has to be no higher than the stop height and
/// no more than the slack below it. The first of these that fails is the run's error. The height is
/// the one read after the exit, or else the last one read before. A rollup that meets them all is
/// followed by the next version, or by a good end.
pub proof fn exit_is_judged(
    m: RunMachine,
    version: usize,
    status: ExitStatus,
    last: Option<u64>,
    read: Option<u64>,
)
    requires
        m.wf(),
        m.phase == (RunPhase::Monitoring {
            version,
            stage: MonitorStage::FinalHeight { status },
            last_known_height: last,
        }),
    ensures
        ({
            let next = m.stepped(RunEvent::Height(read));
            let v = m.versions@[version as int];
            let known = match read {
                Some(h) => Some(h),
                None => last,
            };
            if status != ExitStatus::Exited(0) {
                is_failing_with(
                    next,
                    version,
                    RunnerError::NonZeroExit { path: v.rollup_binary, status },
                )
            } else if v.stop_height is None {
                is_failing_with(
                    next,
                    version,
                    RunnerError::UnexpectedExit { last_known_height: known },
                )
            } else if known is None {
                is_failing_with(
                    next,
                    version,
                    RunnerError::UnknownExitHeight { stop_height: v.stop_height->0 },
                )
            } else if known->0 > v.stop_height->0 {
                is_failing_with(
                    next,
                    version,
                    RunnerError::ExceededStopHeight {
                        current_height: known->0,
                        stop_height: v.stop_height->0,
                    },
                )
            } else if known->0 + m.height_slack < v.stop_height->0 {
                is_failing_with(
                    next,
                    version,
                    RunnerError::PrematureExit {
                        current_height: known->0,
                        stop_height: v.stop_height->0,
                    },
                )
            } else if version + 1 < m.versions@.len() {
                next.version() == Some(version + 1)
            } else {
                next.phase matches RunPhase::Finished(Ok(_))
            }
        }),
{
    reveal(RunMachine::next);
    assert(m.versions@.len() == m.versions.len());
}

/// While a rollup runs, its latest height is kept, and one past its stop height has it ended; an
/// exit leads to one more read of the height once the stream of heights has drained.
pub proof fn heights_are_watched(
    m: RunMachine,
    version: usize,
    last: Option<u64>,
    read: Option<u64>,
    status: ExitStatus,
)
    requires
        m.wf(),
        m.phase == (RunPhase::Monitoring {
            version,
            stage: MonitorStage::Height,
            last_known_height: last,
        }),
    ensures
        ({
            let next = m.stepped(RunEvent::Height(read));
            let exited = next.stepped(RunEvent::Exited(status));
            let drained = exited.stepped(RunEvent::Drained);
            let waiting = next.stepped(RunEvent::StillRunning);
            let known = match read {
                Some(h) => Some(h),
                None => last,
            };
            if read is Some && m.versions@[version as int].stop_height is Some && read->0
                > m.versions@[version as int].stop_height->0 {
                next.phase == (RunPhase::Terminating {
                    version,
                    stage: TerminateStage::Sigterm,
                    reason: TerminateReason::Exceeded {
                        current_height: read->0,
                        stop_height: m.versions@[version as int].stop_height->0,
                    },
                })
            } else {
                &&& next.action_view() is CheckExit
                &&& exited.action_view() == (RunActionView::DrainHeights { timeout_millis: 2000 })
                &&& drained.action_view() is ReadHeight
                &&& drained.phase == (RunPhase::Monitoring {
                    version,
                    stage: MonitorStage::FinalHeight { status },
                    last_known_height: known,
                })
                &&& waiting.action_view() == (RunActionView::Sleep { millis: 200 })
                &&& waiting.stepped(RunEvent::Slept).action_view() is ReadSignals
                &&& waiting.stepped(RunEvent::Slept).phase matches RunPhase::Monitoring {
                    version: w,
                    last_known_height,
                    ..
                } && w == version && last_known_height == known
            }
        }),
{
    reveal(RunMachine::next);
}

/// Of the signals that reach the manager, termination and quit requests are passed on to the
/// rollup, in the order in which they came, and no others.
pub proof fn end_requests_are_passed_on(m: RunMachine, received: Vec<i32>)
    requires
        m.wf(),
        m.action_view() is ReadSignals,
    ensures
        m.stepped(RunEvent::Signals(received)).action_view() == (RunActionView::ForwardSignals {
            signals: received@.filter(|sig: i32| sig == 15 || sig == 3),
        }),
        m.stepped(RunEvent::Signals(received)).stepped(RunEvent::Forwarded).action_view()
            is ReadHeight,
{
    reveal(RunMachine::next);
    assert(received@.filter(|sig: i32| sig == 15 || sig == 3) =~= received@.filter(
        |sig: i32| crate::runner::is_forwarded(sig),
    )) by {
        filters_agree(received@);
    }
}

proof fn filters_agree(s: Seq<i32>)
    ensures
        s.filter(|sig: i32| sig == 15 || sig == 3) == s.filter(
            |sig: i32| crate::runner::is_forwarded(sig),
        ),
    decreases s.len(),
{
    reveal(Seq::filter);
    if s.len() > 0 {
        filters_agree(s.drop_last());
    }
}

/// A rollup that is to be ended is asked to terminate first. It is killed only where it is still
/// running and at least fifteen seconds have passed since; until then it is asked about again and
/// again.
pub proof fn termination_is_graceful_first(
    m: RunMachine,
    version: usize,
    reason: TerminateReason,
    millis: u64,
)
    requires
        m.wf(),
        m.phase == (RunPhase::Terminating { version, stage: TerminateStage::Sigterm, reason }),
    ensures
        m.action_view() == (RunActionView::SendSignal { signal: EndSignal::Term }),
        ({
            let asked = m.stepped(RunEvent::SignalSent(Ok(())));
            let running = asked.stepped(RunEvent::StillRunning);
            let timed = running.stepped(RunEvent::Elapsed { millis });
            &&& asked.action_view() is CheckExit
            &&& running.action_view() is ReadClock
            &&& millis >= 15000 ==> {
                &&& timed.action_view() == (RunActionView::SendSignal { signal: EndSignal::Kill })
                &&& timed.stepped(RunEvent::SignalSent(Ok(()))).action_view() is AwaitExit
            }
            &&& millis < 15000 ==> {
                &&& timed.action_view() == (RunActionView::Sleep { millis: 100 })
                &&& timed.stepped(RunEvent::Slept).phase == asked.phase
            }
        }),
{
    reveal(RunMachine::next);
}

/// A rollup that went past its stop height fails the run with that once it has been ended, whether
/// it heeded the first signal or had to be killed.
pub proof fn overrun_fails_the_run(
    m: RunMachine,
    version: usize,
    stage: TerminateStage,
    current_height: u64,
    stop_height: u64,
    status: ExitStatus,
)
    requires
        m.wf(),
        stage is Check || stage is Reap,
        m.phase == (RunPhase::Terminating {
            version,
            stage,
            reason: TerminateReason::Exceeded { current_height, stop_height },
        }),
    ensures
        is_failing_with(
            m.stepped(RunEvent::Exited(status)),
            version,
            RunnerError::ExceededStopHeight { current_height, stop_height },
        ),
{
    reveal(RunMachine::next);
}

/// A run starts with the versions, the extra arguments, the slack and the checkpoint file that it
/// was asked for; with a checkpoint file it looks for the checkpoint there, and without one it
/// begins with the first version.
pub proof fn run_starts_as_asked(
    m: RunMachine,
    config: ManagerConfig,
    extra_args: Seq<Seq<char>>,
    height_slack: u64,
    checkpoint_config: CheckpointConfig,
)
    requires
        starts(m, config, extra_args, height_slack, checkpoint_config),
    ensures
        m.wf(),
        m.versions@ == config.versions@,
        m.extra_args.deep_view() == extra_args,
        m.height_slack == height_slack,
        m.checkpoint_config == checkpoint_config,
        match checkpoint_config {
            CheckpointConfig::Enabled { path } => m.action_view() == (
            RunActionView::LoadCheckpoint { path: path@ }),
            CheckpointConfig::Disabled => if config.versions@.len() > 0 {
                m.version() == Some(0int)
            } else {
                m.phase matches RunPhase::Finished(Ok(_))
            },
        },
{
}

/// The manager's exit code is 0 exactly after a run that succeeded, but for rollup codes whose low
/// eight bits are 0; where a rollup has failed with a code, it is the low eight bits of that.
pub proof fn exit_code_tells_of_the_run(result: Result<(), RunnerError>)
    ensures
        result is Ok ==> exit_code_of(result) == 0,
        result matches Err(e) ==> match e {
            RunnerError::NonZeroExit { status: ExitStatus::Exited(code), .. } => exit_code_of(
                result,
            ) == code as u8,
            _ => exit_code_of(result) == 1,
        },
{
}

/// A rollup that cannot be waited for while it runs fails the run with that, once it has been ended.
pub proof fn lost_rollup_fails_the_run(
    m: RunMachine,
    version: usize,
    last: Option<u64>,
    message: String,
)
    requires
        m.wf(),
        m.phase == (RunPhase::Monitoring {
            version,
            stage: MonitorStage::Exit,
            last_known_height: last,
        }),
    ensures
        is_failing_with(
            m.stepped(RunEvent::WaitFailed(message)),
            version,
            RunnerError::Wait {
                path: m.versions@[version as int].rollup_binary,
                source: message,
            },
        ),
{
    reveal(RunMachine::next);
}

/// A rollup that went past its stop height and then could not be signalled, or waited for, fails the
/// run with that; and one that is being cleaned up after fails it with what it had failed with, as
/// soon as the cleaning up ends, in whichever way.
pub proof fn failed_termination_is_told(
    m: RunMachine,
    version: usize,
    stage: TerminateStage,
    reason: TerminateReason,
    message: String,
    status: ExitStatus,
)
    requires
        m.wf(),
        m.phase == (RunPhase::Terminating { version, stage, reason }),
    ensures
        ({
            let unsent = m.stepped(RunEvent::SignalSent(Err(message)));
            let lost = m.stepped(RunEvent::WaitFailed(message));
            let exited = m.stepped(RunEvent::Exited(status));
            match reason {
                TerminateReason::Exceeded { .. } => {
                    &&& stage is Sigterm ==> is_failing_with(
                        unsent,
                        version,
                        RunnerError::Signal { signal: EndSignal::Term, source: message },
                    )
                    &&& stage is Sigkill ==> is_failing_with(
                        unsent,
                        version,
                        RunnerError::Signal { signal: EndSignal::Kill, source: message },
                    )
                    &&& stage is Check || stage is Reap ==> is_failing_with(
                        lost,
                        version,
                        RunnerError::Terminate(message),
                    )
                },
                TerminateReason::CleanUp { error } => {
                    &&& stage is Sigterm || stage is Sigkill ==> unsent.phase
                        == RunPhase::Finished(Err(error))
                    &&& stage is Check || stage is Reap ==> lost.phase == RunPhase::Finished(
                        Err(error),
                    )
                    &&& stage is Check || stage is Reap ==> exited.phase == RunPhase::Finished(
                        Err(error),
                    )
                },
            }
        }),
{
    reveal(RunMachine::next);
}

/// A config file that cannot be read, or that holds no port, ends the run with the file's path and
/// the reason.
pub proof fn unreadable_port_ends_the_run(m: RunMachine, version: usize, message: String)
    requires
        m.wf(),
        m.phase == (RunPhase::ReadingPort { version }),
    ensures
        m.stepped(RunEvent::PortRead(FileRead::Unreadable(message))).phase == RunPhase::Finished(
            Err(
                RunnerError::ApiClientInit(
                    RollupApiError::ReadConfig {
                        path: m.versions@[version as int].config_path,
                        source: message,
                    },
                ),
            ),
        ),
        m.stepped(RunEvent::PortRead(FileRead::Malformed(message))).phase == RunPhase::Finished(
            Err(
                RunnerError::ApiClientInit(
                    RollupApiError::ParseConfig {
                        path: m.versions@[version as int].config_path,
                        source: message,
                    },
                ),
            ),
        ),
{
    reveal(RunMachine::next);
}

/// A rollup that has been launched is watched from then on, with no height known yet: first the
/// signals are read. No event changes the versions, the arguments, the slack or the checkpoint file
/// of a run.
pub proof fn launched_rollup_is_watched(m: RunMachine, version: usize, port: u16, event: RunEvent)
    requires
        m.wf(),
        m.phase == (RunPhase::Launching { version, port }),
    ensures
        m.stepped(RunEvent::Launched(Ok(()))).phase == (RunPhase::Monitoring {
            version,
            stage: MonitorStage::Signals,
            last_known_height: None,
        }),
        m.stepped(RunEvent::Launched(Ok(()))).action_view() is ReadSignals,
        m.stepped(event).versions == m.versions,
        m.stepped(event).extra_args == m.extra_args,
        m.stepped(event).height_slack == m.height_slack,
        m.stepped(event).checkpoint_config == m.checkpoint_config,
{
    reveal(RunMachine::next);
}

} // verus!

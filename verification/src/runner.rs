//! Runner for executing rollup versions with height monitoring.
//!
//! A run is a state machine: it says which action to take next, and moves on when it is told
//! what came of that action.
use vstd::prelude::*;
use vstd::string::*;

use crate::checkpoint::{
    load_checkpoint, write_checkpoint, Checkpoint, CheckpointConfig, CheckpointError,
    CheckpointWrite,
};
use crate::config::{FileRead, ManagerConfig, RollupVersion};
use crate::path::is_same_path;
use crate::process::{
    no_args, push_all, push_arg, CommandSpec, CommandView, ExitStatus, SIGQUIT, SIGTERM,
};
use crate::rollup_api::{parse_http_port, RollupApiError};
use crate::text::{decimal, decimal_text};

verus! {

/// Interval between monitor-loop iterations (signal forwarding, height and exit checks).
pub const POLL_INTERVAL_MILLIS: u64 = 200;

/// Interval between checks whether a process has heeded SIGTERM.
pub const SHUTDOWN_POLL_INTERVAL_MILLIS: u64 = 100;

/// Grace period for SIGTERM before escalating to SIGKILL.
pub const GRACEFUL_SHUTDOWN_TIMEOUT_MILLIS: u64 = 15000;

/// Maximum time to wait, after the rollup process exits, for the height
/// subscription to drain any height updates still buffered on the socket.
pub const SUBSCRIPTION_DRAIN_TIMEOUT_MILLIS: u64 = 2000;

/// Default slack for height monitoring (blocks).
pub const DEFAULT_HEIGHT_SLACK: u64 = 10;

/// A signal that ends a process.
#[derive(Debug, Clone, Copy, PartialEq, Eq, Structural)]
pub enum EndSignal {
    Term,
    Kill,
}

/// Why a run failed.
#[derive(Debug)]
pub enum RunnerError {
    Spawn { path: String, source: String },
    NonZeroExit { path: String, status: ExitStatus },
    Wait { path: String, source: String },
    ApiClientInit(RollupApiError),
    PrematureExit { current_height: u64, stop_height: u64 },
    ExceededStopHeight { current_height: u64, stop_height: u64 },
    UnknownExitHeight { stop_height: u64 },
    UnexpectedExit { last_known_height: Option<u64> },
    Terminate(String),
    Signal { signal: EndSignal, source: String },
    SignalRegistration(String),
    CheckpointRead(CheckpointError),
    CheckpointWrite(CheckpointError),
    CheckpointIndexOutOfBounds { index: usize, count: usize },
    CheckpointBinaryMismatch { index: usize, checkpoint_path: String, config_path: String },
}

impl RunnerError {
    /// The exit code of the rollup process that failed, where there is one.
    pub open spec fn process_exit_code(self) -> Option<i32> {
        match self {
            RunnerError::NonZeroExit { status, .. } => status.exit_code(),
            _ => None,
        }
    }

    /// Returns the exit code from the failed rollup process, if available.
    ///
    /// This is only available for `NonZeroExit` errors where the process
    /// exited normally (not terminated by a signal).
    pub fn exit_code(&self) -> (code: Option<i32>)
        ensures
            code == self.process_exit_code(),
    {
        match self {
            RunnerError::NonZeroExit { status, .. } => status.code(),
            _ => None,
        }
    }
}

/// The code that the manager itself exits with after a run.
///
/// It is the failed rollup's own code (its low eight bits) where there is one.
pub open spec fn exit_code_of(result: Result<(), RunnerError>) -> u8 {
    match result {
        Ok(()) => 0,
        Err(e) => match e.process_exit_code() {
            Some(c) => c as u8,
            None => 1,
        },
    }
}

/// The code that the manager itself exits with after a run.
pub fn manager_exit_code(result: &Result<(), RunnerError>) -> (code: u8)
    ensures
        code == exit_code_of(*result),
{
    match result {
        Ok(()) => 0,
        Err(e) => match e.exit_code() {
            Some(c) => {
                #[verifier::truncate]
                (c as u8)
            },
            None => 1,
        },
    }
}

/// The arguments that a version's rollup binary is started with.
pub open spec fn rollup_args(v: RollupVersion) -> Seq<Seq<char>> {
    let config = seq!["--rollup-config-path"@, v.config_path@];
    let start = match v.start_height {
        Some(h) => seq!["--start-at-rollup-height"@, decimal(h as nat)],
        None => Seq::empty(),
    };
    let stop = match v.stop_height {
        Some(h) => seq!["--stop-at-rollup-height"@, decimal(h as nat)],
        None => Seq::empty(),
    };
    config + start + stop
}

/// Builds the arguments that a version's rollup binary is started with.
pub fn build_rollup_args(version: &RollupVersion) -> (args: Vec<String>)
    ensures
        args.deep_view() == rollup_args(*version),
{
    let mut args = no_args();
    push_arg(&mut args, "--rollup-config-path");
    push_arg(&mut args, version.config_path.as_str());
    if let Some(start) = version.start_height {
        let number = decimal_text(start);
        push_arg(&mut args, "--start-at-rollup-height");
        push_arg(&mut args, number.as_str());
    }
    if let Some(stop) = version.stop_height {
        let number = decimal_text(stop);
        push_arg(&mut args, "--stop-at-rollup-height");
        push_arg(&mut args, number.as_str());
    }
    assert(args.deep_view() =~= rollup_args(*version));
    args
}

/// The command that starts a version's rollup, with the arguments that every version gets.
pub open spec fn rollup_command(v: RollupVersion, extra_args: Seq<Seq<char>>) -> CommandView {
    CommandView {
        program: v.rollup_binary@,
        args: rollup_args(v) + extra_args,
        current_dir: None,
    }
}

/// The command that migrates state for a version.
pub open spec fn migration_command(v: RollupVersion) -> CommandView {
    CommandView {
        program: v.migration_path->0@,
        args: seq!["--rollup-config-path"@, v.config_path@],
        current_dir: None,
    }
}

/// What came of running a migration.
#[derive(Debug)]
pub enum MigrationOutcome {
    NotSpawned(String),
    NotAwaited(String),
    Finished(ExitStatus),
}

/// The verdict on a migration.
pub open spec fn migration_verdict(path: String, outcome: MigrationOutcome) -> Result<
    (),
    RunnerError,
> {
    match outcome {
        MigrationOutcome::NotSpawned(m) => Err(RunnerError::Spawn { path, source: m }),
        MigrationOutcome::NotAwaited(m) => Err(RunnerError::Wait { path, source: m }),
        MigrationOutcome::Finished(status) => if status.succeeded() {
            Ok(())
        } else {
            Err(RunnerError::NonZeroExit { path, status })
        },
    }
}

/// Judges what came of running a migration binary.
pub fn run_migration(path: &String, outcome: MigrationOutcome) -> (r: Result<(), RunnerError>)
    ensures
        r == migration_verdict(*path, outcome),
{
    match outcome {
        MigrationOutcome::NotSpawned(m) => Err(
            RunnerError::Spawn { path: path.clone(), source: m },
        ),
        MigrationOutcome::NotAwaited(m) => Err(RunnerError::Wait { path: path.clone(), source: m }),
        MigrationOutcome::Finished(status) => {
            if status.success() {
                Ok(())
            } else {
                Err(RunnerError::NonZeroExit { path: path.clone(), status })
            }
        },
    }
}

/// The lowest height at which a rollup that was to stop at `stop` may exit.
pub open spec fn min_acceptable(stop: u64, slack: u64) -> int {
    if slack <= stop {
        stop - slack
    } else {
        0
    }
}

/// The verdict on a rollup process that exited.
pub open spec fn exit_verdict(
    status: ExitStatus,
    last_known_height: Option<u64>,
    stop_height: Option<u64>,
    binary_path: String,
    height_slack: u64,
) -> Result<(), RunnerError> {
    if !status.succeeded() {
        Err(RunnerError::NonZeroExit { path: binary_path, status })
    } else {
        match (stop_height, last_known_height) {
            (None, _) => Err(RunnerError::UnexpectedExit { last_known_height }),
            (Some(stop), None) => Err(RunnerError::UnknownExitHeight { stop_height: stop }),
            (Some(stop), Some(height)) => if height > stop {
                Err(
                    RunnerError::ExceededStopHeight { current_height: height, stop_height: stop },
                )
            } else if height < min_acceptable(stop, height_slack) {
                Err(RunnerError::PrematureExit { current_height: height, stop_height: stop })
            } else {
                Ok(())
            },
        }
    }
}

/// Handle the rollup process exit, validating the final height.
///
/// The `height_slack` parameter controls how many blocks before the stop height
/// is still considered successful. This is useful for fast resync scenarios where
/// the rollup may exit before we can poll the final height.
pub fn handle_process_exit(
    status: ExitStatus,
    last_known_height: Option<u64>,
    stop_height: Option<u64>,
    binary_path: &String,
    height_slack: u64,
) -> (r: Result<(), RunnerError>)
    ensures
        r == exit_verdict(status, last_known_height, stop_height, *binary_path, height_slack),
        r is Ok <==> {
            &&& status.succeeded()
            &&& stop_height is Some
            &&& last_known_height is Some
            &&& last_known_height->0 <= stop_height->0
            &&& last_known_height->0 + height_slack >= stop_height->0
        },
{
    // If process exited with error, always propagate it
    if !status.success() {
        return Err(RunnerError::NonZeroExit { path: binary_path.clone(), status });
    }
    let stop = match stop_height {
        Some(stop) => stop,
        // The rollup should run indefinitely unless given a stop height.
        None => {
            return Err(RunnerError::UnexpectedExit { last_known_height });
        },
    };
    let height = match last_known_height {
        Some(height) => height,
        None => {
            return Err(RunnerError::UnknownExitHeight { stop_height: stop });
        },
    };
    let min_acceptable = stop.saturating_sub(height_slack);
    if height >= min_acceptable && height <= stop {
        Ok(())
    } else if height < min_acceptable {
        Err(RunnerError::PrematureExit { current_height: height, stop_height: stop })
    } else {
        Err(RunnerError::ExceededStopHeight { current_height: height, stop_height: stop })
    }
}

/// Whether a signal to the manager is passed on to the rollup.
pub open spec fn is_forwarded(sig: i32) -> bool {
    sig == SIGTERM || sig == SIGQUIT
}

/// The signals to pass on, in the order in which they came.
pub fn forwarded_signals(received: &Vec<i32>) -> (r: Vec<i32>)
    ensures
        r@ == received@.filter(|sig: i32| is_forwarded(sig)),
{
    let ghost pass = |sig: i32| is_forwarded(sig);
    let mut r: Vec<i32> = Vec::new();
    let mut i: usize = 0;
    assert(received@.take(0).filter(pass) =~= Seq::<i32>::empty()) by {
        reveal(Seq::filter);
    }
    while i < received.len()
        invariant
            i <= received.len(),
            pass == |sig: i32| is_forwarded(sig),
            r@ == received@.take(i as int).filter(pass),
        decreases received.len() - i,
    {
        let sig = received[i];
        proof {
            reveal(Seq::filter);
            assert(received@.take(i + 1).drop_last() =~= received@.take(i as int));
        }
        if sig == SIGTERM || sig == SIGQUIT {
            r.push(sig);
        }
        i = i + 1;
    }
    assert(received@.take(i as int) =~= received@);
    r
}

/// Where the loop that watches a rollup process stands.
#[derive(Debug)]
pub enum MonitorStage {
    /// Asking for signals to the manager.
    Signals,
    /// Passing on the signals that came.
    Forwarding { received: Vec<i32> },
    /// Asking for the latest height.
    Height,
    /// Asking whether the process has exited.
    Exit,
    /// Pausing before the next round.
    Pause,
    /// The process has exited; letting the height stream drain.
    Draining { status: ExitStatus },
    /// Asking for the final height.
    FinalHeight { status: ExitStatus },
}

/// Where the termination of a rollup process stands.
#[derive(Debug, Clone, Copy, PartialEq, Eq, Structural)]
pub enum TerminateStage {
    Sigterm,
    Check,
    Clock,
    Pause,
    Sigkill,
    Reap,
}

/// Why a rollup process is being terminated.
#[derive(Debug)]
pub enum TerminateReason {
    /// It went past its stop height: the run fails with that, unless the termination itself fails.
    Exceeded { current_height: u64, stop_height: u64 },
    /// The run has failed with this error, whatever comes of the termination.
    CleanUp { error: RunnerError },
}

/// Where a run stands.
#[allow(inconsistent_fields)]
#[derive(Debug)]
pub enum RunPhase {
    LoadingCheckpoint,
    WritingCheckpoint { version: usize },
    Migrating { version: usize },
    ReadingPort { version: usize },
    RegisteringSignals { version: usize, port: u16 },
    Launching { version: usize, port: u16 },
    Monitoring { version: usize, stage: MonitorStage, last_known_height: Option<u64> },
    Terminating { version: usize, stage: TerminateStage, reason: TerminateReason },
    Finished(Result<(), RunnerError>),
}

/// What the host has to do next.
#[derive(Debug)]
pub enum RunAction {
    /// Read the checkpoint file, if there is one.
    LoadCheckpoint { path: String },
    WriteCheckpoint { path: String, checkpoint: Checkpoint },
    /// Run the command to its end.
    RunMigration { command: CommandSpec },
    /// Read the bind port out of a rollup config file.
    ReadHttpPort { config_path: String },
    /// Start collecting signals to the manager.
    RegisterSignals,
    /// Start the rollup, and subscribe to its height stream on the port.
    Launch { command: CommandSpec, port: u16 },
    /// Take the signals that came since the last time.
    ReadSignals,
    /// Send the signals to the rollup; failures do not matter.
    ForwardSignals { signals: Vec<i32> },
    /// Take the latest height that the subscription has observed.
    ReadHeight,
    /// See whether the rollup process has exited.
    CheckExit,
    Sleep { millis: u64 },
    /// Wait for the height stream to end.
    DrainHeights { timeout_millis: u64 },
    /// Send a signal that ends the rollup.
    SendSignal { signal: EndSignal },
    /// Take the time since SIGTERM was sent.
    ReadClock,
    /// Wait for the rollup process to exit.
    AwaitExit,
    /// Nothing: the run is over.
    Done,
}

/// The content of an action.
pub enum RunActionView {
    LoadCheckpoint { path: Seq<char> },
    WriteCheckpoint { path: Seq<char>, checkpoint: Checkpoint },
    RunMigration { command: CommandView },
    ReadHttpPort { config_path: Seq<char> },
    RegisterSignals,
    Launch { command: CommandView, port: u16 },
    ReadSignals,
    ForwardSignals { signals: Seq<i32> },
    ReadHeight,
    CheckExit,
    Sleep { millis: u64 },
    DrainHeights { timeout_millis: u64 },
    SendSignal { signal: EndSignal },
    ReadClock,
    AwaitExit,
    Done,
}

impl View for RunAction {
    type V = RunActionView;

    open spec fn view(&self) -> RunActionView {
        match self {
            RunAction::LoadCheckpoint { path } => RunActionView::LoadCheckpoint { path: path@ },
            RunAction::WriteCheckpoint { path, checkpoint } => RunActionView::WriteCheckpoint {
                path: path@,
                checkpoint: *checkpoint,
            },
            RunAction::RunMigration { command } => RunActionView::RunMigration {
                command: command@,
            },
            RunAction::ReadHttpPort { config_path } => RunActionView::ReadHttpPort {
                config_path: config_path@,
            },
            RunAction::RegisterSignals => RunActionView::RegisterSignals,
            RunAction::Launch { command, port } => RunActionView::Launch {
                command: command@,
                port: *port,
            },
            RunAction::ReadSignals => RunActionView::ReadSignals,
            RunAction::ForwardSignals { signals } => RunActionView::ForwardSignals {
                signals: signals@,
            },
            RunAction::ReadHeight => RunActionView::ReadHeight,
            RunAction::CheckExit => RunActionView::CheckExit,
            RunAction::Sleep { millis } => RunActionView::Sleep { millis: *millis },
            RunAction::DrainHeights { timeout_millis } => RunActionView::DrainHeights {
                timeout_millis: *timeout_millis,
            },
            RunAction::SendSignal { signal } => RunActionView::SendSignal { signal: *signal },
            RunAction::ReadClock => RunActionView::ReadClock,
            RunAction::AwaitExit => RunActionView::AwaitExit,
            RunAction::Done => RunActionView::Done,
        }
    }
}

/// What came of an action.
#[derive(Debug)]
pub enum RunEvent {
    CheckpointLoaded(Option<FileRead<Checkpoint>>),
    CheckpointWritten(CheckpointWrite),
    MigrationDone(MigrationOutcome),
    PortRead(FileRead<u16>),
    SignalsRegistered(Result<(), String>),
    Launched(Result<(), String>),
    Signals(Vec<i32>),
    Forwarded,
    Height(Option<u64>),
    Exited(ExitStatus),
    StillRunning,
    /// The process could not be asked about or waited for.
    WaitFailed(String),
    Slept,
    Drained,
    SignalSent(Result<(), String>),
    Elapsed { millis: u64 },
}

/// A run of all rollup versions in sequence.
#[derive(Debug)]
pub struct RunMachine {
    pub versions: Vec<RollupVersion>,
    pub extra_args: Vec<String>,
    /// Number of blocks before the stop height that's still considered successful.
    pub height_slack: u64,
    pub checkpoint_config: CheckpointConfig,
    pub phase: RunPhase,
}

impl RunMachine {
    /// The version that the run is occupied with.
    pub open spec fn version(self) -> Option<int> {
        match self.phase {
            RunPhase::LoadingCheckpoint => None,
            RunPhase::WritingCheckpoint { version } => Some(version as int),
            RunPhase::Migrating { version } => Some(version as int),
            RunPhase::ReadingPort { version } => Some(version as int),
            RunPhase::RegisteringSignals { version, .. } => Some(version as int),
            RunPhase::Launching { version, .. } => Some(version as int),
            RunPhase::Monitoring { version, .. } => Some(version as int),
            RunPhase::Terminating { version, .. } => Some(version as int),
            RunPhase::Finished(_) => None,
        }
    }

    /// The run is occupied with one of its versions, loads or writes a checkpoint only where there
    /// is a file for it, and migrates only where there is a migration.
    pub open spec fn wf(self) -> bool {
        &&& self.version() matches Some(i) ==> 0 <= i < self.versions@.len()
        &&& self.phase is LoadingCheckpoint ==> self.checkpoint_config is Enabled
        &&& self.phase is WritingCheckpoint ==> self.checkpoint_config is Enabled
        &&& self.phase matches RunPhase::Migrating { version } ==>
            self.versions@[version as int].migration_path is Some
    }

    /// The phase in which a version is prepared, once its checkpoint has been seen to.
    pub open spec fn prepare(self, version: usize) -> RunPhase {
        if self.versions@[version as int].migration_path is Some {
            RunPhase::Migrating { version }
        } else {
            RunPhase::ReadingPort { version }
        }
    }

    /// The phase in which a version begins; past the last version the run is over.
    pub open spec fn begin(self, version: int) -> RunPhase {
        if version >= self.versions@.len() {
            RunPhase::Finished(Ok(()))
        } else if self.checkpoint_config is Enabled {
            RunPhase::WritingCheckpoint { version: version as usize }
        } else {
            self.prepare(version as usize)
        }
    }

    /// The phase in which a run starts.
    pub open spec fn initial(self) -> RunPhase {
        if self.checkpoint_config is Enabled {
            RunPhase::LoadingCheckpoint
        } else {
            self.begin(0)
        }
    }

    /// The phase after a checkpoint was looked for: the version that it names, provided that the
    /// configuration has that version with that binary; the first version where there is none.
    pub open spec fn resume(self, file: Option<FileRead<Checkpoint>>) -> RunPhase {
        match crate::checkpoint::loaded(file) {
            Err(e) => RunPhase::Finished(Err(RunnerError::CheckpointRead(e))),
            Ok(None) => self.begin(0),
            Ok(Some(c)) => if c.version_index >= self.versions@.len() {
                RunPhase::Finished(
                    Err(
                        RunnerError::CheckpointIndexOutOfBounds {
                            index: c.version_index,
                            count: self.versions@.len() as usize,
                        },
                    ),
                )
            } else if !crate::path::same_path(
                c.binary_path@,
                self.versions@[c.version_index as int].rollup_binary@,
            ) {
                RunPhase::Finished(
                    Err(
                        RunnerError::CheckpointBinaryMismatch {
                            index: c.version_index,
                            checkpoint_path: c.binary_path,
                            config_path: self.versions@[c.version_index as int].rollup_binary,
                        },
                    ),
                )
            } else {
                self.begin(c.version_index as int)
            },
        }
    }

    /// The phase in which a rollup that has failed is cleaned up after.
    pub open spec fn clean_up(version: usize, error: RunnerError) -> RunPhase {
        RunPhase::Terminating {
            version,
            stage: TerminateStage::Sigterm,
            reason: TerminateReason::CleanUp { error },
        }
    }

    /// The phase after the termination of a version's process came to its end.
    pub open spec fn terminated(
        version: usize,
        reason: TerminateReason,
        result: Result<(), RunnerError>,
    ) -> RunPhase {
        match reason {
            TerminateReason::CleanUp { error } => RunPhase::Finished(Err(error)),
            TerminateReason::Exceeded { current_height, stop_height } => match result {
                Ok(()) => Self::clean_up(
                    version,
                    RunnerError::ExceededStopHeight { current_height, stop_height },
                ),
                Err(e) => Self::clean_up(version, e),
            },
        }
    }

    /// The phase after an event in the monitoring of a version.
    pub open spec fn monitored(
        self,
        version: usize,
        stage: MonitorStage,
        last: Option<u64>,
        event: RunEvent,
    ) -> RunPhase {
        let v = self.versions@[version as int];
        match (stage, event) {
            (MonitorStage::Signals, RunEvent::Signals(received)) => RunPhase::Monitoring {
                version,
                stage: MonitorStage::Forwarding { received },
                last_known_height: last,
            },
            (MonitorStage::Forwarding { .. }, RunEvent::Forwarded) => RunPhase::Monitoring {
                version,
                stage: MonitorStage::Height,
                last_known_height: last,
            },
            (MonitorStage::Height, RunEvent::Height(height)) => match (height, v.stop_height) {
                (Some(h), Some(stop)) if h > stop => RunPhase::Terminating {
                    version,
                    stage: TerminateStage::Sigterm,
                    reason: TerminateReason::Exceeded { current_height: h, stop_height: stop },
                },
                _ => RunPhase::Monitoring {
                    version,
                    stage: MonitorStage::Exit,
                    last_known_height: if height is Some {
                        height
                    } else {
                        last
                    },
                },
            },
            (MonitorStage::Exit, RunEvent::Exited(status)) => RunPhase::Monitoring {
                version,
                stage: MonitorStage::Draining { status },
                last_known_height: last,
            },
            (MonitorStage::Exit, RunEvent::StillRunning) => RunPhase::Monitoring {
                version,
                stage: MonitorStage::Pause,
                last_known_height: last,
            },
            (MonitorStage::Exit, RunEvent::WaitFailed(m)) => Self::clean_up(
                version,
                RunnerError::Wait { path: v.rollup_binary, source: m },
            ),
            (MonitorStage::Pause, RunEvent::Slept) => RunPhase::Monitoring {
                version,
                stage: MonitorStage::Signals,
                last_known_height: last,
            },
            (MonitorStage::Draining { status }, RunEvent::Drained) => RunPhase::Monitoring {
                version,
                stage: MonitorStage::FinalHeight { status },
                last_known_height: last,
            },
            (MonitorStage::FinalHeight { status }, RunEvent::Height(height)) => {
                let known = if height is Some {
                    height
                } else {
                    last
                };
                match exit_verdict(
                    status,
                    known,
                    v.stop_height,
                    v.rollup_binary,
                    self.height_slack,
                ) {
                    Ok(()) => self.begin(version + 1),
                    Err(e) => Self::clean_up(version, e),
                }
            },
            _ => self.phase,
        }
    }

    /// The phase after an event in the termination of a version's process.
    pub open spec fn terminating(
        self,
        version: usize,
        stage: TerminateStage,
        reason: TerminateReason,
        event: RunEvent,
    ) -> RunPhase {
        match (stage, event) {
            (TerminateStage::Sigterm, RunEvent::SignalSent(Ok(()))) => RunPhase::Terminating {
                version,
                stage: TerminateStage::Check,
                reason,
            },
            (TerminateStage::Sigterm, RunEvent::SignalSent(Err(m))) => Self::terminated(
                version,
                reason,
                Err(RunnerError::Signal { signal: EndSignal::Term, source: m }),
            ),
            (TerminateStage::Check, RunEvent::Exited(_)) => Self::terminated(
                version,
                reason,
                Ok(()),
            ),
            (TerminateStage::Check, RunEvent::StillRunning) => RunPhase::Terminating {
                version,
                stage: TerminateStage::Clock,
                reason,
            },
            (TerminateStage::Check, RunEvent::WaitFailed(m)) => Self::terminated(
                version,
                reason,
                Err(RunnerError::Terminate(m)),
            ),
            (TerminateStage::Clock, RunEvent::Elapsed { millis }) => RunPhase::Terminating {
                version,
                stage: if millis >= GRACEFUL_SHUTDOWN_TIMEOUT_MILLIS {
                    TerminateStage::Sigkill
                } else {
                    TerminateStage::Pause
                },
                reason,
            },
            (TerminateStage::Pause, RunEvent::Slept) => RunPhase::Terminating {
                version,
                stage: TerminateStage::Check,
                reason,
            },
            (TerminateStage::Sigkill, RunEvent::SignalSent(Ok(()))) => RunPhase::Terminating {
                version,
                stage: TerminateStage::Reap,
                reason,
            },
            (TerminateStage::Sigkill, RunEvent::SignalSent(Err(m))) => Self::terminated(
                version,
                reason,
                Err(RunnerError::Signal { signal: EndSignal::Kill, source: m }),
            ),
            (TerminateStage::Reap, RunEvent::Exited(_)) => Self::terminated(
                version,
                reason,
                Ok(()),
            ),
            (TerminateStage::Reap, RunEvent::WaitFailed(m)) => Self::terminated(
                version,
                reason,
                Err(RunnerError::Terminate(m)),
            ),
            _ => self.phase,
        }
    }

    /// The phase after an event. An event that does not answer the phase's action changes nothing.
    #[verifier::opaque]
    pub open spec fn next(self, event: RunEvent) -> RunPhase {
        match (self.phase, event) {
            (RunPhase::LoadingCheckpoint, RunEvent::CheckpointLoaded(file)) => self.resume(file),
            (RunPhase::WritingCheckpoint { version }, RunEvent::CheckpointWritten(outcome)) =>
                match crate::checkpoint::written(outcome) {
                    Ok(()) => self.prepare(version),
                    Err(e) => RunPhase::Finished(Err(RunnerError::CheckpointWrite(e))),
                },
            (RunPhase::Migrating { version }, RunEvent::MigrationDone(outcome)) =>
                match migration_verdict(
                    self.versions@[version as int].migration_path->0,
                    outcome,
                ) {
                    Ok(()) => RunPhase::ReadingPort { version },
                    Err(e) => RunPhase::Finished(Err(e)),
                },
            (RunPhase::ReadingPort { version }, RunEvent::PortRead(file)) =>
                match crate::rollup_api::http_port(
                    self.versions@[version as int].config_path,
                    file,
                ) {
                    Ok(port) => RunPhase::RegisteringSignals { version, port },
                    Err(e) => RunPhase::Finished(Err(RunnerError::ApiClientInit(e))),
                },
            (RunPhase::RegisteringSignals { version, port }, RunEvent::SignalsRegistered(r)) =>
                match r {
                    Ok(()) => RunPhase::Launching { version, port },
                    Err(m) => RunPhase::Finished(Err(RunnerError::SignalRegistration(m))),
                },
            (RunPhase::Launching { version, .. }, RunEvent::Launched(r)) => match r {
                Ok(()) => RunPhase::Monitoring {
                    version,
                    stage: MonitorStage::Signals,
                    last_known_height: None,
                },
                Err(m) => RunPhase::Finished(
                    Err(
                        RunnerError::Spawn {
                            path: self.versions@[version as int].rollup_binary,
                            source: m,
                        },
                    ),
                ),
            },
            (RunPhase::Monitoring { version, stage, last_known_height }, e) => self.monitored(
                version,
                stage,
                last_known_height,
                e,
            ),
            (RunPhase::Terminating { version, stage, reason }, e) => self.terminating(
                version,
                stage,
                reason,
                e,
            ),
            _ => self.phase,
        }
    }

    /// The machine after an event.
    pub open spec fn stepped(self, event: RunEvent) -> RunMachine {
        RunMachine { phase: self.next(event), ..self }
    }

    /// The action that a phase asks for.
    pub open spec fn action_view(self) -> RunActionView {
        match self.phase {
            RunPhase::LoadingCheckpoint => RunActionView::LoadCheckpoint {
                path: self.checkpoint_config->path@,
            },
            RunPhase::WritingCheckpoint { version } => RunActionView::WriteCheckpoint {
                path: self.checkpoint_config->path@,
                checkpoint: Checkpoint {
                    version_index: version,
                    binary_path: self.versions@[version as int].rollup_binary,
                },
            },
            RunPhase::Migrating { version } => RunActionView::RunMigration {
                command: migration_command(self.versions@[version as int]),
            },
            RunPhase::ReadingPort { version } => RunActionView::ReadHttpPort {
                config_path: self.versions@[version as int].config_path@,
            },
            RunPhase::RegisteringSignals { .. } => RunActionView::RegisterSignals,
            RunPhase::Launching { version, port } => RunActionView::Launch {
                command: rollup_command(
                    self.versions@[version as int],
                    self.extra_args.deep_view(),
                ),
                port,
            },
            RunPhase::Monitoring { stage, .. } => match stage {
                MonitorStage::Signals => RunActionView::ReadSignals,
                MonitorStage::Forwarding { received } => RunActionView::ForwardSignals {
                    signals: received@.filter(|sig: i32| is_forwarded(sig)),
                },
                MonitorStage::Height => RunActionView::ReadHeight,
                MonitorStage::Exit => RunActionView::CheckExit,
                MonitorStage::Pause => RunActionView::Sleep { millis: POLL_INTERVAL_MILLIS },
                MonitorStage::Draining { .. } => RunActionView::DrainHeights {
                    timeout_millis: SUBSCRIPTION_DRAIN_TIMEOUT_MILLIS,
                },
                MonitorStage::FinalHeight { .. } => RunActionView::ReadHeight,
            },
            RunPhase::Terminating { stage, .. } => match stage {
                TerminateStage::Sigterm => RunActionView::SendSignal { signal: EndSignal::Term },
                TerminateStage::Check => RunActionView::CheckExit,
                TerminateStage::Clock => RunActionView::ReadClock,
                TerminateStage::Pause => RunActionView::Sleep {
                    millis: SHUTDOWN_POLL_INTERVAL_MILLIS,
                },
                TerminateStage::Sigkill => RunActionView::SendSignal { signal: EndSignal::Kill },
                TerminateStage::Reap => RunActionView::AwaitExit,
            },
            RunPhase::Finished(_) => RunActionView::Done,
        }
    }

    fn prepare_version(&self, version: usize) -> (phase: RunPhase)
        requires
            version < self.versions@.len(),
        ensures
            phase == self.prepare(version),
    {
        if self.versions[version].migration_path.is_some() {
            RunPhase::Migrating { version }
        } else {
            RunPhase::ReadingPort { version }
        }
    }

    fn begin_version(&self, version: usize) -> (phase: RunPhase)
        requires
            version <= self.versions@.len(),
        ensures
            phase == self.begin(version as int),
    {
        if version >= self.versions.len() {
            RunPhase::Finished(Ok(()))
        } else {
            match &self.checkpoint_config {
                CheckpointConfig::Enabled { .. } => RunPhase::WritingCheckpoint { version },
                CheckpointConfig::Disabled => self.prepare_version(version),
            }
        }
    }

    fn resume_from(&self, file: Option<FileRead<Checkpoint>>) -> (phase: RunPhase)
        ensures
            phase == self.resume(file),
    {
        match load_checkpoint(file) {
            Err(e) => RunPhase::Finished(Err(RunnerError::CheckpointRead(e))),
            Ok(None) => self.begin_version(0),
            Ok(Some(checkpoint)) => {
                let count = self.versions.len();
                if checkpoint.version_index >= count {
                    return RunPhase::Finished(
                        Err(
                            RunnerError::CheckpointIndexOutOfBounds {
                                index: checkpoint.version_index,
                                count,
                            },
                        ),
                    );
                }
                let config_binary = &self.versions[checkpoint.version_index].rollup_binary;
                if !is_same_path(checkpoint.binary_path.as_str(), config_binary.as_str()) {
                    return RunPhase::Finished(
                        Err(
                            RunnerError::CheckpointBinaryMismatch {
                                index: checkpoint.version_index,
                                checkpoint_path: checkpoint.binary_path,
                                config_path: config_binary.clone(),
                            },
                        ),
                    );
                }
                self.begin_version(checkpoint.version_index)
            },
        }
    }

    fn clean_up_after(version: usize, error: RunnerError) -> (phase: RunPhase)
        ensures
            phase == Self::clean_up(version, error),
    {
        RunPhase::Terminating {
            version,
            stage: TerminateStage::Sigterm,
            reason: TerminateReason::CleanUp { error },
        }
    }

    fn after_termination(
        version: usize,
        reason: TerminateReason,
        result: Result<(), RunnerError>,
    ) -> (phase: RunPhase)
        ensures
            phase == Self::terminated(version, reason, result),
    {
        match reason {
            TerminateReason::CleanUp { error } => RunPhase::Finished(Err(error)),
            TerminateReason::Exceeded { current_height, stop_height } => match result {
                Ok(()) => Self::clean_up_after(
                    version,
                    RunnerError::ExceededStopHeight { current_height, stop_height },
                ),
                Err(e) => Self::clean_up_after(version, e),
            },
        }
    }

    /// Monitor a running rollup process, reading subscribed heights and handling exit conditions.
    ///
    /// `None` is an event that does not answer the stage's action.
    fn monitor_rollup(
        &self,
        version: usize,
        stage: &MonitorStage,
        last_known_height: Option<u64>,
        event: RunEvent,
    ) -> (phase: Option<RunPhase>)
        requires
            version < self.versions@.len(),
            self.phase == (RunPhase::Monitoring { version, stage: *stage, last_known_height }),
        ensures
            match phase {
                Some(p) => p == self.next(event),
                None => self.phase == self.next(event),
            },
    {
        reveal(RunMachine::next);
        let v = &self.versions[version];
        assert(self.versions@.len() == self.versions.len());
        match (stage, event) {
            (MonitorStage::Signals, RunEvent::Signals(received)) => Some(
                RunPhase::Monitoring {
                    version,
                    stage: MonitorStage::Forwarding { received },
                    last_known_height,
                },
            ),
            (MonitorStage::Forwarding { .. }, RunEvent::Forwarded) => Some(
                RunPhase::Monitoring { version, stage: MonitorStage::Height, last_known_height },
            ),
            (MonitorStage::Height, RunEvent::Height(observed)) => {
                let mut known = last_known_height;
                if let Some(height) = observed {
                    known = Some(height);
                    if let Some(stop) = v.stop_height {
                        if height > stop {
                            return Some(
                                RunPhase::Terminating {
                                    version,
                                    stage: TerminateStage::Sigterm,
                                    reason: TerminateReason::Exceeded {
                                        current_height: height,
                                        stop_height: stop,
                                    },
                                },
                            );
                        }
                    }
                }
                Some(
                    RunPhase::Monitoring {
                        version,
                        stage: MonitorStage::Exit,
                        last_known_height: known,
                    },
                )
            },
            (MonitorStage::Exit, RunEvent::Exited(status)) => Some(
                RunPhase::Monitoring {
                    version,
                    stage: MonitorStage::Draining { status },
                    last_known_height,
                },
            ),
            (MonitorStage::Exit, RunEvent::StillRunning) => Some(
                RunPhase::Monitoring { version, stage: MonitorStage::Pause, last_known_height },
            ),
            (MonitorStage::Exit, RunEvent::WaitFailed(m)) => Some(
                Self::clean_up_after(
                    version,
                    RunnerError::Wait { path: v.rollup_binary.clone(), source: m },
                ),
            ),
            (MonitorStage::Pause, RunEvent::Slept) => Some(
                RunPhase::Monitoring { version, stage: MonitorStage::Signals, last_known_height },
            ),
            (MonitorStage::Draining { status }, RunEvent::Drained) => Some(
                RunPhase::Monitoring {
                    version,
                    stage: MonitorStage::FinalHeight { status: *status },
                    last_known_height,
                },
            ),
            (MonitorStage::FinalHeight { status }, RunEvent::Height(observed)) => {
                let known = if observed.is_some() {
                    observed
                } else {
                    last_known_height
                };
                match handle_process_exit(
                    *status,
                    known,
                    v.stop_height,
                    &v.rollup_binary,
                    self.height_slack,
                ) {
                    Ok(()) => Some(self.begin_version(version + 1)),
                    Err(e) => Some(Self::clean_up_after(version, e)),
                }
            },
            _ => None,
        }
    }

    /// Terminate a process gracefully (SIGTERM), then forcefully (SIGKILL) if needed.
    fn terminate_process(
        version: usize,
        stage: TerminateStage,
        reason: TerminateReason,
        event: RunEvent,
        Ghost(machine): Ghost<RunMachine>,
    ) -> (phase: RunPhase)
        requires
            machine.phase == (RunPhase::Terminating { version, stage, reason }),
        ensures
            phase == machine.next(event),
    {
        reveal(RunMachine::next);
        match (stage, event) {
            (TerminateStage::Sigterm, RunEvent::SignalSent(Ok(()))) => RunPhase::Terminating {
                version,
                stage: TerminateStage::Check,
                reason,
            },
            (TerminateStage::Sigterm, RunEvent::SignalSent(Err(m))) => Self::after_termination(
                version,
                reason,
                Err(RunnerError::Signal { signal: EndSignal::Term, source: m }),
            ),
            (TerminateStage::Check, RunEvent::Exited(_)) => Self::after_termination(
                version,
                reason,
                Ok(()),
            ),
            (TerminateStage::Check, RunEvent::StillRunning) => RunPhase::Terminating {
                version,
                stage: TerminateStage::Clock,
                reason,
            },
            (TerminateStage::Check, RunEvent::WaitFailed(m)) => Self::after_termination(
                version,
                reason,
                Err(RunnerError::Terminate(m)),
            ),
            (TerminateStage::Clock, RunEvent::Elapsed { millis }) => {
                let stage = if millis >= GRACEFUL_SHUTDOWN_TIMEOUT_MILLIS {
                    TerminateStage::Sigkill
                } else {
                    TerminateStage::Pause
                };
                RunPhase::Terminating { version, stage, reason }
            },
            (TerminateStage::Pause, RunEvent::Slept) => RunPhase::Terminating {
                version,
                stage: TerminateStage::Check,
                reason,
            },
            (TerminateStage::Sigkill, RunEvent::SignalSent(Ok(()))) => RunPhase::Terminating {
                version,
                stage: TerminateStage::Reap,
                reason,
            },
            (TerminateStage::Sigkill, RunEvent::SignalSent(Err(m))) => Self::after_termination(
                version,
                reason,
                Err(RunnerError::Signal { signal: EndSignal::Kill, source: m }),
            ),
            (TerminateStage::Reap, RunEvent::Exited(_)) => Self::after_termination(
                version,
                reason,
                Ok(()),
            ),
            (TerminateStage::Reap, RunEvent::WaitFailed(m)) => Self::after_termination(
                version,
                reason,
                Err(RunnerError::Terminate(m)),
            ),
            _ => RunPhase::Terminating { version, stage, reason },
        }
    }

    /// Spawn the rollup process of a version and watch over it until its end.
    fn run_version_with_monitoring(self, event: RunEvent) -> (r: Self)
        requires
            self.wf(),
            self.phase is ReadingPort || self.phase is RegisteringSignals || self.phase is Launching
                || self.phase is Monitoring || self.phase is Terminating,
        ensures
            r == self.stepped(event),
    {
        reveal(RunMachine::next);
        let ghost before = self;
        let mut m = self;
        let phase = match (&m.phase, event) {
            (RunPhase::ReadingPort { version }, RunEvent::PortRead(file)) => {
                match parse_http_port(&m.versions[*version].config_path, file) {
                    Ok(port) => RunPhase::RegisteringSignals { version: *version, port },
                    Err(e) => RunPhase::Finished(Err(RunnerError::ApiClientInit(e))),
                }
            },
            (
                RunPhase::RegisteringSignals { version, port },
                RunEvent::SignalsRegistered(Ok(())),
            ) => RunPhase::Launching { version: *version, port: *port },
            (RunPhase::RegisteringSignals { .. }, RunEvent::SignalsRegistered(Err(m))) =>
                RunPhase::Finished(Err(RunnerError::SignalRegistration(m))),
            (RunPhase::Launching { version, .. }, RunEvent::Launched(Ok(()))) =>
                RunPhase::Monitoring {
                    version: *version,
                    stage: MonitorStage::Signals,
                    last_known_height: None,
                },
            (RunPhase::Launching { version, .. }, RunEvent::Launched(Err(source))) =>
                RunPhase::Finished(
                    Err(
                        RunnerError::Spawn {
                            path: m.versions[*version].rollup_binary.clone(),
                            source,
                        },
                    ),
                ),
            (RunPhase::Monitoring { version, stage, last_known_height }, e) => {
                match m.monitor_rollup(*version, stage, *last_known_height, e) {
                    Some(phase) => phase,
                    None => {
                        return m;
                    },
                }
            },
            (RunPhase::Terminating { .. }, e) => {
                let RunMachine { versions, extra_args, height_slack, checkpoint_config, phase } = m;
                if let RunPhase::Terminating { version, stage, reason } = phase {
                    let phase = Self::terminate_process(version, stage, reason, e, Ghost(before));
                    return RunMachine {
                        versions,
                        extra_args,
                        height_slack,
                        checkpoint_config,
                        phase,
                    };
                } else {
                    return RunMachine {
                        versions,
                        extra_args,
                        height_slack,
                        checkpoint_config,
                        phase,
                    };
                }
            },
            _ => {
                return m;
            },
        };
        m.phase = phase;
        m
    }

    /// Take in what came of the action that the run asked for, and move on.
    pub fn step(self, event: RunEvent) -> (r: Self)
        requires
            self.wf(),
        ensures
            r.wf(),
            r == self.stepped(event),
    {
        reveal(RunMachine::next);
        let mut m = self;
        let phase = match (&m.phase, event) {
            (RunPhase::LoadingCheckpoint, RunEvent::CheckpointLoaded(file)) => m.resume_from(file),
            (RunPhase::WritingCheckpoint { version }, RunEvent::CheckpointWritten(outcome)) => {
                match write_checkpoint(outcome) {
                    Ok(()) => m.prepare_version(*version),
                    Err(e) => RunPhase::Finished(Err(RunnerError::CheckpointWrite(e))),
                }
            },
            (RunPhase::Migrating { version }, RunEvent::MigrationDone(outcome)) => {
                match &m.versions[*version].migration_path {
                    Some(path) => match run_migration(path, outcome) {
                        Ok(()) => RunPhase::ReadingPort { version: *version },
                        Err(e) => RunPhase::Finished(Err(e)),
                    },
                    None => {
                        return m;
                    },
                }
            },
            (RunPhase::LoadingCheckpoint, _) => {
                return m;
            },
            (RunPhase::WritingCheckpoint { .. }, _) => {
                return m;
            },
            (RunPhase::Migrating { .. }, _) => {
                return m;
            },
            (RunPhase::Finished(_), _) => {
                return m;
            },
            (_, e) => {
                return m.run_version_with_monitoring(e);
            },
        };
        m.phase = phase;
        m
    }

    /// What the host has to do next.
    pub fn action(&self) -> (a: RunAction)
        requires
            self.wf(),
        ensures
            a@ == self.action_view(),
    {
        match &self.phase {
            RunPhase::LoadingCheckpoint => match &self.checkpoint_config {
                CheckpointConfig::Enabled { path } => RunAction::LoadCheckpoint {
                    path: path.clone(),
                },
                CheckpointConfig::Disabled => RunAction::Done,
            },
            RunPhase::WritingCheckpoint { version } => match &self.checkpoint_config {
                CheckpointConfig::Enabled { path } => RunAction::WriteCheckpoint {
                    path: path.clone(),
                    checkpoint: Checkpoint {
                        version_index: *version,
                        binary_path: self.versions[*version].rollup_binary.clone(),
                    },
                },
                CheckpointConfig::Disabled => RunAction::Done,
            },
            RunPhase::Migrating { version } => {
                let v = &self.versions[*version];
                let mut args = no_args();
                push_arg(&mut args, "--rollup-config-path");
                push_arg(&mut args, v.config_path.as_str());
                match &v.migration_path {
                    Some(path) => {
                        let command = CommandSpec {
                            program: path.clone(),
                            args,
                            current_dir: None,
                        };
                        assert(command@.args =~= migration_command(*v).args);
                        RunAction::RunMigration { command }
                    },
                    None => RunAction::Done,
                }
            },
            RunPhase::ReadingPort { version } => RunAction::ReadHttpPort {
                config_path: self.versions[*version].config_path.clone(),
            },
            RunPhase::RegisteringSignals { .. } => RunAction::RegisterSignals,
            RunPhase::Launching { version, port } => {
                let v = &self.versions[*version];
                let mut args = build_rollup_args(v);
                push_all(&mut args, &self.extra_args);
                let command = CommandSpec {
                    program: v.rollup_binary.clone(),
                    args,
                    current_dir: None,
                };
                RunAction::Launch { command, port: *port }
            },
            RunPhase::Monitoring { stage, .. } => match stage {
                MonitorStage::Signals => RunAction::ReadSignals,
                MonitorStage::Forwarding { received } => RunAction::ForwardSignals {
                    signals: forwarded_signals(received),
                },
                MonitorStage::Height => RunAction::ReadHeight,
                MonitorStage::Exit => RunAction::CheckExit,
                MonitorStage::Pause => RunAction::Sleep { millis: POLL_INTERVAL_MILLIS },
                MonitorStage::Draining { .. } => RunAction::DrainHeights {
                    timeout_millis: SUBSCRIPTION_DRAIN_TIMEOUT_MILLIS,
                },
                MonitorStage::FinalHeight { .. } => RunAction::ReadHeight,
            },
            RunPhase::Terminating { stage, .. } => match stage {
                TerminateStage::Sigterm => RunAction::SendSignal { signal: EndSignal::Term },
                TerminateStage::Check => RunAction::CheckExit,
                TerminateStage::Clock => RunAction::ReadClock,
                TerminateStage::Pause => RunAction::Sleep { millis: SHUTDOWN_POLL_INTERVAL_MILLIS },
                TerminateStage::Sigkill => RunAction::SendSignal { signal: EndSignal::Kill },
                TerminateStage::Reap => RunAction::AwaitExit,
            },
            RunPhase::Finished(_) => RunAction::Done,
        }
    }

    /// The outcome of a run that is over; a run that is not over is handed back.
    pub fn finish(self) -> (r: Result<Result<(), RunnerError>, Self>)
        ensures
            match self.phase {
                RunPhase::Finished(result) => r == Ok::<_, Self>(result),
                _ => r == Err::<Result<(), RunnerError>, _>(self),
            },
    {
        let RunMachine { versions, extra_args, height_slack, checkpoint_config, phase } = self;
        match phase {
            RunPhase::Finished(result) => Ok(result),
            phase => Err(
                RunMachine { versions, extra_args, height_slack, checkpoint_config, phase },
            ),
        }
    }
}

/// Whether `m` is a run at its start.
pub open spec fn starts(
    m: RunMachine,
    config: ManagerConfig,
    extra_args: Seq<Seq<char>>,
    height_slack: u64,
    checkpoint_config: CheckpointConfig,
) -> bool {
    &&& m.wf()
    &&& m.versions@ == config.versions@
    &&& m.extra_args.deep_view() == extra_args
    &&& m.height_slack == height_slack
    &&& m.checkpoint_config == checkpoint_config
    &&& m.phase == m.initial()
}

/// Start a run of all rollup versions in sequence, with the default height slack.
///
/// # Arguments
/// * `config` - The manager configuration with version definitions
/// * `extra_args` - Additional arguments passed to every rollup binary invocation
/// * `checkpoint_config` - Checkpoint file configuration
pub fn run(
    config: &ManagerConfig,
    extra_args: &Vec<String>,
    checkpoint_config: CheckpointConfig,
) -> (m: RunMachine)
    ensures
        starts(m, *config, extra_args.deep_view(), DEFAULT_HEIGHT_SLACK, checkpoint_config),
{
    run_with_options(config, extra_args, DEFAULT_HEIGHT_SLACK, checkpoint_config)
}

/// Start a run of all rollup versions in sequence.
///
/// `height_slack` is the number of blocks before the stop height that's still considered
/// successful. This handles fast resync scenarios where the rollup may exit before we can poll
/// the final height. Use `DEFAULT_HEIGHT_SLACK` for the recommended value.
pub fn run_with_options(
    config: &ManagerConfig,
    extra_args: &Vec<String>,
    height_slack: u64,
    checkpoint_config: CheckpointConfig,
) -> (m: RunMachine)
    ensures
        starts(m, *config, extra_args.deep_view(), height_slack, checkpoint_config),
{
    let config = config.clone();
    let mut args = no_args();
    push_all(&mut args, extra_args);
    assert(args.deep_view() =~= extra_args.deep_view());
    let mut m = RunMachine {
        versions: config.versions,
        extra_args: args,
        height_slack,
        checkpoint_config,
        phase: RunPhase::Finished(Ok(())),
    };
    let phase = match &m.checkpoint_config {
        CheckpointConfig::Enabled { .. } => RunPhase::LoadingCheckpoint,
        CheckpointConfig::Disabled => m.begin_version(0),
    };
    m.phase = phase;
    m
}

} // verus!

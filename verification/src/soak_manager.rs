//! Soak testing coordination for versioned rollup execution.
//!
//! Soak workers put load on a rollup while it runs through its versions. [`SoakMachine`] decides
//! when to start and stop the workers of each version; the host performs what it asks for.
use vstd::prelude::*;

use crate::json::{json_value, parse_json, Json, JsonText};
use crate::process::{no_args, push_arg, CommandSpec, CommandView, ExitStatus};
use crate::text::{concat2, decimal, decimal_text};

verus! {

/// The pause between two readiness checks.
pub const READY_POLL_MILLIS: u64 = 50;

/// The pause between two height checks.
pub const HEIGHT_POLL_MILLIS: u64 = 100;

/// How long soak workers may take to exit after a request to terminate.
pub const TERMINATE_TIMEOUT_MILLIS: u64 = 1000;

/// How long the coordinator waits for the nodes once all versions are through.
pub const SETTLE_MILLIS: u64 = 1000;

/// Worker options shared across versioned soak runs.
#[derive(Debug, Clone, Copy, PartialEq, Eq, Structural)]
pub struct SoakWorkerConfig {
    /// Number of concurrent workers.
    pub num_workers: u32,
    /// RNG salt used by workers.
    pub salt: u32,
}

/// Soak manager configuration.
#[derive(Debug)]
pub struct SoakManagerConfig {
    /// Worker config (count + base salt).
    pub config: SoakWorkerConfig,
    /// Soak binary paths paired with stop heights.
    pub versions: Vec<(String, u64)>,
}

/// Soak manager configuration as text.
#[verifier::ext_equal]
pub struct SoakManagerView {
    pub config: SoakWorkerConfig,
    pub versions: Seq<(Seq<char>, u64)>,
}

impl DeepView for SoakManagerConfig {
    type V = SoakManagerView;

    open spec fn deep_view(&self) -> SoakManagerView {
        SoakManagerView { config: self.config, versions: self.versions.deep_view() }
    }
}

impl SoakManagerView {
    /// Whether the numbers of a resync configuration can be represented.
    pub open spec fn resync_representable(self, extra_blocks: u64) -> bool {
        extra_blocks > 0 && self.versions.len() > 0 ==> {
            &&& self.versions.last().1 + extra_blocks <= u64::MAX
            &&& self.config.salt + self.config.num_workers * (self.versions.len() as u32)
                <= u32::MAX
        }
    }

    /// The configuration for a resync: the last version alone, up to a later height, with salts
    /// that the initial run has not used.
    pub open spec fn resync(self, extra_blocks: u64) -> Option<SoakManagerView> {
        if extra_blocks == 0 || self.versions.len() == 0 {
            None
        } else {
            Some(
                SoakManagerView {
                    config: SoakWorkerConfig {
                        num_workers: self.config.num_workers,
                        salt: (self.config.salt + self.config.num_workers * (
                        self.versions.len() as u32)) as u32,
                    },
                    versions: seq![
                        (
                            self.versions.last().0,
                            (self.versions.last().1 + extra_blocks) as u64,
                        ),
                    ],
                },
            )
        }
    }
}

impl SoakManagerConfig {
    /// Create a new soak manager config.
    pub fn new(config: SoakWorkerConfig, versions: Vec<(String, u64)>) -> (r: Self)
        ensures
            r == (SoakManagerConfig { config, versions }),
    {
        SoakManagerConfig { config, versions }
    }

    /// Whether the numbers of a resync configuration can be represented.
    pub fn can_resync(&self, extra_blocks_after_resync: u64) -> (b: bool)
        ensures
            b == self.deep_view().resync_representable(extra_blocks_after_resync),
    {
        let count: usize = self.versions.len();
        if extra_blocks_after_resync == 0 || count == 0 {
            return true;
        }
        let last: u64 = self.versions[count - 1].1;
        assert(self.deep_view().versions.last().1 == last);
        let salts: Option<u32> = self.config.num_workers.checked_mul(count as u32);
        match salts {
            None => false,
            Some(salts) => last.checked_add(extra_blocks_after_resync).is_some()
                && self.config.salt.checked_add(salts).is_some(),
        }
    }

    /// Create a config for resync testing.
    ///
    /// During resync, only the last version is relevant. We extend its stop
    /// height by `extra_blocks_after_resync`.
    pub fn for_resync(&self, extra_blocks_after_resync: u64) -> (r: Option<Self>)
        requires
            self.deep_view().resync_representable(extra_blocks_after_resync),
        ensures
            r.deep_view() == self.deep_view().resync(extra_blocks_after_resync),
    {
        let count: usize = self.versions.len();
        if extra_blocks_after_resync == 0 || count == 0 {
            return None;
        }
        let last = &self.versions[count - 1];
        assert(self.deep_view().versions.last() == (last.0@, last.1));
        assert(0 <= self.config.num_workers * (count as u32)) by (nonlinear_arith);
        let config = SoakWorkerConfig {
            num_workers: self.config.num_workers,
            salt: self.config.salt + self.config.num_workers * (count as u32),
        };
        let mut versions: Vec<(String, u64)> = Vec::new();
        versions.push((last.0.clone(), last.1 + extra_blocks_after_resync));
        assert(versions.deep_view() =~= seq![
            (last.0@, (last.1 + extra_blocks_after_resync) as u64),
        ]);
        Some(SoakManagerConfig { config, versions })
    }
}

/// The salts of a resync do not overlap those of the initial run: every version of the initial
/// run has used a range of as many salts as there are workers, and the resync starts after them.
pub proof fn resync_salts_are_fresh(config: SoakManagerView, extra_blocks: u64, version: int)
    requires
        config.resync_representable(extra_blocks),
        config.versions.len() <= u32::MAX,
        0 <= version < config.versions.len(),
    ensures
        config.resync(extra_blocks) matches Some(resync) ==> config.config.salt + version
            * config.config.num_workers + config.config.num_workers <= resync.config.salt,
{
    let n = config.config.num_workers as int;
    let len = config.versions.len() as int;
    assert((version + 1) * n <= len * n) by (nonlinear_arith)
        requires
            version + 1 <= len,
            0 <= n,
    ;
    assert((version + 1) * n == version * n + n) by (nonlinear_arith);
    assert(len * n == n * len) by (nonlinear_arith);
}

/// Why soak testing failed.
#[derive(Debug)]
pub enum SoakManagerError {
    /// The workers could not be started.
    SoakTestStartFailed(String),
    /// The workers exited by themselves, with a failure.
    SoakTestFailed { exit_code: i32 },
}

impl Clone for SoakManagerError {
    fn clone(&self) -> (r: Self)
        ensures
            r == *self,
    {
        match self {
            SoakManagerError::SoakTestStartFailed(m) => SoakManagerError::SoakTestStartFailed(
                m.clone(),
            ),
            SoakManagerError::SoakTestFailed { exit_code } => SoakManagerError::SoakTestFailed {
                exit_code: *exit_code,
            },
        }
    }
}

/// What came of an HTTP request.
#[derive(Debug)]
pub enum HttpReply {
    /// There was no response.
    Failed,
    /// A response with its status and its body.
    Response { status: u16, body: Vec<u8> },
}

/// Whether a response says that the sequencer is ready.
pub open spec fn is_ready(reply: HttpReply) -> bool {
    reply matches HttpReply::Response { status, .. } && 200 <= status < 300
}

/// The height that an answer tells of: it holds the rollup height and, behind it, the visible slot
/// number.
pub open spec fn answered_height(answer: JsonText) -> Option<u64> {
    match answer.member("value"@) {
        Some(heights) => match heights.first() {
            Some(height) => height.unsigned(),
            None => None,
        },
        None => None,
    }
}

/// The height that a response tells of, whatever its status.
pub open spec fn told_height(reply: HttpReply) -> Option<u64> {
    match reply {
        HttpReply::Failed => None,
        HttpReply::Response { body, .. } => match json_value(body@) {
            Some(answer) => answered_height(answer),
            None => None,
        },
    }
}

/// Whether a height has come up to a target.
pub open spec fn reaches(height: Option<u64>, target: u64) -> bool {
    height matches Some(h) && h >= target
}

/// Decides whether the wait for the sequencer is over.
pub fn wait_for_sequencer_ready(reply: &HttpReply) -> (over: bool)
    ensures
        over == is_ready(*reply),
{
    match reply {
        HttpReply::Failed => false,
        HttpReply::Response { status, .. } => 200 <= *status && *status < 300,
    }
}

/// Decides whether a height is at least the one that is waited for.
pub fn height_reached(height: Option<u64>, target: u64) -> (over: bool)
    ensures
        over == reaches(height, target),
{
    match height {
        Some(h) => h >= target,
        None => false,
    }
}

/// The height that an answer tells of.
pub fn height_of(answer: &Json) -> (height: Option<u64>)
    ensures
        height == answered_height(answer.text()),
{
    match answer.member("value") {
        Some(heights) => match heights.first() {
            Some(height) => height.unsigned(),
            None => None,
        },
        None => None,
    }
}

/// The height that a response tells of, whatever its status.
pub fn height_in(reply: &HttpReply) -> (height: Option<u64>)
    ensures
        height == told_height(*reply),
{
    match reply {
        HttpReply::Failed => None,
        HttpReply::Response { body, .. } => match parse_json(body) {
            Some(answer) => height_of(&answer),
            None => None,
        },
    }
}

/// Decides whether the wait for a height is over.
pub fn wait_for_height(reply: &HttpReply, target: u64) -> (over: bool)
    ensures
        over == reaches(told_height(*reply), target),
{
    height_reached(height_in(reply), target)
}

/// The command that starts the soak workers.
pub open spec fn soak_command(
    binary: Seq<char>,
    api_url: Seq<char>,
    num_workers: u32,
    salt: u32,
) -> CommandView {
    CommandView {
        program: binary,
        args: seq![
            "--api-url"@,
            api_url,
            "--num-workers"@,
            decimal(num_workers as nat),
            "--salt"@,
            decimal(salt as nat),
        ],
        current_dir: None,
    }
}

/// The command that starts the soak workers.
pub fn start_soak_process(binary: &String, api_url: &str, num_workers: u32, salt: u32) -> (c:
    CommandSpec)
    ensures
        c@ == soak_command(binary@, api_url@, num_workers, salt),
{
    let mut args = no_args();
    push_arg(&mut args, "--api-url");
    push_arg(&mut args, api_url);
    push_arg(&mut args, "--num-workers");
    let workers = decimal_text(num_workers as u64);
    push_arg(&mut args, workers.as_str());
    push_arg(&mut args, "--salt");
    let salt_text = decimal_text(salt as u64);
    push_arg(&mut args, salt_text.as_str());
    let c = CommandSpec { program: binary.clone(), args, current_dir: None };
    assert(c@ =~= soak_command(binary@, api_url@, num_workers, salt));
    c
}

/// Where the stopping of soak workers stands.
#[derive(Debug, Clone, Copy, PartialEq, Eq, Structural)]
pub enum StopStage {
    /// About to see whether the workers have exited by themselves.
    Check,
    /// About to request that they terminate.
    Terminate,
    /// Giving them time to exit.
    Await,
    /// About to kill them.
    Kill,
    /// Waiting for them to be gone.
    Reap,
}

/// What follows once soak workers have been stopped.
#[derive(Debug, Clone, Copy, PartialEq, Eq, Structural)]
pub enum AfterStop {
    /// The next version.
    NextVersion,
    /// The end of the soak test.
    End,
}

/// Where a soak test stands.
#[derive(Debug)]
pub enum SoakPhase {
    /// About to ask whether the sequencer is ready for a version's workers.
    CheckReady { version: usize },
    /// Pausing before the sequencer is asked again.
    PauseReady { version: usize },
    /// About to start a version's workers.
    Start { version: usize },
    /// About to ask for the height, while a version's workers run.
    CheckHeight { version: usize },
    /// Pausing before the height is asked for again.
    PauseHeight { version: usize },
    /// Stopping a version's workers.
    Stop { version: usize, stage: StopStage, after: AfterStop },
    /// All versions are through; giving the nodes time to finish.
    Settle,
    /// Over, with a result.
    Finished(Result<(), SoakManagerError>),
}

/// What the host has to do next for a soak test.
#[derive(Debug)]
pub enum SoakAction {
    /// Get a URL, unless the shutdown signal comes first.
    Get { url: String },
    /// Pause, unless the shutdown signal comes first.
    Pause { millis: u64 },
    /// Start the soak workers.
    Start { command: CommandSpec },
    /// See whether the workers have exited.
    CheckExit,
    /// Send them a request to terminate.
    Terminate,
    /// Wait for their exit, for a limited time.
    AwaitExit { timeout_millis: u64 },
    /// Kill them.
    Kill,
    /// Wait for their exit.
    Reap,
    /// Wait for the shutdown signal, for a limited time where there is a limit.
    AwaitShutdown { limit_millis: Option<u64> },
    /// Nothing: the soak test is over.
    Done,
}

/// The text of an action.
pub enum SoakActionView {
    Get { url: Seq<char> },
    Pause { millis: u64 },
    Start { command: CommandView },
    CheckExit,
    Terminate,
    AwaitExit { timeout_millis: u64 },
    Kill,
    Reap,
    AwaitShutdown { limit_millis: Option<u64> },
    Done,
}

impl View for SoakAction {
    type V = SoakActionView;

    open spec fn view(&self) -> SoakActionView {
        match *self {
            SoakAction::Get { url } => SoakActionView::Get { url: url@ },
            SoakAction::Pause { millis } => SoakActionView::Pause { millis },
            SoakAction::Start { command } => SoakActionView::Start { command: command@ },
            SoakAction::CheckExit => SoakActionView::CheckExit,
            SoakAction::Terminate => SoakActionView::Terminate,
            SoakAction::AwaitExit { timeout_millis } => SoakActionView::AwaitExit {
                timeout_millis,
            },
            SoakAction::Kill => SoakActionView::Kill,
            SoakAction::Reap => SoakActionView::Reap,
            SoakAction::AwaitShutdown { limit_millis } => SoakActionView::AwaitShutdown {
                limit_millis,
            },
            SoakAction::Done => SoakActionView::Done,
        }
    }
}

/// What came of an action.
#[derive(Debug)]
pub enum SoakEvent {
    /// The shutdown signal came first.
    ShutDown,
    /// What came of a request.
    Reply(HttpReply),
    /// The pause is over, or the time for the nodes to finish.
    Elapsed,
    /// The workers have been started, or not.
    Started(Result<(), String>),
    /// The workers have exited.
    Exited(ExitStatus),
    /// The workers are still running.
    StillRunning,
    /// The workers' state could not be told, or their exit not be awaited.
    WaitFailed,
    /// The workers are gone, and have no process to signal.
    Gone,
    /// The signal has been sent.
    Signaled,
    /// The workers have not exited in time.
    TimedOut,
}

/// A soak test: what it runs, and where it stands.
#[derive(Debug)]
pub struct SoakMachine {
    pub config: SoakManagerConfig,
    pub api_url: String,
    /// How long to wait for the shutdown signal once all versions are through.
    pub settle_millis: Option<u64>,
    /// The salt of the next workers.
    pub salt: u32,
    pub phase: SoakPhase,
}

impl SoakMachine {
    /// How many versions are through.
    pub open spec fn versions_done(self) -> int {
        match self.phase {
            SoakPhase::CheckReady { version } => version as int,
            SoakPhase::PauseReady { version } => version as int,
            SoakPhase::Start { version } => version as int,
            SoakPhase::CheckHeight { version } => version as int,
            SoakPhase::PauseHeight { version } => version as int,
            SoakPhase::Stop { version, .. } => version as int,
            SoakPhase::Settle => self.config.versions@.len() as int,
            SoakPhase::Finished(_) => self.config.versions@.len() as int,
        }
    }

    /// The first salt of a version: each version has as many salts as there are workers.
    pub open spec fn salt_of(self, version: int) -> int {
        self.config.config.salt + version * self.config.config.num_workers
    }

    /// The soak test is at one of its versions, the salts of all of them can be represented, and
    /// the next workers get the salts of the version at hand.
    pub open spec fn wf(self) -> bool {
        &&& 0 <= self.versions_done() <= self.config.versions@.len()
        &&& self.phase !is Settle && self.phase !is Finished ==> self.versions_done()
            < self.config.versions@.len()
        &&& self.salt_of(self.config.versions@.len() as int) <= u32::MAX
        &&& self.phase !is Finished ==> self.salt == self.salt_of(self.versions_done())
    }

    /// The phase in which a version's turn begins; past the last version the nodes finish.
    pub open spec fn begin(self, version: int) -> SoakPhase {
        if version < self.config.versions@.len() {
            SoakPhase::CheckReady { version: version as usize }
        } else {
            SoakPhase::Settle
        }
    }

    /// The soak test after the stopping of a version's workers has come to its end.
    pub open spec fn stopped(
        self,
        version: usize,
        after: AfterStop,
        result: Result<(), SoakManagerError>,
    ) -> SoakMachine {
        match (result, after) {
            (Ok(()), AfterStop::NextVersion) => SoakMachine {
                salt: (self.salt + self.config.config.num_workers) as u32,
                phase: self.begin(version + 1),
                ..self
            },
            _ => SoakMachine { phase: SoakPhase::Finished(result), ..self },
        }
    }

    /// The soak test after an event in the stopping of a version's workers.
    pub open spec fn stopping(
        self,
        version: usize,
        stage: StopStage,
        after: AfterStop,
        event: SoakEvent,
    ) -> SoakMachine {
        match (stage, event) {
            (StopStage::Check, SoakEvent::Exited(status)) => self.stopped(
                version,
                after,
                exit_result(status),
            ),
            (StopStage::Check, SoakEvent::StillRunning | SoakEvent::WaitFailed) => SoakMachine {
                phase: SoakPhase::Stop { version, stage: StopStage::Terminate, after },
                ..self
            },
            (StopStage::Terminate, SoakEvent::Gone) => self.stopped(version, after, Ok(())),
            (StopStage::Terminate, SoakEvent::Signaled) => SoakMachine {
                phase: SoakPhase::Stop { version, stage: StopStage::Await, after },
                ..self
            },
            (StopStage::Await, SoakEvent::Exited(_) | SoakEvent::WaitFailed) => self.stopped(
                version,
                after,
                Ok(()),
            ),
            (StopStage::Await, SoakEvent::TimedOut) => SoakMachine {
                phase: SoakPhase::Stop { version, stage: StopStage::Kill, after },
                ..self
            },
            (StopStage::Kill, SoakEvent::Signaled) => SoakMachine {
                phase: SoakPhase::Stop { version, stage: StopStage::Reap, after },
                ..self
            },
            (StopStage::Reap, SoakEvent::Exited(_) | SoakEvent::WaitFailed) => self.stopped(
                version,
                after,
                Ok(()),
            ),
            _ => self,
        }
    }

    /// The soak test after it has heard of a height, or has not: the workers of a version are
    /// stopped at the version's stop height.
    pub open spec fn at_height(self, version: usize, height: Option<u64>) -> SoakMachine {
        SoakMachine {
            phase: if reaches(height, self.config.versions@[version as int].1) {
                SoakPhase::Stop {
                    version,
                    stage: StopStage::Check,
                    after: AfterStop::NextVersion,
                }
            } else {
                SoakPhase::PauseHeight { version }
            },
            ..self
        }
    }

    /// The soak test after an event.
    pub open spec fn stepped(self, event: SoakEvent) -> SoakMachine {
        match (self.phase, event) {
            (
                SoakPhase::CheckReady { .. } | SoakPhase::PauseReady { .. },
                SoakEvent::ShutDown,
            ) => SoakMachine { phase: SoakPhase::Finished(Ok(())), ..self },
            (SoakPhase::CheckReady { version }, SoakEvent::Reply(reply)) => SoakMachine {
                phase: if is_ready(reply) {
                    SoakPhase::Start { version }
                } else {
                    SoakPhase::PauseReady { version }
                },
                ..self
            },
            (SoakPhase::PauseReady { version }, SoakEvent::Elapsed) => SoakMachine {
                phase: SoakPhase::CheckReady { version },
                ..self
            },
            (SoakPhase::Start { version }, SoakEvent::Started(started)) => SoakMachine {
                phase: match started {
                    Ok(()) => SoakPhase::CheckHeight { version },
                    Err(m) => SoakPhase::Finished(Err(SoakManagerError::SoakTestStartFailed(m))),
                },
                ..self
            },
            (
                SoakPhase::CheckHeight { version } | SoakPhase::PauseHeight { version },
                SoakEvent::ShutDown,
            ) => SoakMachine {
                phase: SoakPhase::Stop {
                    version,
                    stage: StopStage::Check,
                    after: AfterStop::End,
                },
                ..self
            },
            (SoakPhase::CheckHeight { version }, SoakEvent::Reply(reply)) => self.at_height(
                version,
                told_height(reply),
            ),
            (SoakPhase::PauseHeight { version }, SoakEvent::Elapsed) => SoakMachine {
                phase: SoakPhase::CheckHeight { version },
                ..self
            },
            (SoakPhase::Stop { version, stage, after }, e) => self.stopping(
                version,
                stage,
                after,
                e,
            ),
            (SoakPhase::Settle, SoakEvent::ShutDown | SoakEvent::Elapsed) => SoakMachine {
                phase: SoakPhase::Finished(Ok(())),
                ..self
            },
            _ => self,
        }
    }

    /// The action that a phase asks for.
    pub open spec fn action_view(self) -> SoakActionView {
        match self.phase {
            SoakPhase::CheckReady { .. } => SoakActionView::Get {
                url: self.api_url@ + "/sequencer/ready"@,
            },
            SoakPhase::PauseReady { .. } => SoakActionView::Pause { millis: READY_POLL_MILLIS },
            SoakPhase::Start { version } => SoakActionView::Start {
                command: soak_command(
                    self.config.versions@[version as int].0@,
                    self.api_url@,
                    self.config.config.num_workers,
                    self.salt,
                ),
            },
            SoakPhase::CheckHeight { .. } => SoakActionView::Get {
                url: self.api_url@ + "/modules/chain-state/state/current-heights/"@,
            },
            SoakPhase::PauseHeight { .. } => SoakActionView::Pause { millis: HEIGHT_POLL_MILLIS },
            SoakPhase::Stop { stage, .. } => match stage {
                StopStage::Check => SoakActionView::CheckExit,
                StopStage::Terminate => SoakActionView::Terminate,
                StopStage::Await => SoakActionView::AwaitExit {
                    timeout_millis: TERMINATE_TIMEOUT_MILLIS,
                },
                StopStage::Kill => SoakActionView::Kill,
                StopStage::Reap => SoakActionView::Reap,
            },
            SoakPhase::Settle => SoakActionView::AwaitShutdown {
                limit_millis: self.settle_millis,
            },
            SoakPhase::Finished(_) => SoakActionView::Done,
        }
    }
}

/// What the exit of workers that nobody asked to terminate amounts to: a failure is an error, with
/// -1 for the code of those that a signal killed.
pub open spec fn exit_result(status: ExitStatus) -> Result<(), SoakManagerError> {
    if status.succeeded() {
        Ok(())
    } else {
        Err(
            SoakManagerError::SoakTestFailed {
                exit_code: match status.exit_code() {
                    Some(code) => code,
                    None => -1i32,
                },
            },
        )
    }
}

fn check_exit(status: ExitStatus) -> (r: Result<(), SoakManagerError>)
    ensures
        r == exit_result(status),
{
    if status.success() {
        Ok(())
    } else {
        let exit_code: i32 = match status.code() {
            Some(code) => code,
            None => -1,
        };
        Err(SoakManagerError::SoakTestFailed { exit_code })
    }
}

impl SoakMachine {
    proof fn next_salt(self, version: int)
        requires
            0 <= version < self.config.versions@.len(),
        ensures
            self.salt_of(version + 1) == self.salt_of(version)
                + self.config.config.num_workers,
            self.salt_of(version + 1) <= self.salt_of(self.config.versions@.len() as int),
            0 <= self.salt_of(version),
    {
        let n = self.config.config.num_workers as int;
        let len = self.config.versions@.len() as int;
        assert((version + 1) * n == version * n + n) by (nonlinear_arith);
        assert(0 <= version * n && (version + 1) * n <= len * n) by (nonlinear_arith)
            requires
                0 <= version,
                version + 1 <= len,
                0 <= n,
        ;
    }

    fn begin_version(&self, version: usize) -> (phase: SoakPhase)
        ensures
            phase == self.begin(version as int),
    {
        if version < self.config.versions.len() {
            SoakPhase::CheckReady { version }
        } else {
            SoakPhase::Settle
        }
    }

    /// Goes on once a version's workers have been stopped, if there were any.
    pub fn stop_soak_process_if_running(
        self,
        version: usize,
        after: AfterStop,
        result: Result<(), SoakManagerError>,
    ) -> (r: Self)
        requires
            self.wf(),
            self.phase !is Settle,
            self.phase !is Finished,
            version == self.versions_done(),
        ensures
            r.wf(),
            r == self.stopped(version, after, result),
    {
        let mut m = self;
        proof {
            self.next_salt(version as int);
        }
        match (result, after) {
            (Ok(()), AfterStop::NextVersion) => {
                assert(m.config.versions@.len() == m.config.versions.len());
                m.salt = m.salt + m.config.config.num_workers;
                m.phase = m.begin_version(version + 1);
            },
            (result, _) => {
                m.phase = SoakPhase::Finished(result);
            },
        }
        m
    }

    /// Stops a version's workers: those that have exited by themselves are judged by their exit,
    /// others are asked to terminate and killed if they do not.
    pub fn stop_soak_process(
        self,
        version: usize,
        stage: StopStage,
        after: AfterStop,
        event: SoakEvent,
    ) -> (r: Self)
        requires
            self.wf(),
            self.phase == (SoakPhase::Stop { version, stage, after }),
        ensures
            r.wf(),
            r == self.stopping(version, stage, after, event),
    {
        let next = match (stage, event) {
            (StopStage::Check, SoakEvent::Exited(status)) => {
                return self.stop_soak_process_if_running(version, after, check_exit(status));
            },
            (StopStage::Check, SoakEvent::StillRunning) => StopStage::Terminate,
            (StopStage::Check, SoakEvent::WaitFailed) => StopStage::Terminate,
            (StopStage::Terminate, SoakEvent::Gone) => {
                return self.stop_soak_process_if_running(version, after, Ok(()));
            },
            (StopStage::Terminate, SoakEvent::Signaled) => StopStage::Await,
            (StopStage::Await, SoakEvent::Exited(_)) => {
                return self.stop_soak_process_if_running(version, after, Ok(()));
            },
            (StopStage::Await, SoakEvent::WaitFailed) => {
                return self.stop_soak_process_if_running(version, after, Ok(()));
            },
            (StopStage::Await, SoakEvent::TimedOut) => StopStage::Kill,
            (StopStage::Kill, SoakEvent::Signaled) => StopStage::Reap,
            (StopStage::Reap, SoakEvent::Exited(_)) => {
                return self.stop_soak_process_if_running(version, after, Ok(()));
            },
            (StopStage::Reap, SoakEvent::WaitFailed) => {
                return self.stop_soak_process_if_running(version, after, Ok(()));
            },
            _ => {
                return self;
            },
        };
        let mut m = self;
        m.phase = SoakPhase::Stop { version, stage: next, after };
        m
    }

    /// Take in a height, or that there is none, while a version's workers run.
    pub fn take_height(self, height: Option<u64>) -> (r: Self)
        requires
            self.wf(),
        ensures
            r.wf(),
            r == match self.phase {
                SoakPhase::CheckHeight { version } => self.at_height(version, height),
                _ => self,
            },
    {
        let mut m = self;
        if let SoakPhase::CheckHeight { version } = m.phase {
            m.phase = if height_reached(height, m.config.versions[version].1) {
                SoakPhase::Stop {
                    version,
                    stage: StopStage::Check,
                    after: AfterStop::NextVersion,
                }
            } else {
                SoakPhase::PauseHeight { version }
            };
        }
        m
    }

    /// Take in what came of the action that the soak test asked for, and move on.
    pub fn step(self, event: SoakEvent) -> (r: Self)
        requires
            self.wf(),
        ensures
            r.wf(),
            r == self.stepped(event),
    {
        if let SoakPhase::Stop { version, stage, after } = self.phase {
            return self.stop_soak_process(version, stage, after, event);
        }
        let mut m = self;
        let phase = match (&m.phase, event) {
            (SoakPhase::CheckReady { .. }, SoakEvent::ShutDown) => SoakPhase::Finished(Ok(())),
            (SoakPhase::PauseReady { .. }, SoakEvent::ShutDown) => SoakPhase::Finished(Ok(())),
            (SoakPhase::CheckReady { version }, SoakEvent::Reply(reply)) => {
                if wait_for_sequencer_ready(&reply) {
                    SoakPhase::Start { version: *version }
                } else {
                    SoakPhase::PauseReady { version: *version }
                }
            },
            (SoakPhase::PauseReady { version }, SoakEvent::Elapsed) => SoakPhase::CheckReady {
                version: *version,
            },
            (SoakPhase::Start { version }, SoakEvent::Started(started)) => match started {
                Ok(()) => SoakPhase::CheckHeight { version: *version },
                Err(m) => SoakPhase::Finished(Err(SoakManagerError::SoakTestStartFailed(m))),
            },
            (SoakPhase::CheckHeight { version }, SoakEvent::ShutDown) => SoakPhase::Stop {
                version: *version,
                stage: StopStage::Check,
                after: AfterStop::End,
            },
            (SoakPhase::PauseHeight { version }, SoakEvent::ShutDown) => SoakPhase::Stop {
                version: *version,
                stage: StopStage::Check,
                after: AfterStop::End,
            },
            (SoakPhase::CheckHeight { .. }, SoakEvent::Reply(reply)) => {
                return m.take_height(height_in(&reply));
            },
            (SoakPhase::PauseHeight { version }, SoakEvent::Elapsed) => SoakPhase::CheckHeight {
                version: *version,
            },
            (SoakPhase::Settle, SoakEvent::ShutDown) => SoakPhase::Finished(Ok(())),
            (SoakPhase::Settle, SoakEvent::Elapsed) => SoakPhase::Finished(Ok(())),
            _ => {
                return m;
            },
        };
        m.phase = phase;
        m
    }

    /// What the host has to do next.
    pub fn action(&self) -> (a: SoakAction)
        requires
            self.wf(),
        ensures
            a@ == self.action_view(),
    {
        match &self.phase {
            SoakPhase::CheckReady { .. } => SoakAction::Get {
                url: concat2(self.api_url.as_str(), "/sequencer/ready"),
            },
            SoakPhase::PauseReady { .. } => SoakAction::Pause { millis: READY_POLL_MILLIS },
            SoakPhase::Start { version } => SoakAction::Start {
                command: start_soak_process(
                    &self.config.versions[*version].0,
                    self.api_url.as_str(),
                    self.config.config.num_workers,
                    self.salt,
                ),
            },
            SoakPhase::CheckHeight { .. } => SoakAction::Get {
                url: concat2(
                    self.api_url.as_str(),
                    "/modules/chain-state/state/current-heights/",
                ),
            },
            SoakPhase::PauseHeight { .. } => SoakAction::Pause { millis: HEIGHT_POLL_MILLIS },
            SoakPhase::Stop { stage, .. } => match stage {
                StopStage::Check => SoakAction::CheckExit,
                StopStage::Terminate => SoakAction::Terminate,
                StopStage::Await => SoakAction::AwaitExit {
                    timeout_millis: TERMINATE_TIMEOUT_MILLIS,
                },
                StopStage::Kill => SoakAction::Kill,
                StopStage::Reap => SoakAction::Reap,
            },
            SoakPhase::Settle => SoakAction::AwaitShutdown { limit_millis: self.settle_millis },
            SoakPhase::Finished(_) => SoakAction::Done,
        }
    }

    /// The result, once the soak test is over.
    pub fn finish(self) -> (r: Result<Result<(), SoakManagerError>, Self>)
        ensures
            match self.phase {
                SoakPhase::Finished(result) => r == Ok::<
                    Result<(), SoakManagerError>,
                    SoakMachine,
                >(result),
                _ => r == Err::<Result<(), SoakManagerError>, SoakMachine>(self),
            },
    {
        match self.phase {
            SoakPhase::Finished(result) => Ok(result),
            _ => Err(self),
        }
    }
}

/// Whether the salts of all workers can be represented.
pub open spec fn salts_representable(config: SoakManagerView) -> bool {
    config.config.salt + config.versions.len() * config.config.num_workers <= u32::MAX
}

/// Whether the salts of all workers can be represented.
pub fn can_coordinate(config: &SoakManagerConfig) -> (b: bool)
    ensures
        b == salts_representable(config.deep_view()),
{
    let count: u64 = config.versions.len() as u64;
    let workers: u64 = config.config.num_workers as u64;
    assert(count == config.deep_view().versions.len());
    match count.checked_mul(workers) {
        None => {
            assert(count * workers > u64::MAX);
            false
        },
        Some(salts) => match salts.checked_add(config.config.salt as u64) {
            None => false,
            Some(end) => end <= 0xffff_ffff,
        },
    }
}

/// Coordinate soak testing alongside rollup nodes.
pub fn run_soak_coordinator(
    soak_config: SoakManagerConfig,
    api_url: String,
    settle_millis: Option<u64>,
) -> (m: SoakMachine)
    requires
        salts_representable(soak_config.deep_view()),
    ensures
        m.wf(),
        m.config == soak_config,
        m.api_url == api_url,
        m.settle_millis == settle_millis,
        m.salt == soak_config.config.salt,
        m.phase == m.begin(0),
{
    let salt: u32 = soak_config.config.salt;
    let mut m = SoakMachine {
        config: soak_config,
        api_url,
        settle_millis,
        salt,
        phase: SoakPhase::Settle,
    };
    m.phase = m.begin_version(0);
    assert(m.salt_of(0) == m.config.config.salt) by (nonlinear_arith);
    m
}

/// Whether soak workers have been started and not yet been stopped.
pub open spec fn workers_running(m: SoakMachine) -> bool {
    m.phase is CheckHeight || m.phase is PauseHeight || m.phase is Stop
}

/// Workers are started only when none run, and a soak test lets go of running ones only when they
/// have exited, are gone, or can no longer be waited for.
pub proof fn one_set_of_workers_at_a_time(m: SoakMachine, event: SoakEvent)
    ensures
        !workers_running(m) && workers_running(m.stepped(event)) ==> m.phase is Start
            && event is Started,
        workers_running(m) ==> m.stepped(event).phase !is Start,
        workers_running(m) && !workers_running(m.stepped(event)) ==> m.phase is Stop && (
        event is Exited || event is Gone || event is WaitFailed),
{
}

/// The workers of a later version have none of the salts of an earlier one.
pub proof fn versions_share_no_salts(earlier: SoakMachine, later: SoakMachine, i: usize, j: usize)
    requires
        earlier.wf(),
        later.wf(),
        earlier.config == later.config,
        earlier.phase == (SoakPhase::Start { version: i }),
        later.phase == (SoakPhase::Start { version: j }),
        i < j,
    ensures
        earlier.salt + earlier.config.config.num_workers <= later.salt,
{
    let n = earlier.config.config.num_workers as int;
    assert((i + 1) * n <= j * n && (i + 1) * n == i * n + n) by (nonlinear_arith)
        requires
            i + 1 <= j,
            0 <= n,
    ;
}

/// A shutdown signal before a version's workers have started ends the soak test in success.
pub proof fn early_shutdown_succeeds(m: SoakMachine)
    requires
        m.phase is CheckReady || m.phase is PauseReady || m.phase is Settle,
    ensures
        m.stepped(SoakEvent::ShutDown).phase == SoakPhase::Finished(Ok(())),
{
}

/// A soak test that is over stays as it is.
pub proof fn finished_soak_is_final(m: SoakMachine, event: SoakEvent)
    requires
        m.phase is Finished,
    ensures
        m.stepped(event) == m,
{
}

/// The salts of all workers can be represented exactly where the last worker of the last version
/// has one.
pub proof fn salts_end_with_the_last_worker(config: SoakManagerView)
    ensures
        salts_representable(config) <==> config.config.salt + config.versions.len()
            * config.config.num_workers <= 0xffff_ffff,
{
}

} // verus!

//! A mock rollup for integration tests: it claims to process blocks up to a stop height, tells the
//! manager about them, records the signals that it receives, and exits.
use vstd::prelude::*;

use crate::config::FileRead;
use crate::json::numeral_is_its_number;
use crate::process::{copy_texts, SIGHUP, SIGQUIT, SIGTERM};
use crate::rollup_api::{
    observed, HeightSubscription, SocketRead, SubscriptionEvent, SubscriptionPhase,
};
use crate::text::{concat2, concat3, decimal, decimal_text};

verus! {

/// Default idle time in ms before the mock rollup exits after reaching final height.
pub const DEFAULT_IDLE_TIME_MS: u64 = 500;

/// Maximum time the slot-stream server waits for the manager to subscribe.
pub const ACCEPT_TIMEOUT_MILLIS: u64 = 30000;

/// Maximum time to wait for the slot stream to be delivered before proceeding to exit.
pub const FRAME_DELIVERY_TIMEOUT_MILLIS: u64 = 10000;

/// The pause between two looks at a clock, a socket or pending signals.
pub const MOCK_POLL_MILLIS: u64 = 10;

/// Rollup config matching the structure expected by the rollup manager.
#[derive(Debug)]
pub struct RollupConfig {
    /// Path to the state file that tracks the current block height.
    pub state_file: String,
    pub runner: RunnerConfig,
    /// Override the stop height from CLI. Simulates a misbehaving rollup
    /// that doesn't respect --stop-at-rollup-height.
    pub override_stop_height: Option<u64>,
    /// Exit code to return. Defaults to 0 (success).
    pub exit_code: Option<u8>,
    /// How long to idle (in ms) after reaching final height before exiting.
    /// Defaults to DEFAULT_IDLE_TIME_MS.
    pub idle_time_ms: Option<u64>,
}

#[derive(Debug, Clone, Copy, PartialEq, Eq, Structural)]
pub struct RunnerConfig {
    pub http_config: HttpConfig,
}

#[derive(Debug, Clone, Copy, PartialEq, Eq, Structural)]
pub struct HttpConfig {
    pub bind_port: u16,
}

/// State file format for the mock rollup.
#[derive(Debug)]
pub struct StateFile {
    /// Current block height.
    pub height: u64,
    /// Signals received by the rollup (in order).
    pub signals: Vec<String>,
}

impl Default for StateFile {
    fn default() -> (s: Self)
        ensures
            s.height == 0,
            s.signals@ == Seq::<String>::empty(),
    {
        StateFile { height: 0, signals: Vec::new() }
    }
}

/// The name of a signal that the mock rollup records.
pub open spec fn name_of_signal(sig: i32) -> Seq<char> {
    if sig == SIGTERM {
        "SIGTERM"@
    } else if sig == SIGQUIT {
        "SIGQUIT"@
    } else if sig == SIGHUP {
        "SIGHUP"@
    } else {
        "UNKNOWN"@
    }
}

/// The name of a signal that the mock rollup records.
pub fn signal_name(sig: i32) -> (name: &'static str)
    ensures
        name@ == name_of_signal(sig),
{
    if sig == SIGTERM {
        "SIGTERM"
    } else if sig == SIGQUIT {
        "SIGQUIT"
    } else if sig == SIGHUP {
        "SIGHUP"
    } else {
        "UNKNOWN"
    }
}

/// The names of a list of signals.
pub open spec fn signal_names(signals: Seq<i32>) -> Seq<Seq<char>> {
    signals.map_values(|sig: i32| name_of_signal(sig))
}

/// Drain pending signals into `received`.
pub fn drain_signals(pending: &Vec<i32>, received: &mut Vec<String>)
    ensures
        final(received).deep_view() == old(received).deep_view() + signal_names(pending@),
{
    let ghost start = received.deep_view();
    let mut i: usize = 0;
    assert(start + signal_names(pending@).take(0) =~= start);
    while i < pending.len()
        invariant
            i <= pending.len(),
            received.deep_view() == start + signal_names(pending@).take(i as int),
        decreases pending.len() - i,
    {
        let ghost before = received.deep_view();
        let name = signal_name(pending[i]);
        received.push(name.to_string());
        assert(received.deep_view() =~= before.push(name@));
        assert(signal_names(pending@).take(i + 1) =~= signal_names(pending@).take(i as int).push(
            name@,
        ));
        i = i + 1;
    }
    assert(signal_names(pending@).take(i as int) =~= signal_names(pending@));
}

/// What a mock rollup says that has no stop height.
pub const NO_STOP_HEIGHT: &'static str =
    "Mock rollup was invoked with no stop height specified through either the CLI or the config. A stop height must be provided for the mock rollup to run. This is a bug in the test setup.";

/// Why a mock rollup gave up.
#[derive(Debug)]
pub enum MockRollupError {
    ReadConfig(String),
    ParseConfig(String),
    ReadState(String),
    ParseState(String),
    StateVersionMismatch { actual: u64, expected: u64 },
    StartHeightMismatch { start_height: u64, expected: u64 },
    NoStopHeight,
    RegisterSignals(String),
    Bind { port: u16, source: String },
    SerializeState(String),
    WriteState(String),
}

impl MockRollupError {
    /// The text of the error.
    pub open spec fn text(self) -> Seq<char> {
        match self {
            MockRollupError::ReadConfig(e) => "failed to read rollup config: "@ + e@,
            MockRollupError::ParseConfig(e) => "failed to parse rollup config: "@ + e@,
            MockRollupError::ReadState(e) => "failed to read state file: "@ + e@,
            MockRollupError::ParseState(e) => "failed to parse state file: "@ + e@,
            MockRollupError::StateVersionMismatch { actual, expected } => "state_version ("@
                + decimal(actual as nat) + ") != expected_state_version ("@ + decimal(
                expected as nat,
            ) + ")"@,
            MockRollupError::StartHeightMismatch { start_height, expected } => "start_at_height ("@
                + decimal(start_height as nat) + ") != current_height + 1 ("@ + decimal(
                expected as nat,
            ) + ")"@,
            MockRollupError::NoStopHeight => NO_STOP_HEIGHT@,
            MockRollupError::RegisterSignals(e) => "failed to register signal handlers: "@ + e@,
            MockRollupError::Bind { port, source } => "failed to bind to "@ + bind_addr(port)
                + ": "@ + source@,
            MockRollupError::SerializeState(e) => "failed to serialize state: "@ + e@,
            MockRollupError::WriteState(e) => "failed to write state file: "@ + e@,
        }
    }

    /// The text of the error.
    pub fn message(&self) -> (s: String)
        ensures
            s@ == self.text(),
    {
        match self {
            MockRollupError::ReadConfig(e) => concat2("failed to read rollup config: ", e),
            MockRollupError::ParseConfig(e) => concat2("failed to parse rollup config: ", e),
            MockRollupError::ReadState(e) => concat2("failed to read state file: ", e),
            MockRollupError::ParseState(e) => concat2("failed to parse state file: ", e),
            MockRollupError::StateVersionMismatch { actual, expected } => {
                let actual = decimal_text(*actual);
                let expected = decimal_text(*expected);
                let head = concat3(
                    "state_version (",
                    actual.as_str(),
                    ") != expected_state_version (",
                );
                concat3(head.as_str(), expected.as_str(), ")")
            },
            MockRollupError::StartHeightMismatch { start_height, expected } => {
                let start_height = decimal_text(*start_height);
                let expected = decimal_text(*expected);
                let head = concat3(
                    "start_at_height (",
                    start_height.as_str(),
                    ") != current_height + 1 (",
                );
                concat3(head.as_str(), expected.as_str(), ")")
            },
            MockRollupError::NoStopHeight => NO_STOP_HEIGHT.to_string(),
            MockRollupError::RegisterSignals(e) => concat2(
                "failed to register signal handlers: ",
                e,
            ),
            MockRollupError::Bind { port, source } => {
                let addr = bind_address(*port);
                let head = concat3("failed to bind to ", addr.as_str(), ": ");
                concat2(head.as_str(), source)
            },
            MockRollupError::SerializeState(e) => concat2("failed to serialize state: ", e),
            MockRollupError::WriteState(e) => concat2("failed to write state file: ", e),
        }
    }
}

/// The address that the slot stream is served on.
pub open spec fn bind_addr(port: u16) -> Seq<char> {
    "127.0.0.1:"@ + decimal(port as nat)
}

/// The address that the slot stream is served on.
pub fn bind_address(port: u16) -> (addr: String)
    ensures
        addr@ == bind_addr(port),
{
    let port = decimal_text(port as u64);
    concat2("127.0.0.1:", port.as_str())
}

/// The frame that tells of a height: its numeral.
pub open spec fn slot_frame(height: u64) -> Seq<char> {
    decimal(height as nat)
}

/// The heights after one, up to another one.
pub open spec fn heights_after(from: u64, to: u64) -> Seq<u64> {
    Seq::new(
        if from < to {
            (to - from) as nat
        } else {
            0
        },
        |i: int| (from + 1 + i) as u64,
    )
}

/// The heights of a slot stream that have not been sent yet.
#[derive(Debug)]
pub struct SlotStream {
    pub sent: u64,
    pub to: u64,
}

impl SlotStream {
    /// The heights to send.
    pub open spec fn remaining(self) -> Seq<u64> {
        heights_after(self.sent, self.to)
    }

    /// The next frame, from the lowest height on.
    pub fn next_frame(&mut self) -> (frame: Option<String>)
        ensures
            final(self).to == old(self).to,
            match frame {
                Some(text) => {
                    &&& old(self).remaining().len() > 0
                    &&& text@ == slot_frame(old(self).remaining()[0])
                    &&& final(self).remaining() == old(self).remaining().skip(1)
                },
                None => old(self).remaining().len() == 0 && *final(self) == *old(self),
            },
    {
        if self.sent >= self.to {
            return None;
        }
        let ghost before = *self;
        self.sent = self.sent + 1;
        assert(self.remaining() =~= before.remaining().skip(1));
        Some(decimal_text(self.sent))
    }
}

/// A stream of slot frames for the heights after `from`, up to `to`.
pub fn serve_slot_stream(from: u64, to: u64) -> (s: SlotStream)
    ensures
        s.remaining() == heights_after(from, to),
{
    SlotStream { sent: from, to }
}

/// Whether a subscription is handed the frames of a list of heights, in order.
pub open spec fn delivers(events: Seq<SubscriptionEvent>, heights: Seq<u64>) -> bool {
    &&& events.len() == heights.len()
    &&& forall|i: int|
        0 <= i < events.len() ==> ((#[trigger] events[i]) matches SubscriptionEvent::Read(
            SocketRead::Text(text),
        ) && text@ == slot_frame(heights[i]))
}

proof fn frames_are_observed(
    s: HeightSubscription,
    events: Seq<SubscriptionEvent>,
    heights: Seq<u64>,
)
    requires
        s.phase == SubscriptionPhase::Reading,
        !s.stop,
        delivers(events, heights),
    ensures
        observed(s, events).phase == SubscriptionPhase::Reading,
        !observed(s, events).stop,
        heights.len() > 0 ==> observed(s, events).latest == Some(heights.last()),
    decreases events.len(),
{
    if events.len() > 0 {
        frames_are_observed(s, events.drop_last(), heights.drop_last());
        numeral_is_its_number(heights.last());
    }
}

/// A subscription that has read the frames of a mock rollup has the height that the mock rollup
/// stops at.
pub proof fn stream_ends_at_the_final_height(
    s: HeightSubscription,
    from: u64,
    to: u64,
    events: Seq<SubscriptionEvent>,
)
    requires
        s.phase == SubscriptionPhase::Reading,
        !s.stop,
        from < to,
        delivers(events, heights_after(from, to)),
    ensures
        observed(s, events).latest == Some(to),
{
    frames_are_observed(s, events, heights_after(from, to));
}

/// What came of an attempt to accept a connection.
#[derive(Debug, Clone, Copy, PartialEq, Eq, Structural)]
pub enum AcceptAttempt {
    Connected,
    /// There is none yet, or the attempt was interrupted.
    NotYet,
    Failed,
}

/// What follows from an attempt to accept a connection.
#[derive(Debug, Clone, Copy, PartialEq, Eq, Structural)]
pub enum AcceptStep {
    Serve,
    RetryAfter { millis: u64 },
    GiveUp,
}

/// Whether to wait for a connection at all, or any longer.
pub fn keep_accepting(stopped: bool, elapsed_millis: u64) -> (b: bool)
    ensures
        b == (!stopped && elapsed_millis < ACCEPT_TIMEOUT_MILLIS),
{
    !stopped && elapsed_millis < ACCEPT_TIMEOUT_MILLIS
}

/// Decides what follows from an attempt to accept a connection.
pub fn accept_with_timeout(attempt: AcceptAttempt) -> (step: AcceptStep)
    ensures
        step == match attempt {
            AcceptAttempt::Connected => AcceptStep::Serve,
            AcceptAttempt::NotYet => AcceptStep::RetryAfter { millis: MOCK_POLL_MILLIS },
            AcceptAttempt::Failed => AcceptStep::GiveUp,
        },
{
    match attempt {
        AcceptAttempt::Connected => AcceptStep::Serve,
        AcceptAttempt::NotYet => AcceptStep::RetryAfter { millis: MOCK_POLL_MILLIS },
        AcceptAttempt::Failed => AcceptStep::GiveUp,
    }
}

/// What a mock rollup is to do, given its configuration, its state and its command line.
#[derive(Debug)]
pub enum MockPlan {
    Fail(MockRollupError),
    /// Exit at once, with this code.
    Exit(u8),
    /// Claim the blocks up to this height.
    Process { final_height: u64 },
}

/// The plan. The start height, where one is given, has to follow the height that the state file
/// holds; a stop height in the configuration goes before one on the command line; and a stop
/// height that lies behind makes the mock rollup exit, with code 1 unless the configuration says
/// otherwise.
pub open spec fn mock_plan(
    config: RollupConfig,
    height: u64,
    start_at: Option<u64>,
    stop_at: Option<u64>,
) -> MockPlan {
    let stop = if config.override_stop_height is Some {
        config.override_stop_height
    } else {
        stop_at
    };
    if start_at is Some && start_at->0 != height + 1 {
        MockPlan::Fail(
            MockRollupError::StartHeightMismatch {
                start_height: start_at->0,
                expected: (height + 1) as u64,
            },
        )
    } else if stop is None {
        MockPlan::Fail(MockRollupError::NoStopHeight)
    } else if stop->0 <= height {
        MockPlan::Exit(
            match config.exit_code {
                Some(code) => code,
                None => 1,
            },
        )
    } else {
        MockPlan::Process { final_height: stop->0 }
    }
}

/// Makes the plan.
pub fn plan_run(
    config: &RollupConfig,
    height: u64,
    start_at: Option<u64>,
    stop_at: Option<u64>,
) -> (plan: MockPlan)
    requires
        start_at is Some ==> height < u64::MAX,
    ensures
        plan == mock_plan(*config, height, start_at, stop_at),
{
    if let Some(start_height) = start_at {
        let expected: u64 = height + 1;
        if start_height != expected {
            return MockPlan::Fail(
                MockRollupError::StartHeightMismatch { start_height, expected },
            );
        }
    }
    let final_height: u64 = match config.override_stop_height {
        Some(override_height) => override_height,
        None => match stop_at {
            Some(stop_height) => stop_height,
            None => {
                return MockPlan::Fail(MockRollupError::NoStopHeight);
            },
        },
    };
    if final_height <= height {
        return MockPlan::Exit(
            match config.exit_code {
                Some(code) => code,
                None => 1,
            },
        );
    }
    MockPlan::Process { final_height }
}

/// A mock rollup that processes blocks. In contracts the received signals are a `Seq`.
#[derive(Debug)]
pub struct Processing<L = Vec<String>> {
    pub config: RollupConfig,
    pub from_height: u64,
    pub state_version: u64,
    pub final_height: u64,
    pub received: L,
}

impl View for Processing {
    type V = Processing<Seq<Seq<char>>>;

    open spec fn view(&self) -> Processing<Seq<Seq<char>>> {
        Processing {
            config: self.config,
            from_height: self.from_height,
            state_version: self.state_version,
            final_height: self.final_height,
            received: self.received.deep_view(),
        }
    }
}

/// Where a mock rollup that processes blocks stands.
#[derive(Debug, Clone, Copy, PartialEq, Eq, Structural)]
pub enum ProcessStage {
    RegisterSignals,
    StartServer,
    /// Seeing whether the slots have been delivered, or delivery has taken too long.
    CheckDelivery,
    DrainInDelivery,
    PauseInDelivery,
    /// Seeing whether the idle time is over.
    CheckIdle,
    DrainInIdle,
    PauseInIdle,
    DrainLast,
    StopServer,
    WriteState,
}

/// Where a mock rollup stands. In contracts the received signals are a `Seq`.
#[derive(Debug)]
pub enum MockPhase<L = Vec<String>> {
    ReadConfig,
    ReadState { config: RollupConfig, expected_state_version: Option<u64> },
    Process { processing: Processing<L>, stage: ProcessStage },
    Finished(Result<u8, MockRollupError>),
}

impl View for MockPhase {
    type V = MockPhase<Seq<Seq<char>>>;

    open spec fn view(&self) -> MockPhase<Seq<Seq<char>>> {
        match *self {
            MockPhase::ReadConfig => MockPhase::ReadConfig,
            MockPhase::ReadState { config, expected_state_version } => MockPhase::ReadState {
                config,
                expected_state_version,
            },
            MockPhase::Process { processing, stage } => MockPhase::Process {
                processing: processing@,
                stage,
            },
            MockPhase::Finished(r) => MockPhase::Finished(r),
        }
    }
}

/// What the host has to do next for a mock rollup.
#[derive(Debug)]
pub enum MockAction {
    /// Read and decode the rollup config that the command line names.
    ReadConfig,
    /// Read and decode the state file, if it is there.
    ReadState { path: String },
    /// Catch SIGTERM, SIGQUIT and SIGHUP.
    RegisterSignals,
    /// Serve the slots after one height, up to another one, on a local port.
    StartServer { port: u16, from: u64, to: u64 },
    /// See whether all slots have been sent, or this much time has passed since the server started.
    CheckDelivery { timeout_millis: u64 },
    /// See whether this much time has passed since this was first asked.
    CheckIdle { millis: u64 },
    /// Collect the signals that are pending.
    DrainSignals,
    Sleep { millis: u64 },
    /// Stop the server, and wait for it.
    StopServer,
    /// Encode and write the state file.
    WriteState { path: String, height: u64, signals: Vec<String>, state_version: u64 },
    /// Nothing: the mock rollup is done.
    Done,
}

/// The text of an action.
pub enum MockActionView {
    ReadConfig,
    ReadState { path: Seq<char> },
    RegisterSignals,
    StartServer { port: u16, from: u64, to: u64 },
    CheckDelivery { timeout_millis: u64 },
    CheckIdle { millis: u64 },
    DrainSignals,
    Sleep { millis: u64 },
    StopServer,
    WriteState { path: Seq<char>, height: u64, signals: Seq<Seq<char>>, state_version: u64 },
    Done,
}

impl View for MockAction {
    type V = MockActionView;

    open spec fn view(&self) -> MockActionView {
        match *self {
            MockAction::ReadConfig => MockActionView::ReadConfig,
            MockAction::ReadState { path } => MockActionView::ReadState { path: path@ },
            MockAction::RegisterSignals => MockActionView::RegisterSignals,
            MockAction::StartServer { port, from, to } => MockActionView::StartServer {
                port,
                from,
                to,
            },
            MockAction::CheckDelivery { timeout_millis } => MockActionView::CheckDelivery {
                timeout_millis,
            },
            MockAction::CheckIdle { millis } => MockActionView::CheckIdle { millis },
            MockAction::DrainSignals => MockActionView::DrainSignals,
            MockAction::Sleep { millis } => MockActionView::Sleep { millis },
            MockAction::StopServer => MockActionView::StopServer,
            MockAction::WriteState { path, height, signals, state_version } =>
                MockActionView::WriteState {
                path: path@,
                height,
                signals: signals.deep_view(),
                state_version,
            },
            MockAction::Done => MockActionView::Done,
        }
    }
}

/// What came of writing the state file.
#[derive(Debug)]
pub enum StateWrite {
    NotSerialized(String),
    NotWritten(String),
    Written,
}

/// What came of an action.
#[derive(Debug)]
pub enum MockEvent {
    /// The rollup config, with the state version that it asks for.
    ConfigRead(FileRead<(RollupConfig, Option<u64>)>),
    /// The state, with its version; `None` where there is no state file.
    StateRead(Option<FileRead<(StateFile, u64)>>),
    SignalsRegistered(Result<(), String>),
    ServerStarted(Result<(), String>),
    /// What was checked for has come about, or the time is over.
    Over,
    NotYet,
    Signals(Vec<i32>),
    Slept,
    ServerStopped,
    StateWritten(StateWrite),
}

/// A mock rollup: what the command line asks for, and where it stands. In contracts the received
/// signals are a `Seq`.
#[derive(Debug)]
pub struct MockRun<L = Vec<String>> {
    pub start_at: Option<u64>,
    pub stop_at: Option<u64>,
    pub phase: MockPhase<L>,
}

impl View for MockRun {
    type V = MockRun<Seq<Seq<char>>>;

    open spec fn view(&self) -> MockRun<Seq<Seq<char>>> {
        MockRun {
            start_at: self.start_at,
            stop_at: self.stop_at,
            phase: self.phase@,
        }
    }
}

/// Whether the height that has to follow the one in the state file can be represented.
pub open spec fn state_representable(start_at: Option<u64>, event: MockEvent) -> bool {
    start_at is Some ==> (event matches MockEvent::StateRead(Some(FileRead::Parsed((state, _))))
        ==> state.height < u64::MAX)
}

/// The phase after the configuration was read.
pub open spec fn configured(
    file: FileRead<(RollupConfig, Option<u64>)>,
) -> MockPhase<Seq<Seq<char>>> {
    match file {
        FileRead::Unreadable(e) => MockPhase::Finished(Err(MockRollupError::ReadConfig(e))),
        FileRead::Malformed(e) => MockPhase::Finished(Err(MockRollupError::ParseConfig(e))),
        FileRead::Parsed((config, expected_state_version)) => MockPhase::ReadState {
            config,
            expected_state_version,
        },
    }
}

/// The phase in which a state is acted on.
pub open spec fn planned(
    start_at: Option<u64>,
    stop_at: Option<u64>,
    config: RollupConfig,
    expected: Option<u64>,
    height: u64,
    state_version: u64,
) -> MockPhase<Seq<Seq<char>>> {
    if expected is Some && state_version != expected->0 {
        MockPhase::Finished(
            Err(
                MockRollupError::StateVersionMismatch {
                    actual: state_version,
                    expected: expected->0,
                },
            ),
        )
    } else {
        match mock_plan(config, height, start_at, stop_at) {
            MockPlan::Fail(e) => MockPhase::Finished(Err(e)),
            MockPlan::Exit(code) => MockPhase::Finished(Ok(code)),
            MockPlan::Process { final_height } => MockPhase::Process {
                processing: Processing {
                    config,
                    from_height: height,
                    state_version,
                    final_height,
                    received: seq![],
                },
                stage: ProcessStage::RegisterSignals,
            },
        }
    }
}

/// The phase after an event while blocks are processed.
pub open spec fn processed(
    p: Processing<Seq<Seq<char>>>,
    stage: ProcessStage,
    event: MockEvent,
) -> MockPhase<Seq<Seq<char>>> {
    match (stage, event) {
        (ProcessStage::RegisterSignals, MockEvent::SignalsRegistered(Ok(()))) =>
            MockPhase::Process { processing: p, stage: ProcessStage::StartServer },
        (ProcessStage::RegisterSignals, MockEvent::SignalsRegistered(Err(e))) =>
            MockPhase::Finished(Err(MockRollupError::RegisterSignals(e))),
        (ProcessStage::StartServer, MockEvent::ServerStarted(Ok(()))) => MockPhase::Process {
            processing: p,
            stage: ProcessStage::CheckDelivery,
        },
        (ProcessStage::StartServer, MockEvent::ServerStarted(Err(source))) =>
            MockPhase::Finished(
            Err(
                MockRollupError::Bind { port: p.config.runner.http_config.bind_port, source },
            ),
        ),
        (ProcessStage::CheckDelivery, MockEvent::NotYet) => MockPhase::Process {
            processing: p,
            stage: ProcessStage::DrainInDelivery,
        },
        (ProcessStage::CheckDelivery, MockEvent::Over) => MockPhase::Process {
            processing: p,
            stage: ProcessStage::CheckIdle,
        },
        (
            ProcessStage::DrainInDelivery
            | ProcessStage::DrainInIdle
            | ProcessStage::DrainLast,
            MockEvent::Signals(pending),
        ) => MockPhase::Process {
            processing: Processing { received: p.received + signal_names(pending@), ..p },
            stage: match stage {
                ProcessStage::DrainInDelivery => ProcessStage::PauseInDelivery,
                ProcessStage::DrainInIdle => ProcessStage::PauseInIdle,
                _ => ProcessStage::StopServer,
            },
        },
        (ProcessStage::PauseInDelivery, MockEvent::Slept) => MockPhase::Process {
            processing: p,
            stage: ProcessStage::CheckDelivery,
        },
        (ProcessStage::CheckIdle, MockEvent::NotYet) => MockPhase::Process {
            processing: p,
            stage: ProcessStage::DrainInIdle,
        },
        (ProcessStage::CheckIdle, MockEvent::Over) => MockPhase::Process {
            processing: p,
            stage: ProcessStage::DrainLast,
        },
        (ProcessStage::PauseInIdle, MockEvent::Slept) => MockPhase::Process {
            processing: p,
            stage: ProcessStage::CheckIdle,
        },
        (ProcessStage::StopServer, MockEvent::ServerStopped) => MockPhase::Process {
            processing: p,
            stage: ProcessStage::WriteState,
        },
        (ProcessStage::WriteState, MockEvent::StateWritten(written)) => MockPhase::Finished(
            match written {
                StateWrite::NotSerialized(e) => Err(MockRollupError::SerializeState(e)),
                StateWrite::NotWritten(e) => Err(MockRollupError::WriteState(e)),
                StateWrite::Written => Ok(
                    match p.config.exit_code {
                        Some(code) => code,
                        None => 0,
                    },
                ),
            },
        ),
        _ => MockPhase::Process { processing: p, stage },
    }
}

impl MockRun<Seq<Seq<char>>> {
    /// The mock rollup after an event.
    pub open spec fn stepped(self, event: MockEvent) -> MockRun<Seq<Seq<char>>> {
        MockRun {
            phase: match (self.phase, event) {
                (MockPhase::ReadConfig, MockEvent::ConfigRead(file)) => configured(file),
                (
                    MockPhase::ReadState { config, expected_state_version },
                    MockEvent::StateRead(file),
                ) => match file {
                    None => planned(
                        self.start_at,
                        self.stop_at,
                        config,
                        expected_state_version,
                        0,
                        0,
                    ),
                    Some(FileRead::Unreadable(e)) => MockPhase::Finished(
                        Err(MockRollupError::ReadState(e)),
                    ),
                    Some(FileRead::Malformed(e)) => MockPhase::Finished(
                        Err(MockRollupError::ParseState(e)),
                    ),
                    Some(FileRead::Parsed((state, state_version))) => planned(
                        self.start_at,
                        self.stop_at,
                        config,
                        expected_state_version,
                        state.height,
                        state_version,
                    ),
                },
                (MockPhase::Process { processing, stage }, e) => processed(processing, stage, e),
                _ => self.phase,
            },
            ..self
        }
    }

    /// The action that a phase asks for.
    pub open spec fn action(self) -> MockActionView {
        match self.phase {
            MockPhase::ReadConfig => MockActionView::ReadConfig,
            MockPhase::ReadState { config, .. } => MockActionView::ReadState {
                path: config.state_file@,
            },
            MockPhase::Process { processing: p, stage } => match stage {
                ProcessStage::RegisterSignals => MockActionView::RegisterSignals,
                ProcessStage::StartServer => MockActionView::StartServer {
                    port: p.config.runner.http_config.bind_port,
                    from: p.from_height,
                    to: p.final_height,
                },
                ProcessStage::CheckDelivery => MockActionView::CheckDelivery {
                    timeout_millis: FRAME_DELIVERY_TIMEOUT_MILLIS,
                },
                ProcessStage::CheckIdle => MockActionView::CheckIdle {
                    millis: match p.config.idle_time_ms {
                        Some(millis) => millis,
                        None => DEFAULT_IDLE_TIME_MS,
                    },
                },
                ProcessStage::DrainInDelivery => MockActionView::DrainSignals,
                ProcessStage::DrainInIdle => MockActionView::DrainSignals,
                ProcessStage::DrainLast => MockActionView::DrainSignals,
                ProcessStage::PauseInDelivery => MockActionView::Sleep {
                    millis: MOCK_POLL_MILLIS,
                },
                ProcessStage::PauseInIdle => MockActionView::Sleep { millis: MOCK_POLL_MILLIS },
                ProcessStage::StopServer => MockActionView::StopServer,
                ProcessStage::WriteState => MockActionView::WriteState {
                    path: p.config.state_file@,
                    height: p.final_height,
                    signals: p.received,
                    state_version: p.state_version,
                },
            },
            MockPhase::Finished(_) => MockActionView::Done,
        }
    }
}

impl MockRun {
    fn act_on_state(
        start_at: Option<u64>,
        stop_at: Option<u64>,
        config: RollupConfig,
        expected: Option<u64>,
        height: u64,
        state_version: u64,
    ) -> (r: Self)
        requires
            start_at is Some ==> height < u64::MAX,
        ensures
            r.start_at == start_at,
            r.stop_at == stop_at,
            r.phase@ == planned(start_at, stop_at, config, expected, height, state_version),
    {
        if let Some(expected) = expected {
            if state_version != expected {
                let e = MockRollupError::StateVersionMismatch { actual: state_version, expected };
                return MockRun { start_at, stop_at, phase: MockPhase::Finished(Err(e)) };
            }
        }
        let phase = match plan_run(&config, height, start_at, stop_at) {
            MockPlan::Fail(e) => MockPhase::Finished(Err(e)),
            MockPlan::Exit(code) => MockPhase::Finished(Ok(code)),
            MockPlan::Process { final_height } => {
                let received: Vec<String> = Vec::new();
                assert(received.deep_view() =~= seq![]);
                MockPhase::Process {
                    processing: Processing {
                        config,
                        from_height: height,
                        state_version,
                        final_height,
                        received,
                    },
                    stage: ProcessStage::RegisterSignals,
                }
            },
        };
        MockRun { start_at, stop_at, phase }
    }

    fn process(p: Processing, stage: ProcessStage, event: MockEvent) -> (phase: MockPhase)
        ensures
            phase@ == processed(p@, stage, event),
    {
        let mut p = p;
        let next = match (stage, event) {
            (ProcessStage::RegisterSignals, MockEvent::SignalsRegistered(r)) => match r {
                Ok(()) => ProcessStage::StartServer,
                Err(e) => {
                    return MockPhase::Finished(Err(MockRollupError::RegisterSignals(e)));
                },
            },
            (ProcessStage::StartServer, MockEvent::ServerStarted(r)) => match r {
                Ok(()) => ProcessStage::CheckDelivery,
                Err(source) => {
                    let port: u16 = p.config.runner.http_config.bind_port;
                    return MockPhase::Finished(Err(MockRollupError::Bind { port, source }));
                },
            },
            (ProcessStage::CheckDelivery, MockEvent::NotYet) => ProcessStage::DrainInDelivery,
            (ProcessStage::CheckDelivery, MockEvent::Over) => ProcessStage::CheckIdle,
            (ProcessStage::DrainInDelivery, MockEvent::Signals(pending)) => {
                drain_signals(&pending, &mut p.received);
                ProcessStage::PauseInDelivery
            },
            (ProcessStage::PauseInDelivery, MockEvent::Slept) => ProcessStage::CheckDelivery,
            (ProcessStage::CheckIdle, MockEvent::NotYet) => ProcessStage::DrainInIdle,
            (ProcessStage::CheckIdle, MockEvent::Over) => ProcessStage::DrainLast,
            (ProcessStage::DrainInIdle, MockEvent::Signals(pending)) => {
                drain_signals(&pending, &mut p.received);
                ProcessStage::PauseInIdle
            },
            (ProcessStage::PauseInIdle, MockEvent::Slept) => ProcessStage::CheckIdle,
            (ProcessStage::DrainLast, MockEvent::Signals(pending)) => {
                drain_signals(&pending, &mut p.received);
                ProcessStage::StopServer
            },
            (ProcessStage::StopServer, MockEvent::ServerStopped) => ProcessStage::WriteState,
            (ProcessStage::WriteState, MockEvent::StateWritten(written)) => {
                let result = match written {
                    StateWrite::NotSerialized(e) => Err(MockRollupError::SerializeState(e)),
                    StateWrite::NotWritten(e) => Err(MockRollupError::WriteState(e)),
                    StateWrite::Written => match p.config.exit_code {
                        Some(code) => Ok(code),
                        None => Ok(0),
                    },
                };
                return MockPhase::Finished(result);
            },
            _ => stage,
        };
        MockPhase::Process { processing: p, stage: next }
    }

    /// Take in what came of the action that the mock rollup asked for, and move on.
    pub fn step(self, event: MockEvent) -> (r: Self)
        requires
            state_representable(self.start_at, event),
        ensures
            r@ == self@.stepped(event),
    {
        let start_at: Option<u64> = self.start_at;
        let stop_at: Option<u64> = self.stop_at;
        match (self.phase, event) {
            (MockPhase::ReadConfig, MockEvent::ConfigRead(file)) => {
                let phase = match file {
                    FileRead::Unreadable(e) => MockPhase::Finished(
                        Err(MockRollupError::ReadConfig(e)),
                    ),
                    FileRead::Malformed(e) => MockPhase::Finished(
                        Err(MockRollupError::ParseConfig(e)),
                    ),
                    FileRead::Parsed((config, expected_state_version)) => MockPhase::ReadState {
                        config,
                        expected_state_version,
                    },
                };
                MockRun { start_at, stop_at, phase }
            },
            (
                MockPhase::ReadState { config, expected_state_version },
                MockEvent::StateRead(file),
            ) => {
                let phase = match file {
                    None => {
                        return Self::act_on_state(
                            start_at,
                            stop_at,
                            config,
                            expected_state_version,
                            0,
                            0,
                        );
                    },
                    Some(FileRead::Unreadable(e)) => MockRollupError::ReadState(e),
                    Some(FileRead::Malformed(e)) => MockRollupError::ParseState(e),
                    Some(FileRead::Parsed((state, state_version))) => {
                        return Self::act_on_state(
                            start_at,
                            stop_at,
                            config,
                            expected_state_version,
                            state.height,
                            state_version,
                        );
                    },
                };
                MockRun { start_at, stop_at, phase: MockPhase::Finished(Err(phase)) }
            },
            (MockPhase::Process { processing, stage }, event) => MockRun {
                start_at,
                stop_at,
                phase: Self::process(processing, stage, event),
            },
            (phase, _) => MockRun { start_at, stop_at, phase },
        }
    }

    /// What the host has to do next.
    pub fn action(&self) -> (a: MockAction)
        ensures
            a@ == self@.action(),
    {
        match &self.phase {
            MockPhase::ReadConfig => MockAction::ReadConfig,
            MockPhase::ReadState { config, .. } => MockAction::ReadState {
                path: config.state_file.clone(),
            },
            MockPhase::Process { processing: p, stage } => match stage {
                ProcessStage::RegisterSignals => MockAction::RegisterSignals,
                ProcessStage::StartServer => MockAction::StartServer {
                    port: p.config.runner.http_config.bind_port,
                    from: p.from_height,
                    to: p.final_height,
                },
                ProcessStage::CheckDelivery => MockAction::CheckDelivery {
                    timeout_millis: FRAME_DELIVERY_TIMEOUT_MILLIS,
                },
                ProcessStage::CheckIdle => MockAction::CheckIdle {
                    millis: match p.config.idle_time_ms {
                        Some(millis) => millis,
                        None => DEFAULT_IDLE_TIME_MS,
                    },
                },
                ProcessStage::DrainInDelivery => MockAction::DrainSignals,
                ProcessStage::DrainInIdle => MockAction::DrainSignals,
                ProcessStage::DrainLast => MockAction::DrainSignals,
                ProcessStage::PauseInDelivery => MockAction::Sleep { millis: MOCK_POLL_MILLIS },
                ProcessStage::PauseInIdle => MockAction::Sleep { millis: MOCK_POLL_MILLIS },
                ProcessStage::StopServer => MockAction::StopServer,
                ProcessStage::WriteState => MockAction::WriteState {
                    path: p.config.state_file.clone(),
                    height: p.final_height,
                    signals: copy_texts(&p.received),
                    state_version: p.state_version,
                },
            },
            MockPhase::Finished(_) => MockAction::Done,
        }
    }

    /// The exit code or the error, once the mock rollup is done.
    pub fn finish(self) -> (r: Result<Result<u8, MockRollupError>, Self>)
        ensures
            match self.phase {
                MockPhase::Finished(result) => r == Ok::<Result<u8, MockRollupError>, MockRun>(
                    result,
                ),
                _ => r == Err::<Result<u8, MockRollupError>, MockRun>(self),
            },
    {
        match self.phase {
            MockPhase::Finished(result) => Ok(result),
            _ => Err(self),
        }
    }
}

/// Starts a mock rollup.
pub fn run(start_at_rollup_height: Option<u64>, stop_at_rollup_height: Option<u64>) -> (m: MockRun)
    ensures
        m.start_at == start_at_rollup_height,
        m.stop_at == stop_at_rollup_height,
        m.phase is ReadConfig,
{
    MockRun {
        start_at: start_at_rollup_height,
        stop_at: stop_at_rollup_height,
        phase: MockPhase::ReadConfig,
    }
}

/// The mock rollup after a sequence of events.
pub open spec fn mock_after(m: MockRun<Seq<Seq<char>>>, events: Seq<MockEvent>) -> MockRun<
    Seq<Seq<char>>,
>
    decreases events.len(),
{
    if events.len() == 0 {
        m
    } else {
        mock_after(m, events.drop_last()).stepped(events.last())
    }
}

/// The names of the signals that an event hands to a mock rollup that has asked for them.
pub open spec fn handed_over(m: MockRun<Seq<Seq<char>>>, event: MockEvent) -> Seq<Seq<char>> {
    match event {
        MockEvent::Signals(pending) if m.action() is DrainSignals => signal_names(pending@),
        _ => seq![],
    }
}

/// The names of all signals that were handed over, in the order in which that happened.
pub open spec fn all_handed_over(m: MockRun<Seq<Seq<char>>>, events: Seq<MockEvent>) -> Seq<
    Seq<char>,
>
    decreases events.len(),
{
    if events.len() == 0 {
        seq![]
    } else {
        all_handed_over(m, events.drop_last()) + handed_over(
            mock_after(m, events.drop_last()),
            events.last(),
        )
    }
}

/// Every signal is recorded, in the order in which it was received: the state file is written with
/// the names of all signals that were handed over from the start of the mock rollup on.
pub proof fn signals_recorded_in_order(m: MockRun<Seq<Seq<char>>>, events: Seq<MockEvent>)
    requires
        m.phase is ReadConfig,
    ensures
        match mock_after(m, events).phase {
            MockPhase::Process { processing, .. } => processing.received == all_handed_over(
                m,
                events,
            ),
            MockPhase::Finished(_) => true,
            _ => all_handed_over(m, events) == Seq::<Seq<char>>::empty(),
        },
        mock_after(m, events).action() matches MockActionView::WriteState { signals, .. } ==> signals
            == all_handed_over(m, events),
    decreases events.len(),
{
    if events.len() > 0 {
        let rest = events.drop_last();
        signals_recorded_in_order(m, rest);
        let before = mock_after(m, rest);
        let names = handed_over(before, events.last());
        match before.phase {
            MockPhase::Process { processing, .. } => {
                assert(processing.received + names =~= all_handed_over(m, events));
                if names.len() == 0 {
                    assert(processing.received + names =~= processing.received);
                }
            },
            _ => {
                assert(all_handed_over(m, events) =~= all_handed_over(m, rest));
            },
        }
    }
}

} // verus!

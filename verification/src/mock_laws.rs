//! What holds of every run of the mock rollup.
use vstd::prelude::*;

use crate::config::FileRead;
use crate::mock_rollup::{
    heights_after, signal_names, MockActionView, MockEvent, MockPhase, MockRollupError, MockRun,
    RollupConfig, StateFile, StateWrite,
};
use crate::text::decimal;

verus! {

/// A mock rollup reads the state file that its configuration names; a configuration that cannot be
/// read or understood ends it.
pub proof fn mock_reads_its_state_file(
    m: MockRun<Seq<Seq<char>>>,
    config: RollupConfig,
    expected: Option<u64>,
    message: String,
)
    requires
        m.phase is ReadConfig,
    ensures
        m.action() is ReadConfig,
        m.stepped(MockEvent::ConfigRead(FileRead::Parsed((config, expected)))).action() == (
        MockActionView::ReadState { path: config.state_file@ }),
        m.stepped(MockEvent::ConfigRead(FileRead::Unreadable(message))).phase
            == MockPhase::<Seq<Seq<char>>>::Finished(
            Err(MockRollupError::ReadConfig(message)),
        ),
        m.stepped(MockEvent::ConfigRead(FileRead::Malformed(message))).phase == MockPhase::<
            Seq<Seq<char>>,
        >::Finished(Err(MockRollupError::ParseConfig(message))),
{
}

/// What a mock rollup makes of its state, of which a missing file tells height and version 0. The
/// state version has to be the expected one, where one is expected; the start height, where one is
/// given, has to be the one after the state's height; and there has to be a stop height, for which
/// the configuration goes before the command line. A stop height that is not ahead makes the mock
/// rollup exit, with 1 unless its configuration says otherwise; one that is ahead makes it serve
/// the heights up to there.
pub proof fn mock_goes_by_its_state(
    m: MockRun<Seq<Seq<char>>>,
    config: RollupConfig,
    expected: Option<u64>,
    found: Option<(StateFile, u64)>,
)
    requires
        m.phase == (MockPhase::<Seq<Seq<char>>>::ReadState {
            config,
            expected_state_version: expected,
        }),
        m.start_at is Some ==> (found matches Some((state, _)) ==> state.height < u64::MAX),
    ensures
        ({
            let event = match found {
                Some(state) => MockEvent::StateRead(Some(FileRead::Parsed(state))),
                None => MockEvent::StateRead(None),
            };
            let next = m.stepped(event);
            let (height, version) = match found {
                Some((state, version)) => (state.height, version),
                None => (0u64, 0u64),
            };
            let stop = match config.override_stop_height {
                Some(h) => Some(h),
                None => m.stop_at,
            };
            if expected is Some && expected->0 != version {
                next.phase == MockPhase::<Seq<Seq<char>>>::Finished(
                    Err(
                        MockRollupError::StateVersionMismatch {
                            actual: version,
                            expected: expected->0,
                        },
                    ),
                )
            } else if m.start_at is Some && m.start_at->0 != height + 1 {
                next.phase matches MockPhase::Finished(
                    Err(MockRollupError::StartHeightMismatch { start_height, expected: after }),
                ) && start_height == m.start_at->0 && after == height + 1
            } else if stop is None {
                next.phase == MockPhase::<Seq<Seq<char>>>::Finished(
                    Err(MockRollupError::NoStopHeight),
                )
            } else if stop->0 <= height {
                next.phase == MockPhase::<Seq<Seq<char>>>::Finished(
                    Ok(
                        match config.exit_code {
                            Some(code) => code,
                            None => 1,
                        },
                    ),
                )
            } else {
                &&& next.action() is RegisterSignals
                &&& next.stepped(MockEvent::SignalsRegistered(Ok(()))).action() == (
                MockActionView::StartServer {
                    port: config.runner.http_config.bind_port,
                    from: height,
                    to: stop->0,
                })
                &&& next.phase matches MockPhase::Process { processing, .. } && {
                    &&& processing.final_height == stop->0
                    &&& processing.state_version == version
                    &&& processing.config == config
                    &&& processing.received.len() == 0
                }
            }
        }),
{
}

/// While it processes blocks a mock rollup keeps its configuration, its heights and its state
/// version, and forgets no signal that it has received.
pub proof fn mock_keeps_its_plan(m: MockRun<Seq<Seq<char>>>, event: MockEvent)
    ensures
        m.phase matches MockPhase::Process { processing: p, .. } ==> (m.stepped(
            event,
        ).phase matches MockPhase::Process { processing: q, .. } ==> {
            &&& q.config == p.config
            &&& q.from_height == p.from_height
            &&& q.final_height == p.final_height
            &&& q.state_version == p.state_version
            &&& p.received.len() <= q.received.len()
            &&& q.received.take(p.received.len() as int) == p.received
        }),
        m.stepped(event).start_at == m.start_at,
        m.stepped(event).stop_at == m.stop_at,
{
    if let MockPhase::Process { processing: p, .. } = m.phase {
        assert(p.received.take(p.received.len() as int) =~= p.received);
        if let MockEvent::Signals(pending) = event {
            let all = p.received + signal_names(pending@);
            assert(all.take(p.received.len() as int) =~= p.received);
        }
    }
}

/// A mock rollup that has served its heights idles, takes in the last signals, stops its server and
/// writes its final height, the signals and the state version to its state file; then it exits,
/// with 0 unless its configuration says otherwise.
pub proof fn mock_writes_its_final_height(
    m: MockRun<Seq<Seq<char>>>,
    pending: Vec<i32>,
    message: String,
)
    requires
        m.phase matches MockPhase::Process { stage, .. } && stage is CheckDelivery,
    ensures
        m.phase matches MockPhase::Process { processing: p, .. } && {
            let idle = m.stepped(MockEvent::Over);
            let last = idle.stepped(MockEvent::Over);
            let stopping = last.stepped(MockEvent::Signals(pending));
            let writing = stopping.stepped(MockEvent::ServerStopped);
            &&& m.action() == (MockActionView::CheckDelivery { timeout_millis: 10000 })
            &&& idle.action() == (MockActionView::CheckIdle {
                millis: match p.config.idle_time_ms {
                    Some(millis) => millis,
                    None => 500,
                },
            })
            &&& last.action() is DrainSignals
            &&& stopping.action() is StopServer
            &&& writing.action() == (MockActionView::WriteState {
                path: p.config.state_file@,
                height: p.final_height,
                signals: p.received + signal_names(pending@),
                state_version: p.state_version,
            })
            &&& writing.stepped(MockEvent::StateWritten(StateWrite::Written)).phase
                == MockPhase::<Seq<Seq<char>>>::Finished(
                Ok(
                    match p.config.exit_code {
                        Some(code) => code,
                        None => 0,
                    },
                ),
            )
            &&& writing.stepped(
                MockEvent::StateWritten(StateWrite::NotWritten(message)),
            ).phase == MockPhase::<Seq<Seq<char>>>::Finished(
                Err(MockRollupError::WriteState(message)),
            )
            &&& writing.stepped(
                MockEvent::StateWritten(StateWrite::NotSerialized(message)),
            ).phase == MockPhase::<Seq<Seq<char>>>::Finished(
                Err(MockRollupError::SerializeState(message)),
            )
        },
{
}

/// While delivery or idling lasts, a mock rollup takes in signals and pauses before it looks again.
pub proof fn mock_takes_signals_while_it_waits(m: MockRun<Seq<Seq<char>>>, pending: Vec<i32>)
    requires
        m.phase matches MockPhase::Process { stage, .. } && (stage is CheckDelivery
            || stage is CheckIdle),
    ensures
        ({
            let draining = m.stepped(MockEvent::NotYet);
            let pausing = draining.stepped(MockEvent::Signals(pending));
            let again = pausing.stepped(MockEvent::Slept);
            &&& draining.action() is DrainSignals
            &&& pausing.action() == (MockActionView::Sleep { millis: 10 })
            &&& again.action() == m.action()
            &&& m.phase matches MockPhase::Process { processing: p, .. } && again.phase matches
                MockPhase::Process { processing: q, .. } && q.received == p.received
                + signal_names(pending@)
        }),
{
}

/// A signal is recorded under its name.
pub proof fn signals_go_by_their_names(signals: Seq<i32>, i: int)
    requires
        0 <= i < signals.len(),
    ensures
        signal_names(signals).len() == signals.len(),
        signals[i] == 15 ==> signal_names(signals)[i] == "SIGTERM"@,
        signals[i] == 3 ==> signal_names(signals)[i] == "SIGQUIT"@,
        signals[i] == 1 ==> signal_names(signals)[i] == "SIGHUP"@,
        signals[i] != 15 && signals[i] != 3 && signals[i] != 1 ==> signal_names(signals)[i]
            == "UNKNOWN"@,
{
}

/// The heights of a slot stream are all those above the first one up to the last one, one by one.
pub proof fn stream_misses_no_height(from: u64, to: u64, i: int)
    requires
        from <= to,
    ensures
        heights_after(from, to).len() == to - from,
        0 <= i < to - from ==> heights_after(from, to)[i] == from + 1 + i,
{
}

/// What a mock rollup says when it gives up.
pub proof fn mock_says_why(e: MockRollupError)
    ensures
        match e {
            MockRollupError::ReadConfig(m) => e.text() == "failed to read rollup config: "@ + m@,
            MockRollupError::ParseConfig(m) => e.text() == "failed to parse rollup config: "@ + m@,
            MockRollupError::ReadState(m) => e.text() == "failed to read state file: "@ + m@,
            MockRollupError::ParseState(m) => e.text() == "failed to parse state file: "@ + m@,
            MockRollupError::StateVersionMismatch { actual, expected } => e.text()
                == "state_version ("@ + decimal(actual as nat) + ") != expected_state_version ("@
                + decimal(expected as nat) + ")"@,
            MockRollupError::StartHeightMismatch { start_height, expected } => e.text()
                == "start_at_height ("@ + decimal(start_height as nat) + ") != current_height + 1 ("@
                + decimal(expected as nat) + ")"@,
            MockRollupError::NoStopHeight => true,
            MockRollupError::RegisterSignals(m) => e.text()
                == "failed to register signal handlers: "@ + m@,
            MockRollupError::Bind { port, source } => e.text() == "failed to bind to "@ + (
            "127.0.0.1:"@ + decimal(port as nat)) + ": "@ + source@,
            MockRollupError::SerializeState(m) => e.text() == "failed to serialize state: "@ + m@,
            MockRollupError::WriteState(m) => e.text() == "failed to write state file: "@ + m@,
        },
{
}

/// A mock rollup that cannot register for signals or serve its port gives up.
pub proof fn mock_that_cannot_serve_gives_up(m: MockRun<Seq<Seq<char>>>, message: String)
    ensures
        m.action() is RegisterSignals ==> m.stepped(
            MockEvent::SignalsRegistered(Err(message)),
        ).phase == MockPhase::<Seq<Seq<char>>>::Finished(
            Err(MockRollupError::RegisterSignals(message)),
        ),
        m.phase matches MockPhase::Process { processing: p, stage } ==> stage is StartServer ==> {
            &&& m.stepped(MockEvent::ServerStarted(Err(message))).phase == MockPhase::<
                Seq<Seq<char>>,
            >::Finished(
                Err(
                    MockRollupError::Bind {
                        port: p.config.runner.http_config.bind_port,
                        source: message,
                    },
                ),
            )
            &&& m.stepped(MockEvent::ServerStarted(Ok(()))).action() is CheckDelivery
        },
        m.phase is ReadState ==> {
            &&& m.stepped(MockEvent::StateRead(Some(FileRead::Unreadable(message)))).phase
                == MockPhase::<Seq<Seq<char>>>::Finished(
                Err(MockRollupError::ReadState(message)),
            )
            &&& m.stepped(MockEvent::StateRead(Some(FileRead::Malformed(message)))).phase
                == MockPhase::<Seq<Seq<char>>>::Finished(
                Err(MockRollupError::ParseState(message)),
            )
        },
{
}

} // verus!

use sov_rollup_manager::config::FileRead;
use sov_rollup_manager::mock_rollup::{
    accept_with_timeout, bind_address, drain_signals, keep_accepting, plan_run, run,
    serve_slot_stream, signal_name, AcceptAttempt, AcceptStep, HttpConfig, MockAction, MockEvent,
    MockPlan, MockRollupError, MockRun, RollupConfig, RunnerConfig, StateFile, StateWrite,
};
use sov_rollup_manager::rollup_api::{
    spawn_height_subscription, SocketRead, SubscriptionEvent,
};
use sov_rollup_manager::process::{SIGHUP, SIGQUIT, SIGTERM};

fn config() -> RollupConfig {
    RollupConfig {
        state_file: "/state".to_string(),
        runner: RunnerConfig {
            http_config: HttpConfig { bind_port: 99 },
        },
        override_stop_height: None,
        exit_code: None,
        idle_time_ms: Some(0),
    }
}

#[test]
fn signals_have_names() {
    assert_eq!(signal_name(SIGTERM), "SIGTERM");
    assert_eq!(signal_name(SIGQUIT), "SIGQUIT");
    assert_eq!(signal_name(SIGHUP), "SIGHUP");
    assert_eq!(signal_name(9), "UNKNOWN");
    let mut received = vec!["SIGHUP".to_string()];
    drain_signals(&vec![SIGQUIT, SIGTERM], &mut received);
    assert_eq!(received, vec!["SIGHUP", "SIGQUIT", "SIGTERM"]);
}

#[test]
fn slots_are_served_in_order() {
    let mut stream = serve_slot_stream(3, 5);
    assert_eq!(stream.next_frame().unwrap(), "4");
    assert_eq!(stream.next_frame().unwrap(), "5");
    assert!(stream.next_frame().is_none());
    assert!(serve_slot_stream(5, 5).next_frame().is_none());
    assert!(serve_slot_stream(u64::MAX, u64::MAX).next_frame().is_none());
}

#[test]
fn connections_are_awaited_for_a_while() {
    assert!(keep_accepting(false, 0));
    assert!(!keep_accepting(true, 0));
    assert!(!keep_accepting(false, u64::MAX));
    assert_eq!(accept_with_timeout(AcceptAttempt::Connected), AcceptStep::Serve);
    assert!(matches!(
        accept_with_timeout(AcceptAttempt::NotYet),
        AcceptStep::RetryAfter { .. }
    ));
    assert_eq!(accept_with_timeout(AcceptAttempt::Failed), AcceptStep::GiveUp);
    assert_eq!(bind_address(8080), "127.0.0.1:8080");
}

#[test]
fn plans_follow_from_heights() {
    assert!(matches!(
        plan_run(&config(), 10, Some(11), Some(20)),
        MockPlan::Process { final_height: 20 }
    ));
    assert!(matches!(
        plan_run(&config(), 10, Some(12), Some(20)),
        MockPlan::Fail(MockRollupError::StartHeightMismatch { start_height: 12, expected: 11 })
    ));
    assert!(matches!(
        plan_run(&config(), 10, None, None),
        MockPlan::Fail(MockRollupError::NoStopHeight)
    ));
    assert!(matches!(plan_run(&config(), 10, None, Some(10)), MockPlan::Exit(1)));
    let mut overridden = config();
    overridden.override_stop_height = Some(15);
    overridden.exit_code = Some(7);
    assert!(matches!(
        plan_run(&overridden, 10, None, Some(20)),
        MockPlan::Process { final_height: 15 }
    ));
    assert!(matches!(plan_run(&overridden, 15, None, Some(20)), MockPlan::Exit(7)));
}

fn fed(events: Vec<MockEvent>) -> MockRun {
    let mut machine = run(None, Some(5));
    for event in events {
        machine = machine.step(event);
    }
    machine
}

fn fails(events: Vec<MockEvent>) -> String {
    match fed(events).finish() {
        Ok(Err(e)) => e.message(),
        other => panic!("{other:?}"),
    }
}

fn configured(version: Option<u64>) -> MockEvent {
    MockEvent::ConfigRead(FileRead::Parsed((config(), version)))
}

#[test]
fn failures_are_explained() {
    let m = || "m".to_string();
    assert_eq!(
        fails(vec![MockEvent::ConfigRead(FileRead::Unreadable(m()))]),
        "failed to read rollup config: m"
    );
    assert_eq!(
        fails(vec![MockEvent::ConfigRead(FileRead::Malformed(m()))]),
        "failed to parse rollup config: m"
    );
    assert_eq!(
        fails(vec![
            configured(None),
            MockEvent::StateRead(Some(FileRead::Unreadable(m()))),
        ]),
        "failed to read state file: m"
    );
    assert_eq!(
        fails(vec![
            configured(None),
            MockEvent::StateRead(Some(FileRead::Malformed(m()))),
        ]),
        "failed to parse state file: m"
    );
    let at = |height: u64, version: u64| {
        MockEvent::StateRead(Some(FileRead::Parsed((
            StateFile {
                height,
                signals: vec![],
            },
            version,
        ))))
    };
    assert_eq!(
        fails(vec![configured(Some(2)), at(3, 1)]),
        "state_version (1) != expected_state_version (2)"
    );
    assert_eq!(
        fails(vec![
            configured(None),
            at(3, 0),
            MockEvent::SignalsRegistered(Err(m())),
        ]),
        "failed to register signal handlers: m"
    );
    assert_eq!(
        fails(vec![
            configured(None),
            at(3, 0),
            MockEvent::SignalsRegistered(Ok(())),
            MockEvent::ServerStarted(Err(m())),
        ]),
        "failed to bind to 127.0.0.1:99: m"
    );
    assert_eq!(
        MockRollupError::StartHeightMismatch {
            start_height: 200,
            expected: 101
        }
        .message(),
        "start_at_height (200) != current_height + 1 (101)"
    );
    assert_eq!(
        MockRollupError::SerializeState(m()).message(),
        "failed to serialize state: m"
    );
    assert_eq!(
        MockRollupError::WriteState(m()).message(),
        "failed to write state file: m"
    );
    assert!(MockRollupError::NoStopHeight
        .message()
        .starts_with("Mock rollup was invoked with no stop height"));
}

#[test]
fn signals_are_recorded_in_the_state() {
    let mut machine = fed(vec![
        configured(None),
        MockEvent::StateRead(None),
        MockEvent::SignalsRegistered(Ok(())),
        MockEvent::ServerStarted(Ok(())),
    ]);
    let mut pending = vec![vec![SIGHUP], vec![SIGTERM, SIGQUIT], vec![]];
    let mut checks = 0;
    loop {
        let event = match machine.action() {
            MockAction::Done => break,
            MockAction::CheckDelivery { .. } | MockAction::CheckIdle { .. } => {
                checks += 1;
                if checks < 3 {
                    MockEvent::NotYet
                } else {
                    MockEvent::Over
                }
            }
            MockAction::DrainSignals => MockEvent::Signals(if pending.is_empty() {
                vec![]
            } else {
                pending.remove(0)
            }),
            MockAction::Sleep { .. } => MockEvent::Slept,
            MockAction::StopServer => MockEvent::ServerStopped,
            MockAction::WriteState { path, height, signals, .. } => {
                assert_eq!(path, "/state");
                assert_eq!(height, 5);
                assert_eq!(signals, vec!["SIGHUP", "SIGTERM", "SIGQUIT"]);
                MockEvent::StateWritten(StateWrite::Written)
            }
            other => panic!("{other:?}"),
        };
        machine = machine.step(event);
    }
    assert!(matches!(machine.finish(), Ok(Ok(0))));
}

#[test]
fn a_subscription_reads_the_final_height() {
    let mut subscription = spawn_height_subscription(99);
    subscription.run_subscription(Some(SubscriptionEvent::Connected));
    let mut stream = serve_slot_stream(7, 12);
    while let Some(frame) = stream.next_frame() {
        let read = SocketRead::Text(frame);
        subscription.run_subscription(Some(SubscriptionEvent::Read(read)));
    }
    assert_eq!(subscription.latest_height(), Some(12));
}

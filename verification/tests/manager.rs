use sov_rollup_manager::checkpoint::{CheckpointConfig, CheckpointWrite};
use sov_rollup_manager::config::FileRead;
use sov_rollup_manager::path::{
    is_absolute, is_same_path, join_path, parent_path, path_file_name,
};
use sov_rollup_manager::process::{ExitStatus, SIGHUP, SIGQUIT, SIGTERM};
use sov_rollup_manager::rollup_api::{
    spawn_height_subscription, HeightSubscription, SocketRead, SubscriptionAction,
    SubscriptionEvent,
};
use sov_rollup_manager::runner::{
    build_rollup_args, forwarded_signals, manager_exit_code, EndSignal, MigrationOutcome,
    RunAction, RunEvent, RunMachine,
};
use sov_rollup_manager::text::{decimal_text, join_text, replace_text, trim_text};
use sov_rollup_manager::{
    parse_http_port, run, Checkpoint, CheckpointError, ManagerConfig, RollupApiClient,
    RollupApiError, RollupVersion, RunnerError,
};

#[test]
fn texts_are_built_exactly() {
    assert_eq!(decimal_text(0), "0");
    assert_eq!(decimal_text(u64::MAX), "18446744073709551615");
    assert_eq!(
        join_text(&vec!["a".to_string(), "b".to_string(), "c".to_string()], ","),
        "a,b,c"
    );
    assert_eq!(join_text(&vec![], ","), "");
    assert_eq!(trim_text(" \t\u{a0}a b\u{2003}\r\n"), "a b");
    assert_eq!(trim_text("  "), "");
    assert_eq!(replace_text("aaa", "aa", "b"), "ba");
    assert_eq!(replace_text("xyx", "x", ""), "y");
}

#[test]
fn paths_behave_as_unix_paths() {
    assert_eq!(join_path("/a", "b"), "/a/b");
    assert_eq!(join_path("/a/", "b"), "/a/b");
    assert_eq!(join_path("", "b"), "b");
    assert_eq!(join_path("/a", "/b"), "/b");
    assert!(is_absolute("/a"));
    assert!(!is_absolute("a/b"));
    assert!(is_same_path("/a//b/.", "/a/b"));
    assert!(!is_same_path("./a", "a"));
    assert!(!is_same_path("/a/../b", "/b"));
    assert_eq!(parent_path("/a/b").as_deref(), Some("/a"));
    assert_eq!(parent_path("a").as_deref(), Some(""));
    assert_eq!(parent_path("/"), None);
    assert_eq!(path_file_name("/a/b/").as_deref(), Some("b"));
    assert_eq!(path_file_name("/a/.."), None);
    assert_eq!(path_file_name("/"), None);
}

fn version(stop: Option<u64>) -> RollupVersion {
    RollupVersion {
        rollup_binary: "/bin/rollup".to_string(),
        config_path: "/c.toml".to_string(),
        migration_path: None,
        start_height: None,
        stop_height: stop,
    }
}

#[test]
fn rollup_arguments_hold_the_heights() {
    let mut v = version(Some(9));
    v.start_height = Some(3);
    assert_eq!(
        build_rollup_args(&v),
        vec![
            "--rollup-config-path",
            "/c.toml",
            "--start-at-rollup-height",
            "3",
            "--stop-at-rollup-height",
            "9"
        ]
    );
    assert_eq!(
        build_rollup_args(&version(None)),
        vec!["--rollup-config-path", "/c.toml"]
    );
}

#[test]
fn only_termination_and_quit_are_forwarded() {
    assert_eq!(
        forwarded_signals(&vec![SIGHUP, SIGQUIT, SIGTERM, SIGHUP, SIGQUIT]),
        vec![SIGQUIT, SIGTERM, SIGQUIT]
    );
}

#[test]
fn clients_know_their_port() {
    let path = "/c.toml".to_string();
    assert_eq!(parse_http_port(&path, FileRead::Parsed(8080)).unwrap(), 8080);
    assert!(matches!(
        parse_http_port(&path, FileRead::Unreadable("m".to_string())),
        Err(RollupApiError::ReadConfig { path, source }) if path == "/c.toml" && source == "m"
    ));
    assert!(matches!(
        RollupApiClient::from_config(&path, FileRead::Malformed("m".to_string())),
        Err(RollupApiError::ParseConfig { path, .. }) if path == "/c.toml"
    ));
    let client = RollupApiClient::from_config(&path, FileRead::Parsed(8080)).unwrap();
    assert_eq!(
        client.current_heights_url(),
        "http://localhost:8080/modules/chain-state/state/current-heights/"
    );
    assert_eq!(RollupApiClient::query_current_heights(Ok((7, 9))).unwrap(), (7, 9));
    assert_eq!(RollupApiClient::query_rollup_height(Ok((7, 9))).unwrap(), 7);
    assert!(matches!(
        RollupApiClient::query_rollup_height(Err("refused".to_string())),
        Err(RollupApiError::Request(m)) if m == "refused"
    ));
}

fn reading() -> HeightSubscription {
    let mut s = spawn_height_subscription(8080);
    assert_eq!(s.run_subscription(None), SubscriptionAction::Connect);
    assert_eq!(
        s.run_subscription(Some(SubscriptionEvent::Connected)),
        SubscriptionAction::Read
    );
    s
}

fn text(s: &str) -> Option<SubscriptionEvent> {
    Some(SubscriptionEvent::Read(SocketRead::Text(s.to_string())))
}

#[test]
fn subscription_keeps_the_latest_height() {
    let mut s = reading();
    assert_eq!(s.latest_height(), None);
    assert_eq!(s.run_subscription(text("41")), SubscriptionAction::Read);
    assert_eq!(s.run_subscription(text(" 42\n")), SubscriptionAction::Read);
    assert_eq!(s.latest_height(), Some(42));
    for odd in ["-1", "4.5", "\"43\"", "", "18446744073709551616", "042"] {
        s.run_subscription(text(odd));
        assert_eq!(s.latest_height(), Some(42), "{odd}");
    }
    s.run_subscription(Some(SubscriptionEvent::Read(SocketRead::Other)));
    s.run_subscription(Some(SubscriptionEvent::Read(SocketRead::Interrupted)));
    assert!(!s.stream_ended());
    assert!(s.wait_for_stream_end(999, 1000));
    assert!(!s.wait_for_stream_end(1000, 1000));
    assert_eq!(
        s.run_subscription(Some(SubscriptionEvent::Read(SocketRead::Close))),
        SubscriptionAction::Finish
    );
    assert!(s.stream_ended());
    assert!(!s.wait_for_stream_end(0, 1000));
    s.run_subscription(text("50"));
    assert_eq!(s.latest_height(), Some(42));
}

#[test]
fn subscription_observes_what_was_read() {
    let mut s = reading();
    s.observe(Some(5));
    s.observe(None);
    assert_eq!(s.latest_height(), Some(5));
    s.observe(Some(4));
    assert_eq!(s.latest_height(), Some(4));
}

#[test]
fn subscription_reconnects_until_it_is_stopped() {
    let mut s = spawn_height_subscription(8080);
    assert_eq!(
        s.url,
        "ws://localhost:8080/modules/chain-state/rollup-height/ws"
    );
    assert_eq!(
        s.run_subscription(Some(SubscriptionEvent::ConnectFailed)),
        SubscriptionAction::Sleep { millis: 100 }
    );
    assert_eq!(
        s.run_subscription(Some(SubscriptionEvent::Slept)),
        SubscriptionAction::Connect
    );
    s.request_stop();
    assert_eq!(
        s.run_subscription(Some(SubscriptionEvent::Connected)),
        SubscriptionAction::Finish
    );
}

fn checkpointed() -> CheckpointConfig {
    CheckpointConfig::Enabled {
        path: "/cp.json".to_string(),
    }
}

/// A run that is fed with the given events, one after the other.
fn fed(checkpoint: CheckpointConfig, stop: Option<u64>, events: Vec<RunEvent>) -> RunMachine {
    let mut v = version(stop);
    v.migration_path = Some("/bin/migrate".to_string());
    let config = ManagerConfig { versions: vec![v] };
    let mut machine = run(&config, &vec![], checkpoint);
    for event in events {
        machine = machine.step(event);
    }
    machine
}

fn fails(checkpoint: CheckpointConfig, events: Vec<RunEvent>) -> RunnerError {
    match fed(checkpoint, Some(100), events).finish() {
        Ok(Err(e)) => e,
        other => panic!("{other:?}"),
    }
}

fn migrated() -> RunEvent {
    RunEvent::MigrationDone(MigrationOutcome::Finished(ExitStatus::Exited(0)))
}

fn launched() -> Vec<RunEvent> {
    vec![
        migrated(),
        RunEvent::PortRead(FileRead::Parsed(1)),
        RunEvent::SignalsRegistered(Ok(())),
        RunEvent::Launched(Ok(())),
    ]
}

#[test]
fn every_step_of_a_run_reports_its_failure() {
    let off = || CheckpointConfig::Disabled;
    assert!(matches!(
        fails(
            checkpointed(),
            vec![RunEvent::CheckpointLoaded(Some(FileRead::Malformed("x".to_string())))]
        ),
        RunnerError::CheckpointRead(CheckpointError::Parse(m)) if m == "x"
    ));
    assert!(matches!(
        fails(
            checkpointed(),
            vec![
                RunEvent::CheckpointLoaded(None),
                RunEvent::CheckpointWritten(CheckpointWrite::NotWritten("full".to_string())),
            ]
        ),
        RunnerError::CheckpointWrite(CheckpointError::Write(m)) if m == "full"
    ));
    assert!(matches!(
        fails(
            checkpointed(),
            vec![RunEvent::CheckpointLoaded(Some(FileRead::Parsed(Checkpoint {
                version_index: 0,
                binary_path: "/bin/other".to_string(),
            })))]
        ),
        RunnerError::CheckpointBinaryMismatch { index: 0, checkpoint_path, config_path }
            if checkpoint_path == "/bin/other" && config_path == "/bin/rollup"
    ));
    assert!(matches!(
        fails(
            off(),
            vec![RunEvent::MigrationDone(MigrationOutcome::NotSpawned("x".to_string()))]
        ),
        RunnerError::Spawn { path, source } if path == "/bin/migrate" && source == "x"
    ));
    assert!(matches!(
        fails(
            off(),
            vec![migrated(), RunEvent::PortRead(FileRead::Malformed("x".to_string()))]
        ),
        RunnerError::ApiClientInit(RollupApiError::ParseConfig { .. })
    ));
    assert!(matches!(
        fails(
            off(),
            vec![
                migrated(),
                RunEvent::PortRead(FileRead::Parsed(1)),
                RunEvent::SignalsRegistered(Err("x".to_string())),
            ]
        ),
        RunnerError::SignalRegistration(m) if m == "x"
    ));
    assert!(matches!(
        fails(
            off(),
            vec![
                migrated(),
                RunEvent::PortRead(FileRead::Parsed(1)),
                RunEvent::SignalsRegistered(Ok(())),
                RunEvent::Launched(Err("x".to_string())),
            ]
        ),
        RunnerError::Spawn { path, source } if path == "/bin/rollup" && source == "x"
    ));
}

/// Drives a launched run with a height and an exit status.
fn ended(stop: Option<u64>, height: Option<u64>, status: ExitStatus) -> Result<(), RunnerError> {
    let mut machine = fed(CheckpointConfig::Disabled, stop, launched());
    for _ in 0..100 {
        let event = match machine.action() {
            RunAction::Done => return machine.finish().unwrap(),
            RunAction::ReadSignals => RunEvent::Signals(vec![]),
            RunAction::ForwardSignals { .. } => RunEvent::Forwarded,
            RunAction::ReadHeight => RunEvent::Height(height),
            RunAction::CheckExit => RunEvent::Exited(status),
            RunAction::DrainHeights { .. } => RunEvent::Drained,
            RunAction::Sleep { .. } => RunEvent::Slept,
            // A failed run is cleaned up after; the process is gone by then.
            RunAction::SendSignal { .. } => RunEvent::SignalSent(Err("gone".to_string())),
            other => panic!("{other:?}"),
        };
        machine = machine.step(event);
    }
    panic!("no end");
}

#[test]
fn the_end_of_a_rollup_is_judged_by_its_height() {
    let good = ExitStatus::Exited(0);
    assert!(ended(Some(100), Some(100), good).is_ok());
    assert!(ended(Some(100), Some(90), good).is_ok());
    assert!(matches!(
        ended(Some(100), Some(89), good),
        Err(RunnerError::PrematureExit { current_height: 89, stop_height: 100 })
    ));
    assert!(matches!(
        ended(Some(100), None, good),
        Err(RunnerError::UnknownExitHeight { stop_height: 100 })
    ));
    assert!(matches!(
        ended(None, Some(7), good),
        Err(RunnerError::UnexpectedExit { last_known_height: Some(7) })
    ));
    let failed = ended(Some(100), Some(100), ExitStatus::Exited(300));
    assert_eq!(manager_exit_code(&failed), 44);
    let killed = ended(Some(100), Some(100), ExitStatus::Signaled(9));
    assert_eq!(manager_exit_code(&killed), 1);
    assert!(matches!(killed, Err(RunnerError::NonZeroExit { path, .. }) if path == "/bin/rollup"));
}

#[test]
fn a_rollup_that_exceeds_its_stop_height_is_terminated() {
    let mut machine = fed(CheckpointConfig::Disabled, Some(100), launched());
    let mut sent = vec![];
    let mut millis: u64 = 0;
    let mut reaped = false;
    loop {
        let event = match machine.action() {
            RunAction::Done => break,
            RunAction::ReadSignals => RunEvent::Signals(vec![]),
            RunAction::ForwardSignals { .. } => RunEvent::Forwarded,
            RunAction::ReadHeight => RunEvent::Height(Some(101)),
            RunAction::CheckExit if reaped => RunEvent::Exited(ExitStatus::Signaled(9)),
            RunAction::CheckExit => RunEvent::StillRunning,
            RunAction::SendSignal { signal } => {
                sent.push(signal);
                RunEvent::SignalSent(Ok(()))
            }
            RunAction::ReadClock => {
                millis += 1000;
                RunEvent::Elapsed { millis }
            }
            RunAction::Sleep { .. } => RunEvent::Slept,
            RunAction::AwaitExit => {
                reaped = true;
                RunEvent::Exited(ExitStatus::Signaled(9))
            }
            other => panic!("{other:?}"),
        };
        machine = machine.step(event);
    }
    // It does not terminate by itself, so it is killed; and a failed run is cleaned up after.
    assert!(matches!(sent[..], [EndSignal::Term, EndSignal::Kill, EndSignal::Term]));
    assert!(matches!(
        machine.finish().unwrap(),
        Err(RunnerError::ExceededStopHeight { current_height: 101, stop_height: 100 })
    ));
}

//! Runs of the manager over mock rollups, on a host that keeps files and processes in memory.

use std::collections::HashMap;

use sov_rollup_manager::config::FileRead;
use sov_rollup_manager::mock_rollup::{
    self, serve_slot_stream, HttpConfig, MockAction, MockEvent, MockRun, RollupConfig, RunnerConfig,
    StateFile, StateWrite, DEFAULT_IDLE_TIME_MS,
};
use sov_rollup_manager::rollup_api::{
    spawn_height_subscription, HeightSubscription, SocketRead, SubscriptionAction,
    SubscriptionEvent,
};
use sov_rollup_manager::process::{CommandSpec, ExitStatus, SIGHUP, SIGQUIT, SIGTERM};
use sov_rollup_manager::runner::{
    manager_exit_code, EndSignal, MigrationOutcome, RunAction, RunEvent, RunMachine,
};
use sov_rollup_manager::{
    run, run_with_options, Checkpoint, CheckpointConfig, ManagerConfig, RollupVersion, RunnerError,
};
use sov_rollup_manager::checkpoint::CheckpointWrite;

const TICK_MS: u64 = 50;

/// What is configured for a mock rollup.
#[derive(Clone)]
struct MockConfig {
    state_file: String,
    exit_code: Option<u8>,
    override_stop_height: Option<u64>,
    idle_time_ms: Option<u64>,
}

/// A mock rollup that runs in the host.
struct Child {
    machine: Option<MockRun>,
    config: MockConfig,
    subscription: HeightSubscription,
    pending: Vec<i32>,
    idle_ticks: u64,
    exited: Option<ExitStatus>,
}

struct Host {
    configs: HashMap<String, MockConfig>,
    states: HashMap<String, (u64, Vec<String>)>,
    checkpoints: HashMap<String, (usize, String)>,
    child: Option<Child>,
    /// Signals to the manager, one per poll, once the rollup has told of a height.
    signals: Vec<i32>,
    launched: Vec<String>,
    log: Vec<String>,
}

fn value_of(args: &[String], flag: &str) -> Option<u64> {
    let at = args.iter().position(|a| a == flag)?;
    Some(args[at + 1].parse().expect("a number"))
}

impl Child {
    /// The subscription connects, and reads all frames that the mock rollup has for it.
    fn serve(&mut self, from: u64, to: u64) {
        let subscription = &mut self.subscription;
        assert_eq!(subscription.run_subscription(None), SubscriptionAction::Connect);
        let mut action = subscription.run_subscription(Some(SubscriptionEvent::Connected));
        let mut stream = serve_slot_stream(from, to);
        while let Some(frame) = stream.next_frame() {
            assert_eq!(action, SubscriptionAction::Read);
            let read = SocketRead::Text(frame);
            action = subscription.run_subscription(Some(SubscriptionEvent::Read(read)));
        }
        let close = SubscriptionEvent::Read(SocketRead::Close);
        assert_eq!(
            subscription.run_subscription(Some(close)),
            SubscriptionAction::Finish
        );
    }

    /// Lets the mock rollup go on until it idles for a tick or is done.
    fn tick(&mut self, states: &mut HashMap<String, (u64, Vec<String>)>) {
        if self.exited.is_some() {
            return;
        }
        loop {
            let machine = self.machine.take().expect("running");
            let event = match machine.action() {
                MockAction::ReadConfig => MockEvent::ConfigRead(FileRead::Parsed((
                    RollupConfig {
                        state_file: self.config.state_file.clone(),
                        runner: RunnerConfig {
                            http_config: HttpConfig { bind_port: 12345 },
                        },
                        override_stop_height: self.config.override_stop_height,
                        exit_code: self.config.exit_code,
                        idle_time_ms: self.config.idle_time_ms,
                    },
                    None,
                ))),
                MockAction::ReadState { path } => {
                    MockEvent::StateRead(states.get(&path).map(|(height, _)| {
                        FileRead::Parsed((
                            StateFile {
                                height: *height,
                                signals: vec![],
                            },
                            0,
                        ))
                    }))
                }
                MockAction::RegisterSignals => MockEvent::SignalsRegistered(Ok(())),
                MockAction::StartServer { port, from, to } => {
                    assert_eq!(port, 12345);
                    self.serve(from, to);
                    MockEvent::ServerStarted(Ok(()))
                }
                MockAction::CheckDelivery { .. } => MockEvent::Over,
                MockAction::CheckIdle { millis } => {
                    if self.idle_ticks * TICK_MS >= millis {
                        MockEvent::Over
                    } else {
                        MockEvent::NotYet
                    }
                }
                MockAction::DrainSignals => MockEvent::Signals(std::mem::take(&mut self.pending)),
                MockAction::Sleep { .. } => {
                    self.idle_ticks += 1;
                    self.machine = Some(machine.step(MockEvent::Slept));
                    return;
                }
                MockAction::StopServer => MockEvent::ServerStopped,
                MockAction::WriteState {
                    path,
                    height,
                    signals,
                    ..
                } => {
                    states.insert(path, (height, signals));
                    MockEvent::StateWritten(StateWrite::Written)
                }
                MockAction::Done => {
                    self.exited = Some(match machine.finish().unwrap() {
                        Ok(code) => ExitStatus::Exited(code as i32),
                        Err(_) => ExitStatus::Exited(1),
                    });
                    return;
                }
            };
            self.machine = Some(machine.step(event));
        }
    }
}

impl Host {
    fn new() -> Self {
        Host {
            configs: HashMap::new(),
            states: HashMap::new(),
            checkpoints: HashMap::new(),
            child: None,
            signals: vec![],
            launched: vec![],
            log: vec![],
        }
    }

    fn write_rollup_config(&mut self, name: &str) -> String {
        self.write_rollup_config_ext(name, None, None, None)
    }

    fn write_rollup_config_ext(
        &mut self,
        name: &str,
        exit_code: Option<u8>,
        override_stop_height: Option<u64>,
        idle_time_ms: Option<u64>,
    ) -> String {
        let path = format!("/tmp/{name}.toml");
        self.configs.insert(
            path.clone(),
            MockConfig {
                state_file: "/tmp/state".to_string(),
                exit_code,
                override_stop_height,
                idle_time_ms,
            },
        );
        path
    }

    fn write_state_file(&mut self, height: u64) {
        self.states.insert("/tmp/state".to_string(), (height, vec![]));
    }

    fn read_state_height(&self) -> u64 {
        self.states["/tmp/state"].0
    }

    fn write_checkpoint(&mut self, version_index: usize, binary_path: &str) {
        self.checkpoints
            .insert(checkpoint_file(), (version_index, binary_path.to_string()));
    }

    fn launch(&mut self, command: CommandSpec, port: u16) {
        let at = command
            .args
            .iter()
            .position(|a| a == "--rollup-config-path")
            .expect("config");
        let config = self.configs[&command.args[at + 1]].clone();
        self.launched.push(command.args[at + 1].clone());
        self.log.push(format!("{} {}", command.program, command.args.join(" ")));
        let machine = mock_rollup::run(
            value_of(&command.args, "--start-at-rollup-height"),
            value_of(&command.args, "--stop-at-rollup-height"),
        );
        self.child = Some(Child {
            machine: Some(machine),
            config,
            subscription: spawn_height_subscription(port),
            pending: vec![],
            idle_ticks: 0,
            exited: None,
        });
    }

    fn latest_height(&self) -> Option<u64> {
        self.child.as_ref().unwrap().subscription.latest_height()
    }

    fn perform(&mut self, action: RunAction) -> RunEvent {
        match action {
            RunAction::LoadCheckpoint { path } => RunEvent::CheckpointLoaded(
                self.checkpoints.get(&path).map(|(version_index, binary_path)| {
                    FileRead::Parsed(Checkpoint {
                        version_index: *version_index,
                        binary_path: binary_path.clone(),
                    })
                }),
            ),
            RunAction::WriteCheckpoint { path, checkpoint } => {
                self.log.push(format!("checkpoint {}", checkpoint.version_index));
                self.checkpoints
                    .insert(path, (checkpoint.version_index, checkpoint.binary_path));
                RunEvent::CheckpointWritten(CheckpointWrite::Written)
            }
            RunAction::RunMigration { command } => {
                self.log.push(format!("migrate {}", command.program));
                let code = if command.program == "/bin/broken-migration" { 7 } else { 0 };
                RunEvent::MigrationDone(MigrationOutcome::Finished(ExitStatus::Exited(code)))
            }
            RunAction::ReadHttpPort { .. } => RunEvent::PortRead(FileRead::Parsed(12345)),
            RunAction::RegisterSignals => RunEvent::SignalsRegistered(Ok(())),
            RunAction::Launch { command, port } => {
                assert_eq!(port, 12345);
                self.launch(command, port);
                RunEvent::Launched(Ok(()))
            }
            RunAction::ReadSignals => {
                let told = self.latest_height().is_some();
                if told && !self.signals.is_empty() {
                    RunEvent::Signals(vec![self.signals.remove(0)])
                } else {
                    RunEvent::Signals(vec![])
                }
            }
            RunAction::ForwardSignals { signals } => {
                self.child.as_mut().unwrap().pending.extend(signals);
                RunEvent::Forwarded
            }
            RunAction::ReadHeight => RunEvent::Height(self.latest_height()),
            RunAction::CheckExit => {
                let child = self.child.as_mut().unwrap();
                child.tick(&mut self.states);
                match child.exited {
                    Some(status) => RunEvent::Exited(status),
                    None => RunEvent::StillRunning,
                }
            }
            RunAction::Sleep { .. } => RunEvent::Slept,
            RunAction::DrainHeights { timeout_millis } => {
                assert!(timeout_millis > 0);
                RunEvent::Drained
            }
            RunAction::SendSignal { signal } => {
                if matches!(signal, EndSignal::Term) {
                    self.log.push("SIGTERM".to_string());
                    self.child.as_mut().unwrap().pending.push(SIGTERM);
                }
                RunEvent::SignalSent(Ok(()))
            }
            RunAction::ReadClock => RunEvent::Elapsed { millis: 0 },
            RunAction::AwaitExit | RunAction::Done => unreachable!(),
        }
    }

    fn drive(&mut self, mut machine: RunMachine) -> Result<(), RunnerError> {
        loop {
            match machine.action() {
                RunAction::Done => return machine.finish().unwrap(),
                action => {
                    let event = self.perform(action);
                    machine = machine.step(event);
                }
            }
        }
    }

    fn run(
        &mut self,
        config: &ManagerConfig,
        checkpoint: CheckpointConfig,
    ) -> Result<(), RunnerError> {
        self.drive(run(config, &vec![], checkpoint))
    }
}

fn mock_rollup_binary() -> String {
    "/bin/mock-rollup".to_string()
}

fn checkpoint_file() -> String {
    "/tmp/checkpoint.json".to_string()
}

fn version(config_path: String, start: Option<u64>, stop: Option<u64>) -> RollupVersion {
    RollupVersion {
        rollup_binary: mock_rollup_binary(),
        config_path,
        migration_path: None,
        start_height: start,
        stop_height: stop,
    }
}

fn enabled() -> CheckpointConfig {
    CheckpointConfig::Enabled {
        path: checkpoint_file(),
    }
}

#[test]
fn test_single_version_with_stop_height() {
    let mut host = Host::new();
    let rollup_config = host.write_rollup_config("v1");
    let config = ManagerConfig {
        versions: vec![version(rollup_config, None, Some(100))],
    };
    host.run(&config, CheckpointConfig::Disabled)
        .expect("runner should succeed");
    assert_eq!(host.read_state_height(), 100);
}

#[test]
fn test_two_versions_with_upgrade() {
    let mut host = Host::new();
    let rollup_config_v1 = host.write_rollup_config("v1");
    let rollup_config_v2 = host.write_rollup_config("v2");
    let config = ManagerConfig {
        versions: vec![
            version(rollup_config_v1, None, Some(100)),
            version(rollup_config_v2, Some(101), Some(200)),
        ],
    };
    host.run(&config, CheckpointConfig::Disabled)
        .expect("runner should succeed");
    // v1: 0->100, v2: 101->200
    assert_eq!(host.read_state_height(), 200);
}

#[test]
fn test_version_that_stops_instantly() {
    let mut host = Host::new();
    let rollup_config = host.write_rollup_config("v1");
    // Pre-populate state to simulate v0 having run already at height 100
    host.write_state_file(100);
    // v1 should stop with an error
    let config = ManagerConfig {
        versions: vec![
            version(rollup_config.clone(), None, Some(100)),
            version(rollup_config, Some(101), Some(200)),
        ],
    };
    let result = host.run(&config, CheckpointConfig::Disabled);
    let err = result.expect_err("runner should fail when rollup exits with non-zero code");
    assert!(
        matches!(err, RunnerError::NonZeroExit { .. }),
        "runner should return NonZeroExit: {err:?}"
    );
}

#[test]
fn test_three_versions_chain() {
    let mut host = Host::new();
    let rollup_config_v1 = host.write_rollup_config("v1");
    let rollup_config_v2 = host.write_rollup_config("v2");
    let rollup_config_v3 = host.write_rollup_config("v3");
    let config = ManagerConfig {
        versions: vec![
            version(rollup_config_v1, None, Some(50)),
            version(rollup_config_v2, Some(51), Some(150)),
            version(rollup_config_v3, Some(151), Some(250)),
        ],
    };
    host.run(&config, CheckpointConfig::Disabled)
        .expect("runner should succeed");
    // v1: 0->50, v2: 51->150, v3: 151->250
    assert_eq!(host.read_state_height(), 250);
}

#[test]
fn test_start_height_mismatch_detected_by_rollup() {
    let mut host = Host::new();
    let rollup_config = host.write_rollup_config("v2");
    // Pre-populate state to simulate v1 having run already at height 100
    host.write_state_file(100);
    // v2 claims to start at 200, but state is at 100 (expects 101)
    let config = ManagerConfig {
        versions: vec![version(rollup_config, Some(200), Some(300))],
    };
    let result = host.run(&config, CheckpointConfig::Disabled);
    let err = result.expect_err("runner should fail when rollup exits with non-zero code");
    assert!(
        matches!(err, RunnerError::NonZeroExit { .. }),
        "runner should return NonZeroExit: {err:?}"
    );
}

fn rollup_failure(rollup_exit_at: Option<u64>) {
    let mut host = Host::new();
    // Create a config that tells the mock rollup to exit with code 42
    let rollup_config = host.write_rollup_config_ext("v1", Some(42), rollup_exit_at, None);
    let config = ManagerConfig {
        versions: vec![version(rollup_config, None, Some(100))],
    };
    let result = host.run(&config, CheckpointConfig::Disabled);
    assert_eq!(manager_exit_code(&result), 42);
    let err = result.expect_err("runner should fail when rollup exits with non-zero code");
    assert!(
        matches!(err, RunnerError::NonZeroExit { .. }),
        "runner should return NonZeroExit: {err:?}"
    );
    assert_eq!(
        err.exit_code(),
        Some(42),
        "exit code should match rollup's configured exit code"
    );
}

#[test]
fn test_rollup_failure_at_stop_height() {
    rollup_failure(None);
}

#[test]
fn test_rollup_failure_before_stop_height() {
    rollup_failure(Some(20));
}

#[test]
fn test_rollup_exits_early_with_success() {
    let mut host = Host::new();
    // Rollup will exit at height 50 (success), but manager expects it to run until 100
    let rollup_config = host.write_rollup_config_ext("v1", None, Some(50), None);
    let config = ManagerConfig {
        versions: vec![version(rollup_config, None, Some(100))],
    };
    let result = host.run(&config, CheckpointConfig::Disabled);
    assert_eq!(manager_exit_code(&result), 1);
    let err = result.expect_err("runner should fail when rollup exits before stop height");
    assert!(
        matches!(err, RunnerError::PrematureExit { .. }),
        "runner should return PrematureExit: {err:?}"
    );
}

#[test]
fn test_rollup_exceeds_stop_height() {
    let mut host = Host::new();
    // Rollup will continue to height 150, but manager expects it to stop at 100
    let rollup_config = host.write_rollup_config_ext("v1", None, Some(150), None);
    let config = ManagerConfig {
        versions: vec![version(rollup_config, None, Some(100))],
    };
    let result = host.run(&config, CheckpointConfig::Disabled);
    let err = result.expect_err("runner should fail when rollup exceeds stop height");
    assert!(
        matches!(err, RunnerError::ExceededStopHeight { .. }),
        "runner should return ExceededStopHeight: {err:?}"
    );
    assert!(host.log.contains(&"SIGTERM".to_string()));
}

#[test]
fn test_rollup_exits_unexpectedly() {
    let mut host = Host::new();
    // Rollup will exit at height 50, but manager has no stop height (expects indefinite run)
    let rollup_config = host.write_rollup_config_ext("v1", None, Some(50), None);
    let config = ManagerConfig {
        versions: vec![version(rollup_config, None, None)],
    };
    let result = host.run(&config, CheckpointConfig::Disabled);
    let err = result.expect_err("runner should fail when rollup exits unexpectedly");
    assert!(
        matches!(err, RunnerError::UnexpectedExit { .. }),
        "runner should return UnexpectedExit: {err:?}"
    );
}

#[test]
fn test_signal_forwarding() {
    let mut host = Host::new();
    // Configure the rollup to idle for a while, giving us time to send signals
    let rollup_config = host.write_rollup_config_ext("v1", None, None, Some(1_000));
    let config = ManagerConfig {
        versions: vec![version(rollup_config, None, Some(100))],
    };
    host.signals = vec![SIGQUIT, SIGTERM, SIGQUIT];
    let result = host.run(&config, CheckpointConfig::Disabled);
    assert!(result.is_ok(), "manager should exit successfully");
    assert_eq!(manager_exit_code(&result), 0);

    let (height, mut actual_signals) = host.states["/tmp/state"].clone();
    assert_eq!(height, 100);
    assert_eq!(actual_signals, vec!["SIGQUIT", "SIGTERM", "SIGQUIT"]);
    actual_signals.sort();
    let mut expected_signals = vec!["SIGQUIT", "SIGQUIT", "SIGTERM"];
    expected_signals.sort();
    assert_eq!(
        actual_signals, expected_signals,
        "rollup should have received all forwarded signals"
    );
}

#[test]
fn other_signals_are_swallowed() {
    let mut host = Host::new();
    let rollup_config = host.write_rollup_config_ext("v1", None, None, Some(1_000));
    let config = ManagerConfig {
        versions: vec![version(rollup_config, None, Some(100))],
    };
    host.signals = vec![SIGHUP, SIGTERM, SIGHUP];
    host.run(&config, CheckpointConfig::Disabled).unwrap();
    assert_eq!(host.states["/tmp/state"].1, vec!["SIGTERM"]);
}

#[test]
fn test_checkpoint_enables_version_skip() {
    let mut host = Host::new();
    // Pre-populate state at height 100 (simulating v0 completion)
    host.write_state_file(100);
    let rollup_config_v0 = host.write_rollup_config("v0");
    let rollup_config_v1 = host.write_rollup_config("v1");
    // Pre-populate checkpoint file pointing to version 1
    host.write_checkpoint(1, "/bin/mock-rollup");
    let config = ManagerConfig {
        versions: vec![
            version(rollup_config_v0, None, Some(100)),
            version(rollup_config_v1, Some(101), Some(200)),
        ],
    };
    // Run with checkpoint - should skip v0 and run v1
    host.run(&config, enabled()).expect("runner should succeed");
    // Verify final state
    assert_eq!(host.read_state_height(), 200);
    // Verify checkpoint was updated to v1
    assert_eq!(host.checkpoints[&checkpoint_file()].0, 1);
    assert_eq!(host.launched, vec!["/tmp/v1.toml"]);
}

#[test]
fn test_checkpoint_binary_mismatch_error() {
    let mut host = Host::new();
    let rollup_config = host.write_rollup_config("v0");
    // Pre-populate checkpoint with wrong binary path
    host.write_checkpoint(0, "/wrong/path/to/rollup");
    let config = ManagerConfig {
        versions: vec![version(rollup_config, None, Some(100))],
    };
    let result = host.run(&config, enabled());
    let err = result.expect_err("runner should fail due to binary mismatch");
    assert!(
        matches!(err, RunnerError::CheckpointBinaryMismatch { .. }),
        "runner should return CheckpointBinaryMismatch: {err:?}"
    );
}

#[test]
fn test_checkpoint_index_out_of_bounds_error() {
    let mut host = Host::new();
    let rollup_config = host.write_rollup_config("v0");
    // Pre-populate checkpoint with index beyond config versions
    host.write_checkpoint(5, "/bin/mock-rollup"); // Config only has 1 version
    let config = ManagerConfig {
        versions: vec![version(rollup_config, None, Some(100))],
    };
    let result = host.run(&config, enabled());
    let err = result.expect_err("runner should fail due to index out of bounds");
    assert!(
        matches!(
            err,
            RunnerError::CheckpointIndexOutOfBounds { index: 5, count: 1 }
        ),
        "runner should return CheckpointIndexOutOfBounds: {err:?}"
    );
}

#[test]
fn test_checkpoint_written_before_each_version() {
    let mut host = Host::new();
    let rollup_config_v0 = host.write_rollup_config("v0");
    let rollup_config_v1 = host.write_rollup_config("v1");
    let config = ManagerConfig {
        versions: vec![
            version(rollup_config_v0, None, Some(50)),
            version(rollup_config_v1, Some(51), Some(100)),
        ],
    };
    // Run to completion
    host.run(&config, enabled()).expect("runner should succeed");
    // Verify checkpoint points to v1 (last version run)
    let (version_index, binary_path) = &host.checkpoints[&checkpoint_file()];
    assert_eq!(*version_index, 1);
    assert_eq!(*binary_path, mock_rollup_binary());
    assert_eq!(
        host.log,
        vec![
            "checkpoint 0",
            "/bin/mock-rollup --rollup-config-path /tmp/v0.toml --stop-at-rollup-height 50",
            "checkpoint 1",
            "/bin/mock-rollup --rollup-config-path /tmp/v1.toml --start-at-rollup-height 51 \
             --stop-at-rollup-height 100",
        ]
    );
}

#[test]
fn test_checkpoint_restart_from_intermediate_version() {
    let mut host = Host::new();
    let rollup_config_v0 = host.write_rollup_config("v0");
    let rollup_config_v1 = host.write_rollup_config("v1");
    let rollup_config_v2 = host.write_rollup_config("v2");
    let config = ManagerConfig {
        versions: vec![
            version(rollup_config_v0, None, Some(50)),
            version(rollup_config_v1, Some(51), Some(100)),
            version(rollup_config_v2, Some(101), Some(150)),
        ],
    };
    // Simulate: v0 and v1 completed, checkpoint at v2, state at 100
    host.write_state_file(100);
    host.write_checkpoint(2, "/bin/mock-rollup");
    // Run - should skip v0 and v1, run only v2
    host.run(&config, enabled()).expect("runner should succeed");
    // Verify final state
    assert_eq!(host.read_state_height(), 150);
    // Checkpoint should still be at v2
    assert_eq!(host.checkpoints[&checkpoint_file()].0, 2);
}

#[test]
fn checkpoint_paths_are_compared_by_component() {
    let mut host = Host::new();
    let rollup_config = host.write_rollup_config("v0");
    host.write_checkpoint(0, "/bin//./mock-rollup/");
    let config = ManagerConfig {
        versions: vec![version(rollup_config, None, Some(100))],
    };
    host.run(&config, enabled()).expect("the same path");
}

#[test]
fn migration_runs_before_its_version() {
    let mut host = Host::new();
    let v0 = host.write_rollup_config("v0");
    let v1 = host.write_rollup_config("v1");
    let mut second = version(v1, Some(51), Some(100));
    second.migration_path = Some("/bin/migration".to_string());
    let config = ManagerConfig {
        versions: vec![version(v0, None, Some(50)), second],
    };
    host.run(&config, CheckpointConfig::Disabled).unwrap();
    assert_eq!(host.log.len(), 3);
    assert_eq!(host.log[1], "migrate /bin/migration");
    assert!(host.log[2].contains("/tmp/v1.toml"));
}

#[test]
fn failed_migration_fails_the_run() {
    let mut host = Host::new();
    let v0 = host.write_rollup_config("v0");
    let mut only = version(v0, None, Some(50));
    only.migration_path = Some("/bin/broken-migration".to_string());
    let config = ManagerConfig {
        versions: vec![only],
    };
    let result = host.run(&config, CheckpointConfig::Disabled);
    assert_eq!(manager_exit_code(&result), 7);
    assert!(matches!(
        result,
        Err(RunnerError::NonZeroExit { path, .. }) if path == "/bin/broken-migration"
    ));
    assert!(host.launched.is_empty());
}

#[test]
fn height_slack_accepts_an_early_exit() {
    let mut host = Host::new();
    let v0 = host.write_rollup_config_ext("v0", None, Some(92), None);
    let config = ManagerConfig {
        versions: vec![version(v0, None, Some(100))],
    };
    host.run(&config, CheckpointConfig::Disabled)
        .expect("eight blocks are within the default slack");

    let mut host = Host::new();
    let v0 = host.write_rollup_config_ext("v0", None, Some(92), None);
    let config = ManagerConfig {
        versions: vec![version(v0, None, Some(100))],
    };
    let machine = run_with_options(&config, &vec![], 7, CheckpointConfig::Disabled);
    assert!(matches!(
        host.drive(machine),
        Err(RunnerError::PrematureExit {
            current_height: 92,
            stop_height: 100
        })
    ));
}

#[test]
fn extra_arguments_are_passed_to_every_rollup() {
    let mut host = Host::new();
    let v0 = host.write_rollup_config("v0");
    let config = ManagerConfig {
        versions: vec![version(v0, None, Some(5))],
    };
    let extra = vec!["--genesis-path".to_string(), "/g.json".to_string()];
    host.drive(run(&config, &extra, CheckpointConfig::Disabled))
        .unwrap();
    assert_eq!(
        host.log,
        vec![
            "/bin/mock-rollup --rollup-config-path /tmp/v0.toml --stop-at-rollup-height 5 \
             --genesis-path /g.json"
        ]
    );
}

#[test]
fn default_idle_time_is_half_a_second() {
    assert_eq!(DEFAULT_IDLE_TIME_MS, 500);
}

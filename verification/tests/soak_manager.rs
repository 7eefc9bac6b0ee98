use sov_rollup_manager::json::Json;
use sov_rollup_manager::process::ExitStatus;
use sov_rollup_manager::soak_manager::{
    can_coordinate, height_in, height_of, run_soak_coordinator, wait_for_height,
    wait_for_sequencer_ready, HttpReply,
    SoakAction, SoakEvent, SoakMachine, SoakManagerConfig, SoakManagerError, SoakWorkerConfig,
    SETTLE_MILLIS,
};

#[test]
fn resync_config_none_when_extra_blocks_zero() {
    let cfg = SoakManagerConfig::new(
        SoakWorkerConfig {
            num_workers: 5,
            salt: 0,
        },
        vec![("/tmp/soak-v0".to_string(), 100)],
    );
    assert!(cfg.for_resync(0).is_none());
}

#[test]
fn resync_config_uses_last_version_and_increments_salt() {
    let cfg = SoakManagerConfig::new(
        SoakWorkerConfig {
            num_workers: 3,
            salt: 7,
        },
        vec![
            ("/tmp/soak-v0".to_string(), 100),
            ("/tmp/soak-v1".to_string(), 200),
        ],
    );

    let resync = cfg.for_resync(10).expect("resync config");
    assert_eq!(resync.versions.len(), 1);
    assert_eq!(resync.versions[0].0, "/tmp/soak-v1".to_string());
    assert_eq!(resync.versions[0].1, 210);
    assert_eq!(resync.config.salt, 13); // 7 + (3 workers * 2 versions)
}

#[test]
fn resync_of_no_versions_is_none() {
    let cfg = SoakManagerConfig::new(
        SoakWorkerConfig {
            num_workers: 3,
            salt: 7,
        },
        vec![],
    );
    assert!(cfg.can_resync(10));
    assert!(cfg.for_resync(10).is_none());
}

#[test]
fn resync_numbers_that_overflow_are_told() {
    let cfg = SoakManagerConfig::new(
        SoakWorkerConfig {
            num_workers: 2,
            salt: u32::MAX - 1,
        },
        vec![("a".to_string(), 5)],
    );
    assert!(cfg.can_resync(0));
    assert!(!cfg.can_resync(1));
    let cfg = SoakManagerConfig::new(
        SoakWorkerConfig {
            num_workers: 2,
            salt: 0,
        },
        vec![("a".to_string(), u64::MAX)],
    );
    assert!(!cfg.can_resync(1));
}

fn ok(body: &str) -> HttpReply {
    HttpReply::Response {
        status: 200,
        body: body.as_bytes().to_vec(),
    }
}

#[test]
fn sequencer_is_ready_on_success_statuses() {
    assert!(wait_for_sequencer_ready(&ok("null")));
    assert!(!wait_for_sequencer_ready(&HttpReply::Failed));
    for (status, ready) in [(199, false), (200, true), (299, true), (300, false), (503, false)] {
        let reply = HttpReply::Response {
            status,
            body: vec![],
        };
        assert_eq!(wait_for_sequencer_ready(&reply), ready);
    }
}

#[test]
fn height_is_the_first_of_the_pair() {
    assert!(wait_for_height(&ok(r#"{"value":[7,3]}"#), 7));
    assert!(wait_for_height(&ok(r#"{"value":[8,3]}"#), 7));
    assert!(!wait_for_height(&ok(r#"{"value":[6,30]}"#), 7));
    assert!(wait_for_height(&ok(r#"{"value":[0]}"#), 0));
}

#[test]
fn height_that_cannot_be_read_is_not_reached() {
    for body in [
        "",
        "null",
        "[1,2]",
        "{}",
        r#"{"value":5}"#,
        r#"{"value":[]}"#,
        r#"{"value":["5"]}"#,
        r#"{"value":[-5]}"#,
        r#"{"value":[5.5]}"#,
        r#"{"other":[5]}"#,
    ] {
        assert!(!wait_for_height(&ok(body), 0), "{body}");
    }
    assert!(!wait_for_height(&HttpReply::Failed, 0));
}

fn two_versions(num_workers: u32, salt: u32) -> SoakManagerConfig {
    SoakManagerConfig::new(
        SoakWorkerConfig { num_workers, salt },
        vec![("soak.sh".to_string(), 1), ("soak.sh".to_string(), 1)],
    )
}

/// A host whose API says that the sequencer is ready and the height is 1, and whose workers exit
/// when asked to.
fn obliging_host(mut machine: SoakMachine) -> (Vec<String>, Result<(), SoakManagerError>) {
    let mut log = Vec::new();
    loop {
        let action = machine.action();
        let event = match &action {
            SoakAction::Get { url } if url.ends_with("/sequencer/ready") => {
                SoakEvent::Reply(ok("null"))
            }
            SoakAction::Get { .. } => SoakEvent::Reply(ok(r#"{"value":[1,0]}"#)),
            SoakAction::Pause { .. } => SoakEvent::Elapsed,
            SoakAction::Start { command } => {
                log.push(format!("start {} {}", command.program, command.args.join(" ")));
                SoakEvent::Started(Ok(()))
            }
            SoakAction::CheckExit => SoakEvent::StillRunning,
            SoakAction::Terminate => {
                log.push("terminate".to_string());
                SoakEvent::Signaled
            }
            SoakAction::AwaitExit { timeout_millis } => {
                assert_eq!(*timeout_millis, 1000);
                SoakEvent::Exited(ExitStatus::Exited(0))
            }
            SoakAction::Kill | SoakAction::Reap => unreachable!(),
            SoakAction::AwaitShutdown { limit_millis } => {
                log.push(format!("settle {limit_millis:?}"));
                SoakEvent::Elapsed
            }
            SoakAction::Done => {
                return (log, machine.finish().map_err(|_| ()).unwrap());
            }
        };
        machine = machine.step(event);
    }
}

#[test]
fn coordinator_runs_end_to_end_with_mock_api() {
    let cfg = two_versions(2, 5);
    assert!(can_coordinate(&cfg));
    let machine =
        run_soak_coordinator(cfg, "http://127.0.0.1:9999".to_string(), Some(SETTLE_MILLIS));
    let (log, result) = obliging_host(machine);
    assert!(result.is_ok(), "coordinator should succeed: {result:?}");
    assert_eq!(
        log,
        vec![
            "start soak.sh --api-url http://127.0.0.1:9999 --num-workers 2 --salt 5",
            "terminate",
            "start soak.sh --api-url http://127.0.0.1:9999 --num-workers 2 --salt 7",
            "terminate",
            "settle Some(1000)",
        ]
    );
}

#[test]
fn coordinator_honors_early_shutdown() {
    let cfg = SoakManagerConfig::new(
        SoakWorkerConfig {
            num_workers: 1,
            salt: 0,
        },
        vec![("/tmp/nonexistent".to_string(), 100)],
    );
    let machine = run_soak_coordinator(cfg, "http://127.0.0.1:1".to_string(), Some(SETTLE_MILLIS));
    assert!(matches!(
        machine.action(),
        SoakAction::Get { url } if url == "http://127.0.0.1:1/sequencer/ready"
    ));
    let result = machine.step(SoakEvent::ShutDown).finish().unwrap();
    assert!(result.is_ok(), "shutdown should short-circuit coordinator");
}

#[test]
fn coordinator_without_versions_settles_at_once() {
    let cfg = SoakManagerConfig::new(
        SoakWorkerConfig {
            num_workers: 1,
            salt: u32::MAX,
        },
        vec![],
    );
    assert!(can_coordinate(&cfg));
    let machine = run_soak_coordinator(cfg, "u".to_string(), None);
    assert!(matches!(
        machine.action(),
        SoakAction::AwaitShutdown { limit_millis: None }
    ));
    assert!(machine.step(SoakEvent::ShutDown).finish().unwrap().is_ok());
}

#[test]
fn salts_that_overflow_are_told() {
    assert!(can_coordinate(&two_versions(1, u32::MAX - 2)));
    assert!(!can_coordinate(&two_versions(1, u32::MAX - 1)));
    assert!(!can_coordinate(&two_versions(u32::MAX, 0)));
}

fn running() -> SoakMachine {
    run_soak_coordinator(two_versions(1, 0), "u".to_string(), Some(SETTLE_MILLIS))
        .step(SoakEvent::Reply(ok("null")))
        .step(SoakEvent::Started(Ok(())))
}

#[test]
fn workers_that_cannot_start_fail_the_soak_test() {
    let machine = run_soak_coordinator(two_versions(1, 0), "u".to_string(), Some(SETTLE_MILLIS))
        .step(SoakEvent::Reply(ok("null")))
        .step(SoakEvent::Started(Err("no such file".to_string())));
    assert!(matches!(
        machine.finish(),
        Ok(Err(SoakManagerError::SoakTestStartFailed(m))) if m == "no such file"
    ));
}

#[test]
fn workers_that_failed_by_themselves_fail_the_soak_test() {
    let stopping = running().step(SoakEvent::Reply(ok(r#"{"value":[1,0]}"#)));
    assert!(matches!(stopping.action(), SoakAction::CheckExit));
    let machine = stopping.step(SoakEvent::Exited(ExitStatus::Exited(3)));
    assert!(matches!(
        machine.finish(),
        Ok(Err(SoakManagerError::SoakTestFailed { exit_code: 3 }))
    ));
    let machine = running()
        .step(SoakEvent::ShutDown)
        .step(SoakEvent::Exited(ExitStatus::Signaled(9)));
    assert!(matches!(
        machine.finish(),
        Ok(Err(SoakManagerError::SoakTestFailed { exit_code: -1 }))
    ));
}

#[test]
fn workers_that_do_not_terminate_are_killed() {
    let machine = running()
        .step(SoakEvent::ShutDown)
        .step(SoakEvent::WaitFailed);
    assert!(matches!(machine.action(), SoakAction::Terminate));
    let machine = machine.step(SoakEvent::Signaled).step(SoakEvent::TimedOut);
    assert!(matches!(machine.action(), SoakAction::Kill));
    let machine = machine.step(SoakEvent::Signaled);
    assert!(matches!(machine.action(), SoakAction::Reap));
    let machine = machine.step(SoakEvent::Exited(ExitStatus::Signaled(9)));
    assert!(machine.finish().unwrap().is_ok());
}

#[test]
fn a_height_below_the_stop_height_is_polled_again() {
    let machine = running().step(SoakEvent::Reply(ok(r#"{"value":[0,0]}"#)));
    assert!(matches!(machine.action(), SoakAction::Pause { millis: 100 }));
    let machine = machine.step(SoakEvent::Elapsed);
    assert!(matches!(
        machine.action(),
        SoakAction::Get { url } if url == "u/modules/chain-state/state/current-heights/"
    ));
}

#[test]
fn a_sequencer_that_is_not_ready_is_asked_again() {
    let machine = run_soak_coordinator(two_versions(1, 0), "u".to_string(), Some(SETTLE_MILLIS))
        .step(SoakEvent::Reply(HttpReply::Failed));
    assert!(matches!(machine.action(), SoakAction::Pause { millis: 50 }));
    let machine = machine.step(SoakEvent::Elapsed);
    assert!(matches!(machine.action(), SoakAction::Get { .. }));
}

#[test]
fn heights_decide_when_workers_stop() {
    assert!(matches!(running().take_height(Some(1)).action(), SoakAction::CheckExit));
    assert!(matches!(running().take_height(Some(2)).action(), SoakAction::CheckExit));
    assert!(matches!(running().take_height(Some(0)).action(), SoakAction::Pause { .. }));
    assert!(matches!(running().take_height(None).action(), SoakAction::Pause { .. }));
}

fn pair(first: Json, second: Json) -> Json {
    Json::Object(vec![
        ("other".to_string(), Json::Unsigned(1)),
        ("value".to_string(), Json::Array(vec![first, second])),
    ])
}

#[test]
fn the_height_stands_before_the_slot_number() {
    assert_eq!(height_of(&pair(Json::Unsigned(7), Json::Unsigned(9))), Some(7));
    assert_eq!(height_of(&pair(Json::Other, Json::Unsigned(9))), None);
    assert_eq!(height_of(&Json::Unsigned(7)), None);
    assert_eq!(height_of(&Json::Array(vec![Json::Unsigned(7)])), None);
    let empty = Json::Object(vec![("value".to_string(), Json::Array(vec![]))]);
    assert_eq!(height_of(&empty), None);
    let plain = Json::Object(vec![("value".to_string(), Json::Unsigned(7))]);
    assert_eq!(height_of(&plain), None);
}

#[test]
fn heights_are_found_in_bodies() {
    assert_eq!(height_in(&ok(r#"{"value":[7,9]}"#)), Some(7));
    assert_eq!(
        height_in(&ok(r#" {"a":{"value":[1]},"value":[18446744073709551615,{"b":[null,"x"]}]} "#)),
        Some(u64::MAX)
    );
    for odd in [
        r#"{"value":[-7,9]}"#,
        r#"{"value":[7.0,9]}"#,
        r#"{"value":["7",9]}"#,
        r#"{"value":[[7],9]}"#,
        r#"{"value":[true]}"#,
        r#"{"Value":[7,9]}"#,
        r#"{"value":[7,9]"#,
        "7",
        "",
    ] {
        assert_eq!(height_in(&ok(odd)), None, "{odd}");
    }
    // The last of two members of the same name counts.
    assert_eq!(height_in(&ok(r#"{"value":[1],"value":[2]}"#)), Some(2));
}

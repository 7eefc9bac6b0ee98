use sov_rollup_manager::artifact_builder::{
    prepare_artifacts, BuildRequest, BuildSpec, BuildTarget, BuildTargets, BuilderError,
    RollupBuilder, VersionBuildSpec,
};
use sov_rollup_manager::journal::{HostCall, HostReply, Journal, Stop};
use sov_rollup_manager::process::{CommandOutcome, CommandOutput, ExitStatus};

#[test]
fn build_target_cache_name_defaults_to_bin() {
    let target = BuildTarget {
        package: None,
        bin: "example-bin".to_string(),
        cache_name: None,
        no_default_features: false,
        features: vec![],
        extra_args: vec![],
    };
    assert_eq!(target.cache_name(), "example-bin");
}

#[test]
fn prepare_artifacts_empty_versions_is_supported() {
    let spec = BuildSpec {
        repo_url: None,
        targets: BuildTargets::default(),
        versions: vec![],
    };
    let req = BuildRequest {
        cache_dir: "/tmp/nonexistent-cache-dir".to_string(),
        build_soak_binaries: false,
        build_mock_da_binary: false,
    };

    let prepared = prepare_artifacts(&spec, &req, &mut Journal::new()).expect("prepare should succeed");
    assert!(prepared.versions.is_empty());
    assert!(prepared.mock_da_binary.is_none());
}

#[test]
fn build_targets_default_is_rollup_only() {
    let targets = BuildTargets::default();
    assert_eq!(targets.rollup.bin, "rollup");
    assert!(targets.soak.is_none());
    assert!(targets.mock_da.is_none());
}

#[test]
fn build_targets_upgrade_simulator_defaults_enable_all_targets() {
    let targets = BuildTargets::upgrade_simulator_defaults();
    assert_eq!(targets.rollup.bin, "rollup");
    assert_eq!(
        targets.soak.as_ref().map(|target| target.bin.as_str()),
        Some("rollup-starter-soak-test")
    );
    assert_eq!(
        targets.mock_da.as_ref().map(|target| target.bin.as_str()),
        Some("mock-da-server")
    );
}

#[test]
fn with_targets_disables_soak_when_target_missing() {
    let builder = RollupBuilder::with_targets(
        "/cache".to_string(),
        "/repo".to_string(),
        BuildTargets::default(),
    );

    let err = builder
        .get_soak_binary("abc", &mut Journal::new())
        .expect_err("soak should be disabled");
    assert!(matches!(err, Stop::Fail(BuilderError::TargetDisabled(name)) if name == "soak"));
    let err = builder
        .get_mock_da_binary("abc", &mut Journal::new())
        .expect_err("mock-da should be disabled");
    assert!(matches!(err, Stop::Fail(BuilderError::TargetDisabled(name)) if name == "mock-da-server"));
}

/// A host with files that exist, whose commands succeed and leave a binary behind.
struct Host {
    files: Vec<String>,
    log: Vec<String>,
}

fn finished(code: i32, stderr: &str) -> HostReply {
    HostReply::Command(CommandOutcome::Finished(CommandOutput {
        status: ExitStatus::Exited(code),
        stdout: String::new(),
        stderr: stderr.to_string(),
    }))
}

impl Host {
    fn new() -> Self {
        Host {
            files: vec![],
            log: vec![],
        }
    }

    fn reply(&mut self, call: HostCall) -> HostReply {
        match call {
            HostCall::PathExists { path } => HostReply::Flag(self.files.contains(&path)),
            HostCall::CreateDirAll { path } => {
                self.log.push(format!("mkdir {path}"));
                HostReply::Status(Ok(()))
            }
            HostCall::CopyFile { from, to } => {
                self.log.push(format!("cp {from} {to}"));
                self.files.push(to);
                HostReply::Status(Ok(()))
            }
            HostCall::Run { command } => {
                let line = format!("{} {}", command.program, command.args.join(" "));
                if line.starts_with("git clone") {
                    self.files.push(command.args[2].clone());
                }
                if let Some(bin) = command.args.iter().position(|a| a == "--bin") {
                    let dir = command.current_dir.clone().unwrap();
                    self.files
                        .push(format!("{dir}/target/release/{}", command.args[bin + 1]));
                }
                self.log.push(format!("{line} @ {:?}", command.current_dir));
                finished(0, "")
            }
            other => panic!("unexpected {other:?}"),
        }
    }

    fn prepare(&mut self, spec: &BuildSpec, req: &BuildRequest) -> Vec<(String, Option<String>)> {
        let mut journal = Journal::new();
        loop {
            match prepare_artifacts(spec, req, &mut journal) {
                Ok(prepared) => {
                    let mut paths: Vec<(String, Option<String>)> = prepared
                        .versions
                        .into_iter()
                        .map(|v| (v.rollup_binary, v.soak_binary))
                        .collect();
                    if let Some(mock_da) = prepared.mock_da_binary {
                        paths.push((mock_da, None));
                    }
                    return paths;
                }
                Err(Stop::Ask(call)) => {
                    let reply = self.reply(call);
                    journal.record(reply);
                }
                Err(Stop::Fail(e)) => panic!("{e:?}"),
            }
        }
    }
}

fn spec(targets: BuildTargets, build_soak: bool) -> BuildSpec {
    BuildSpec {
        repo_url: Some("/repo-url".to_string()),
        targets,
        versions: vec![VersionBuildSpec {
            commit: "abc".to_string(),
            build_soak,
        }],
    }
}

#[test]
fn prepare_artifacts_without_mock_da_skips_mock_da_build() {
    let req = BuildRequest {
        cache_dir: "/cache".to_string(),
        build_soak_binaries: false,
        build_mock_da_binary: false,
    };
    let mut host = Host::new();
    let prepared = host.prepare(&spec(BuildTargets::default(), false), &req);
    assert_eq!(prepared.len(), 1);
    assert!(host.files.contains(&prepared[0].0));
    assert!(prepared[0].1.is_none());
    assert_eq!(
        host.log,
        vec![
            "mkdir /cache",
            "git clone /repo-url /cache/repo @ None",
            "git checkout abc @ Some(\"/cache/repo\")",
            "cargo build --release --bin rollup --no-default-features --features \
             acceptance-testing,mock_da_external,mock_zkvm @ Some(\"/cache/repo\")",
            "mkdir /cache/binaries/abc",
            "cp /cache/repo/target/release/rollup /cache/binaries/abc/sov-rollup-starter",
        ]
    );
}

#[test]
fn prepare_artifacts_builds_rollup_soak_and_mock_da() {
    let req = BuildRequest {
        cache_dir: "/cache".to_string(),
        build_soak_binaries: true,
        build_mock_da_binary: true,
    };
    let mut targets = BuildTargets::upgrade_simulator_defaults();
    targets.mock_da = Some(BuildTarget {
        package: None,
        bin: "mock-da-server".to_string(),
        cache_name: Some("mock-da-server".to_string()),
        no_default_features: true,
        features: vec!["mock_da_external".to_string(), "mock_zkvm".to_string()],
        extra_args: vec![],
    });
    let spec = spec(targets, true);
    let mut host = Host::new();
    let prepared = host.prepare(&spec, &req);
    assert_eq!(
        prepared,
        vec![
            (
                "/cache/binaries/abc/sov-rollup-starter".to_string(),
                Some("/cache/binaries/abc/rollup-starter-soak-test".to_string()),
            ),
            ("/cache/binaries/abc/mock-da-server".to_string(), None),
        ]
    );
    assert!(host.log.iter().any(|l| l.starts_with(
        "cargo build --release -p rollup-starter-soak-test --bin rollup-starter-soak-test @"
    )));
    assert_eq!(host.log.iter().filter(|l| l.starts_with("git clone")).count(), 1);
    assert_eq!(host.log.iter().filter(|l| l.starts_with("git fetch --all")).count(), 2);

    for (path, soak) in &prepared {
        assert!(host.files.contains(path));
        assert!(soak.iter().all(|p| host.files.contains(p)));
    }

    // Second call should reuse cached artifacts and produce same paths.
    host.log.clear();
    assert_eq!(host.prepare(&spec, &req), prepared);
    assert!(host.log.is_empty());
}

fn builder() -> RollupBuilder {
    RollupBuilder::new("/cache".to_string())
}

fn fails_with(replies: Vec<HostReply>) -> BuilderError {
    let mut journal = Journal { replies, next: 0 };
    match builder().get_binary("abc", &mut journal) {
        Err(Stop::Fail(e)) => e,
        other => panic!("{other:?}"),
    }
}

fn not_started() -> HostReply {
    HostReply::Command(CommandOutcome::NotStarted("no git".to_string()))
}

fn flag(b: bool) -> HostReply {
    HostReply::Flag(b)
}

fn done() -> HostReply {
    HostReply::Status(Ok(()))
}

fn failed(m: &str) -> HostReply {
    HostReply::Status(Err(m.to_string()))
}

#[test]
fn every_step_of_a_build_reports_its_failure() {
    assert!(matches!(
        fails_with(vec![flag(false), flag(false), failed("disk full")]),
        BuilderError::CreateCacheDir(m) if m == "disk full"
    ));
    assert!(matches!(
        fails_with(vec![flag(false), flag(false), done(), not_started()]),
        BuilderError::GitClone(m) if m == "no git"
    ));
    assert!(matches!(
        fails_with(vec![flag(false), flag(true), finished(128, "offline")]),
        BuilderError::GitFetch(m) if m == "offline"
    ));
    assert!(matches!(
        fails_with(vec![flag(false), flag(true), finished(0, ""), finished(1, "unknown")]),
        BuilderError::GitCheckout { commit, message } if commit == "abc" && message == "unknown"
    ));
    let ready = || vec![flag(false), flag(true), finished(0, ""), finished(0, "")];
    let with = |more: Vec<HostReply>| {
        let mut replies = ready();
        replies.extend(more);
        replies
    };
    assert!(matches!(
        fails_with(with(vec![finished(101, "error[E0000]")])),
        BuilderError::CargoBuild(m) if m == "error[E0000]"
    ));
    assert!(matches!(
        fails_with(with(vec![finished(0, ""), flag(false)])),
        BuilderError::BinaryNotFound(p) if p == "/cache/repo/target/release/rollup"
    ));
    assert!(matches!(
        fails_with(with(vec![finished(0, ""), flag(true), failed("mkdir")])),
        BuilderError::CopyBinary(m) if m == "mkdir"
    ));
    assert!(matches!(
        fails_with(with(vec![finished(0, ""), flag(true), done(), failed("cp")])),
        BuilderError::CopyBinary(m) if m == "cp"
    ));
}

#[test]
fn a_cached_binary_needs_one_question() {
    let mut journal = Journal {
        replies: vec![flag(true)],
        next: 0,
    };
    let path = builder().get_binary("abc", &mut journal).unwrap();
    assert_eq!(path, "/cache/binaries/abc/sov-rollup-starter");
    assert_eq!(journal.next, 1);
}

#[test]
fn the_default_repository_is_the_rollup_starter() {
    let mut journal = Journal {
        replies: vec![flag(false), flag(false), done()],
        next: 0,
    };
    match builder().get_binary("abc", &mut journal) {
        Err(Stop::Ask(HostCall::Run { command })) => {
            assert_eq!(
                command.args,
                vec![
                    "clone",
                    "https://github.com/Sovereign-Labs/rollup-starter",
                    "/cache/repo"
                ]
            );
        }
        other => panic!("{other:?}"),
    }
}

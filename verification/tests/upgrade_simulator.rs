//! The upgrade simulator on a host that keeps files in memory.

use std::collections::BTreeMap;

use sov_rollup_manager::config::{FileRead, RollupVersion};
use sov_rollup_manager::journal::{
    ConfigWrite, HostCall, HostReply, Journal, NodeExit, SoakEnd, Stop,
};
use sov_rollup_manager::process::{CommandOutcome, CommandOutput, CommandSpec, ExitStatus};
use sov_rollup_manager::runner::RunnerError;
use sov_rollup_manager::soak_manager::SoakManagerError;
use sov_rollup_manager::test_utils::{
    init_local_rollup_repo, init_manager_compatible_rollup_repo, run_ok, write_file,
    write_rollup_config, FixtureError, LocalRollupRepo,
};
use sov_rollup_manager::upgrade_simulator::docker::{
    generate_password, DockerError, PostgresDockerContainer,
};
use sov_rollup_manager::upgrade_simulator::node_config::{
    self, detect_node_layout, validate_node_layout, RollupFields,
};
use sov_rollup_manager::upgrade_simulator::node_runner::{run_nodes, NodeVersions, ProcessRegistry};
use sov_rollup_manager::upgrade_simulator::run::{build_resync_versions, interpolate_config};
use sov_rollup_manager::upgrade_simulator::soak::{
    coordinated_result, ManagerEnd, SoakManagerConfig,
};
use sov_rollup_manager::upgrade_simulator::test_case::{
    self, default_extra_resync_blocks, default_num_workers, discover_version_migration,
    TestCaseFile,
};
use sov_rollup_manager::upgrade_simulator::{
    load_test_case, run_test_case, RollupBuilder, SoakTestingConfig, TestCase, TestCaseError,
    VersionSpec, DEFAULT_REPO_URL,
};

#[test]
fn node_config_test_node_type_display() {
    assert_eq!(node_config::NodeType::Master.to_string(), "master");
    assert_eq!(node_config::NodeType::Replica(0).to_string(), "replica_0");
    assert_eq!(node_config::NodeType::Replica(5).to_string(), "replica_5");
}

#[test]
fn test_case_test_node_type_display() {
    assert_eq!(test_case::NodeType::Master.to_string(), "master");
    assert_eq!(test_case::NodeType::Replica(0).to_string(), "replica_0");
    assert_eq!(test_case::NodeType::Replica(5).to_string(), "replica_5");
}

struct Host {
    files: BTreeMap<String, String>,
    dirs: Vec<String>,
    log: Vec<String>,
    running: Vec<String>,
    next_pid: u32,
    /// A node that exits with an error, and in which of the runs.
    failing: Option<(String, usize)>,
    /// A node that cannot be started.
    unstartable: Option<String>,
    runs: usize,
    soak_end: Option<SoakEnd>,
    /// The number of `NextExit` calls until the user interrupts.
    interrupt_after: Option<usize>,
    exits_waited: usize,
}

fn finished(code: i32, stdout: &str, stderr: &str) -> HostReply {
    HostReply::Command(CommandOutcome::Finished(CommandOutput {
        status: ExitStatus::Exited(code),
        stdout: stdout.to_string(),
        stderr: stderr.to_string(),
    }))
}

fn ok() -> HostReply {
    HostReply::Status(Ok(()))
}

fn number(v: &toml::Value, key: &str) -> Option<u64> {
    v.get(key).and_then(|n| n.as_integer()).map(|n| n as u64)
}

fn parse_test_case(text: &str) -> FileRead<TestCaseFile> {
    let value: toml::Value = match toml::from_str(text) {
        Ok(v) => v,
        Err(e) => return FileRead::Malformed(e.to_string()),
    };
    let versions = value["versions"]
        .as_array()
        .expect("versions")
        .iter()
        .map(|v| VersionSpec {
            commit: v["commit"].as_str().expect("commit").to_string(),
            start_height: number(v, "start_height"),
            stop_height: number(v, "stop_height").expect("stop height"),
        })
        .collect();
    FileRead::Parsed(TestCaseFile {
        repo_url: value
            .get("repo_url")
            .map(|v| v.as_str().expect("url").to_string()),
        extra_blocks_after_resync: number(&value, "extra_blocks_after_resync")
            .unwrap_or(default_extra_resync_blocks()),
        soak_testing: value.get("soak_testing").map(|s| SoakTestingConfig {
            num_workers: number(s, "num_workers").map_or(default_num_workers(), |n| n as u32),
            salt: number(s, "salt").unwrap_or(0) as u32,
        }),
        versions,
    })
}

fn parse_rollup_config(text: &str) -> FileRead<RollupFields> {
    match toml::from_str::<toml::Value>(text) {
        Ok(value) => FileRead::Parsed(RollupFields {
            http_port: number(&value["runner"]["http_config"], "bind_port").expect("port") as u16,
            storage_path: value["storage"]["path"].as_str().expect("path").to_string(),
        }),
        Err(e) => FileRead::Malformed(e.to_string()),
    }
}

impl Host {
    fn new() -> Self {
        Host {
            files: BTreeMap::new(),
            dirs: vec![],
            log: vec![],
            running: vec![],
            next_pid: 100,
            failing: None,
            unstartable: None,
            runs: 0,
            soak_end: None,
            interrupt_after: None,
            exits_waited: 0,
        }
    }

    fn has(&self, path: &str) -> bool {
        let inside = format!("{path}/");
        self.files.contains_key(path)
            || self.dirs.iter().any(|d| d == path)
            || self.files.keys().any(|f| f.starts_with(&inside))
    }

    fn run(&mut self, command: CommandSpec) -> HostReply {
        let line = format!("{} {}", command.program, command.args.join(" "));
        self.log.push(line.clone());
        if line.starts_with("git clone") {
            self.dirs.push(command.args[2].clone());
        }
        if line == "git rev-parse HEAD" {
            return finished(0, "c0ffee\n", "");
        }
        if line.starts_with("cargo build") {
            let dir = command.current_dir.clone().unwrap();
            for bin in ["rollup", "rollup-starter-soak-test", "mock-da-server"] {
                self.files
                    .insert(format!("{dir}/target/release/{bin}"), "binary".to_string());
            }
        }
        finished(0, "", "")
    }

    fn reply(&mut self, call: HostCall) -> HostReply {
        match call {
            HostCall::PathExists { path } => HostReply::Flag(self.has(&path)),
            HostCall::IsFile { path } => HostReply::Flag(self.files.contains_key(&path)),
            HostCall::CreateDirAll { path } => {
                self.dirs.push(path);
                ok()
            }
            HostCall::RemoveDirAll { path } => {
                self.log.push(format!("rmdir {path}"));
                let inside = format!("{path}/");
                self.files.retain(|f, _| !f.starts_with(&inside));
                self.dirs.retain(|d| *d != path);
                ok()
            }
            HostCall::CopyFile { from, to } => {
                let content = self.files[&from].clone();
                self.files.insert(to, content);
                ok()
            }
            HostCall::Canonicalize { path } => HostReply::Text(if self.has(&path) {
                Ok(path)
            } else {
                Err("no such file".to_string())
            }),
            HostCall::ReadText { path } => HostReply::Text(
                self.files
                    .get(&path)
                    .cloned()
                    .ok_or("no such file".to_string()),
            ),
            HostCall::WriteText { path, content } => {
                self.files.insert(path, content);
                ok()
            }
            HostCall::ReadRollupConfig { path } => {
                HostReply::RollupFields(match self.files.get(&path) {
                    Some(text) => parse_rollup_config(text),
                    None => FileRead::Unreadable("no such file".to_string()),
                })
            }
            HostCall::ReadTestCase { path } => HostReply::TestCase(match self.files.get(&path) {
                Some(text) => parse_test_case(text),
                None => FileRead::Unreadable("no such file".to_string()),
            }),
            HostCall::Run { command } => self.run(command),
            HostCall::WriteManagerConfig { path, config } => {
                let heights: Vec<String> = config
                    .versions
                    .iter()
                    .map(|v| format!("{:?}..{:?}", v.start_height, v.stop_height))
                    .collect();
                self.log.push(format!("manager {path} {}", heights.join(" ")));
                HostReply::ConfigWrite(ConfigWrite::Written)
            }
            HostCall::Spawn { name, .. } if self.unstartable.as_ref() == Some(&name) => {
                HostReply::Spawned(Err("no such file".to_string()))
            }
            HostCall::Spawn { name, command } => {
                self.log
                    .push(format!("spawn {name}: {} {}", command.program, command.args.join(" ")));
                if name != "mock-da" {
                    if self.running.is_empty() {
                        self.runs += 1;
                    }
                    self.running.push(name);
                }
                self.next_pid += 1;
                HostReply::Spawned(Ok(Some(self.next_pid)))
            }
            HostCall::NextExit => {
                self.exits_waited += 1;
                if self.interrupt_after == Some(self.exits_waited) {
                    return HostReply::Interrupted;
                }
                HostReply::NodeExit(if self.running.is_empty() {
                    NodeExit::NoneLeft
                } else {
                    let name = self.running.remove(0);
                    let fails = matches!(
                        &self.failing,
                        Some((n, run)) if *n == name && *run == self.runs
                    );
                    NodeExit::Exited {
                        name,
                        outcome: Ok(ExitStatus::Exited(if fails { 3 } else { 0 })),
                    }
                })
            }
            HostCall::Terminate { pids } => {
                self.log.push(format!("terminate {pids:?}"));
                HostReply::Done
            }
            HostCall::AbortNodes => {
                self.log.push(format!("abort {:?}", self.running));
                self.running.clear();
                HostReply::Done
            }
            HostCall::StartSoak { soak, api_url } => {
                self.log.push(format!(
                    "soak {}+{} {:?} {api_url}",
                    soak.config.salt, soak.config.num_workers, soak.versions
                ));
                HostReply::Done
            }
            HostCall::NotifySoak => {
                self.log.push("notify soak".to_string());
                HostReply::Done
            }
            HostCall::AwaitSoak { timeout_millis } => {
                assert_eq!(timeout_millis, 5000);
                HostReply::SoakEnd(self.soak_end.clone().unwrap_or(SoakEnd::Completed))
            }
            HostCall::BuildManager => HostReply::Text(Ok("/bin/manager".to_string())),
            HostCall::StartClock => HostReply::Done,
            HostCall::Elapsed => HostReply::Millis(0),
            HostCall::Sleep { millis } => {
                self.log.push(format!("sleep {millis}"));
                HostReply::Done
            }
            other => panic!("unexpected {other:?}"),
        }
    }

    fn drive<T, E>(
        &mut self,
        mut procedure: impl FnMut(&mut Journal) -> Result<T, Stop<E>>,
    ) -> Result<T, E> {
        let mut journal = Journal::new();
        loop {
            match procedure(&mut journal) {
                Ok(v) => return Ok(v),
                Err(Stop::Fail(e)) => return Err(e),
                Err(Stop::Ask(call)) => {
                    let reply = self.reply(call);
                    journal.record(reply);
                }
            }
        }
    }

    fn write_file(&mut self, path: &str, content: &str) {
        self.drive(|j| write_file(path, content, j)).expect("write file");
    }

    fn write_rollup_config(&mut self, path: &str, storage_path: &str, bind_port: u16) {
        self.drive(|j| write_rollup_config(path, storage_path, bind_port, j))
            .expect("write config");
    }

    fn local_repo(&mut self) -> LocalRollupRepo {
        self.drive(|j| init_local_rollup_repo("/repo".to_string(), j))
            .expect("repo")
    }

    fn load(&mut self, dir: &str) -> Result<TestCase, TestCaseError> {
        let dir = dir.to_string();
        self.drive(|j| load_test_case(&dir, j))
    }

    fn logged(&self, start: &str) -> Vec<&String> {
        self.log.iter().filter(|l| l.starts_with(start)).collect()
    }
}

#[test]
fn discover_version_migration_none_when_absent() {
    let mut host = Host::new();
    let migration = host
        .drive(|j| discover_version_migration("/tmp/case", 0, j))
        .expect("discovery should succeed");
    assert!(migration.is_none());
}

#[test]
fn discover_version_migration_prefers_migration_file() {
    let mut host = Host::new();
    host.write_file("/tmp/case/migration", "#!/bin/sh\nexit 0\n");
    let detected = host
        .drive(|j| discover_version_migration("/tmp/case", 0, j))
        .expect("discovery should succeed")
        .expect("migration should be detected");
    assert_eq!(detected, "/tmp/case/migration");
}

#[test]
fn discover_version_migration_supports_migration_sh() {
    let mut host = Host::new();
    host.write_file("/tmp/case/migration.sh", "#!/bin/sh\nexit 0\n");
    let detected = host
        .drive(|j| discover_version_migration("/tmp/case", 1, j))
        .expect("discovery should succeed")
        .expect("migration should be detected");
    assert_eq!(detected, "/tmp/case/migration.sh");
}

#[test]
fn discover_version_migration_ignores_migration_directory() {
    let mut host = Host::new();
    host.dirs.push("/tmp/case/migration".to_string());
    let detected = host
        .drive(|j| discover_version_migration("/tmp/case", 2, j))
        .expect("discovery should succeed");
    assert!(detected.is_none());
}

#[test]
fn discover_version_migration_ignores_migration_sh_directory() {
    let mut host = Host::new();
    host.dirs.push("/tmp/case/migration.sh".to_string());
    let detected = host
        .drive(|j| discover_version_migration("/tmp/case", 2, j))
        .expect("discovery should succeed");
    assert!(detected.is_none());
}

#[test]
fn discover_version_migration_errors_if_both_files_exist() {
    let mut host = Host::new();
    host.write_file("/tmp/case/migration", "#!/bin/sh\nexit 0\n");
    host.write_file("/tmp/case/migration.sh", "#!/bin/sh\nexit 0\n");
    let err = host
        .drive(|j| discover_version_migration("/tmp/case", 3, j))
        .expect_err("should fail");
    assert!(matches!(
        err,
        TestCaseError::AmbiguousMigrationFile { version: 3, .. }
    ));
}

#[test]
fn upgrade_simulator_preparation_pipeline_builds_and_resolves_versions() {
    let mut host = Host::new();
    let repo = host.local_repo();
    host.write_file("/tests/local-test/genesis.json", "{}");
    host.write_rollup_config("/tests/local-test/v0/config.toml", "node-data", 12345);
    host.write_rollup_config("/tests/local-test/v1/config.toml", "node-data", 12345);
    let description = format!(
        r#"repo_url = "{}"

[soak_testing]
num_workers = 2
salt = 7

[[versions]]
commit = "{}"
stop_height = 10

[[versions]]
commit = "{}"
start_height = 11
stop_height = 20
"#,
        repo.repo_url(),
        &repo.commit,
        &repo.commit,
    );
    host.write_file("/tests/local-test/test_case.toml", &description);

    let test_case = host.load("/tests/local-test").expect("load test case");
    assert_eq!(test_case.name, "local-test");
    assert_eq!(test_case.versions.len(), 2);
    assert_eq!(test_case.nodes.len(), 1);

    let builder = RollupBuilder::with_repo_url("/cache".to_string(), repo.repo_url());

    let node_versions = host
        .drive(|j| test_case.build_node_versions(&builder, j))
        .expect("build node versions");
    assert_eq!(node_versions.nodes.len(), 1);
    assert_eq!(node_versions.nodes[0].len(), 2);
    assert!(host.has(&node_versions.nodes[0][0].rollup_binary));
    assert!(host.has(&node_versions.nodes[0][1].rollup_binary));
    assert_eq!(
        node_versions.nodes[0][0].rollup_binary,
        "/cache/binaries/c0ffee/sov-rollup-starter"
    );
    assert_eq!(node_versions.nodes[0][1].start_height, Some(11));
    assert_eq!(node_versions.nodes[0][1].stop_height, Some(20));

    let soak_config = host
        .drive(|j| test_case.build_soak_config(&builder, j))
        .expect("build soak config")
        .expect("soak config should be enabled");
    assert_eq!(soak_config.versions.len(), 2);
    assert!(host.has(&soak_config.versions[0].0));
    assert!(host.has(&soak_config.versions[1].0));
    assert_eq!(soak_config.versions[1].1, 20);

    // Optional mock-da build path is available too.
    let mock_da_binary = host
        .drive(|j| builder.get_mock_da_binary(&repo.commit, j))
        .expect("build mock-da binary");
    assert!(host.has(&mock_da_binary));
}

fn multinode(host: &mut Host) -> LocalRollupRepo {
    let repo = host.local_repo();
    let dir = "/tests/multinode-test";
    host.write_file(&format!("{dir}/genesis.json"), "{}");
    host.write_rollup_config(&format!("{dir}/v0/config_master.toml"), "master-data", 12345);
    host.write_rollup_config(&format!("{dir}/v0/config_replica_0.toml"), "replica-data", 12346);
    host.write_rollup_config(&format!("{dir}/v1/config_master.toml"), "master-data", 12345);
    host.write_rollup_config(&format!("{dir}/v1/config_replica_0.toml"), "replica-data", 12346);
    let description = format!(
        r#"repo_url = "{}"

[[versions]]
commit = "{}"
stop_height = 5

[[versions]]
commit = "{}"
start_height = 6
stop_height = 10
"#,
        repo.repo_url(),
        &repo.commit,
        &repo.commit,
    );
    host.write_file(&format!("{dir}/test_case.toml"), &description);
    repo
}

#[test]
fn upgrade_simulator_preparation_pipeline_multinode_layout() {
    let mut host = Host::new();
    let repo = multinode(&mut host);

    let test_case = host.load("/tests/multinode-test").expect("load test case");
    assert_eq!(test_case.name, "multinode-test");
    assert_eq!(test_case.nodes.len(), 2);
    assert_eq!(test_case.num_replicas(), 1);

    let builder = RollupBuilder::with_repo_url("/cache".to_string(), repo.repo_url());

    let node_versions = host
        .drive(|j| test_case.build_node_versions(&builder, j))
        .expect("build node versions");
    assert_eq!(node_versions.nodes.len(), 2);
    assert_eq!(node_versions.nodes[0].len(), 2);
    assert_eq!(node_versions.nodes[1].len(), 2);
    assert!(host.has(&node_versions.nodes[0][0].rollup_binary));
    assert!(host.has(&node_versions.nodes[1][0].rollup_binary));
    assert_eq!(
        node_versions.nodes[1][0].config_path,
        "/tests/multinode-test/v0/config_replica_0.toml"
    );

    // No soak section in this testcase.
    assert!(host
        .drive(|j| test_case.build_soak_config(&builder, j))
        .expect("build soak config")
        .is_none());
}

const E2E_CONFIG: &str = r#"state_file = "node-data/state.json"
sequencer_db_url = "{postgres_connection_string}"
da_url = "{mock_da_url}"

[storage]
path = "node-data"

[runner.http_config]
bind_port = 12400
"#;

fn e2e_case(host: &mut Host, more: &str) -> TestCase {
    let repo = host
        .drive(|j| init_manager_compatible_rollup_repo("/repo".to_string(), j))
        .expect("repo");
    host.write_file("/tests/e2e-case/genesis.json", "{}");
    // Include both storage.path (for upgrade-simulator parsing) and state_file
    // (for mock-rollup runtime behavior).
    host.write_file("/tests/e2e-case/v0/config.toml", E2E_CONFIG);
    host.write_file("/tests/e2e-case/v1/config.toml", E2E_CONFIG);
    let description = format!(
        r#"repo_url = "{}"
{more}

[[versions]]
commit = "{}"
stop_height = 3

[[versions]]
commit = "{}"
start_height = 4
stop_height = 6
"#,
        repo.repo_url(),
        &repo.commit,
        &repo.commit,
    );
    host.write_file("/tests/e2e-case/test_case.toml", &description);
    host.load("/tests/e2e-case").expect("load test case")
}

fn run_case(host: &mut Host, test_case: &TestCase) -> Result<(), TestCaseError> {
    assert!(test_case.is_runnable());
    let cache_dir = "/cache".to_string();
    let test_root = "/tests".to_string();
    let password = generate_password();
    host.drive(|j| run_test_case(&cache_dir, &test_root, test_case, &password, j))
}

fn assert_interpolated_config(host: &Host, path: &str) {
    let content = &host.files[path];
    assert!(
        !content.contains("{postgres_connection_string}"),
        "placeholder should be replaced in {path}"
    );
    assert!(
        !content.contains("{mock_da_url}"),
        "placeholder should be replaced in {path}"
    );
    assert!(
        content.contains("@localhost:5432/sequencer"),
        "interpolated postgres URL should be present in {path}"
    );
    assert!(
        content.contains("http://localhost:50051"),
        "interpolated mock DA URL should be present in {path}"
    );
}

#[test]
fn e2e_upgrade_simulator_run_with_mock_rollup_wrapper() {
    let mut host = Host::new();
    let test_case = e2e_case(&mut host, "extra_blocks_after_resync = 0");
    run_case(&mut host, &test_case).expect("upgrade simulator end-to-end run should succeed");

    assert_interpolated_config(&host, "/tests/e2e-case/run-dir/master/config_0.toml");
    assert_interpolated_config(&host, "/tests/e2e-case/run-dir/master/config_1.toml");

    // Both phases run the same versions, since there are no extra blocks.
    assert_eq!(
        host.logged("manager "),
        vec![
            "manager /tests/e2e-case/run-dir/manager_config_master.json None..Some(3) \
             Some(4)..Some(6)";
            2
        ]
    );
    assert_eq!(
        host.logged("spawn master"),
        vec![
            "spawn master: /bin/manager -c manager_config_master.json --no-checkpoint-file -- \
             --genesis-path /tests/e2e-case/genesis.json --metrics 9845";
            2
        ]
    );
    assert_eq!(host.logged("spawn mock-da").len(), 1);
    assert_eq!(host.logged("docker run").len(), 1);
    assert_eq!(
        host.log[host.log.len() - 2..],
        [
            "docker stop upgrade_simulator_postgres".to_string(),
            "docker rm -f upgrade_simulator_postgres".to_string(),
        ]
    );
    let reset = host
        .log
        .iter()
        .position(|l| l.contains("DROP DATABASE IF EXISTS sequencer"))
        .expect("reset");
    let spawns: Vec<usize> = (0..host.log.len())
        .filter(|i| host.log[*i].starts_with("spawn master"))
        .collect();
    assert!(spawns[0] < reset && reset < spawns[1]);
}

const SOAKED: &str = "extra_blocks_after_resync = 2\n[soak_testing]\nnum_workers = 3\nsalt = 7";

#[test]
fn resync_runs_on_for_the_extra_blocks() {
    let mut host = Host::new();
    let test_case = e2e_case(&mut host, SOAKED);
    run_case(&mut host, &test_case).unwrap();
    assert_eq!(
        host.logged("manager "),
        vec![
            "manager /tests/e2e-case/run-dir/manager_config_master.json None..Some(3) \
             Some(4)..Some(6)",
            "manager /tests/e2e-case/run-dir/manager_config_master.json None..Some(3) \
             Some(4)..Some(8)",
        ]
    );
    let soak = "/cache/binaries/c0ffee/rollup-starter-soak-test";
    assert_eq!(
        host.logged("soak "),
        vec![
            &format!("soak 7+3 [(\"{soak}\", 3), (\"{soak}\", 6)] http://localhost:12400"),
            &format!("soak 13+3 [(\"{soak}\", 8)] http://localhost:12400"),
        ]
    );
    assert_eq!(host.logged("notify soak").len(), 2);
}

#[test]
fn failing_soak_fails_the_test_case() {
    let mut host = Host::new();
    let test_case = e2e_case(&mut host, SOAKED);
    host.soak_end = Some(SoakEnd::Failed(SoakManagerError::SoakTestFailed { exit_code: 4 }));
    assert!(matches!(
        run_case(&mut host, &test_case),
        Err(TestCaseError::SoakTestFailed { exit_code: 4 })
    ));
    assert_eq!(host.logged("docker rm").len(), 1);
}

#[test]
fn soak_that_does_not_end_in_time_is_forgiven() {
    let mut host = Host::new();
    let test_case = e2e_case(&mut host, SOAKED);
    host.soak_end = Some(SoakEnd::TimedOut);
    run_case(&mut host, &test_case).unwrap();
}

#[test]
fn failing_node_ends_the_test_case() {
    let mut host = Host::new();
    let test_case = e2e_case(&mut host, SOAKED);
    host.failing = Some(("master".to_string(), 1));
    host.soak_end = Some(SoakEnd::Failed(SoakManagerError::SoakTestFailed { exit_code: 4 }));
    assert!(matches!(
        run_case(&mut host, &test_case),
        Err(TestCaseError::ManagerNonZeroExit { node_type, status: ExitStatus::Exited(3) })
            if node_type == "master"
    ));
    // The nodes decide before the soak test, every process is told to terminate, and the second
    // phase does not begin.
    assert_eq!(host.logged("spawn master").len(), 1);
    assert_eq!(host.logged("terminate")[0], "terminate [101, 102]");
    assert_eq!(host.logged("notify soak").len(), 1);
    assert_eq!(host.logged("docker rm").len(), 1);
}

#[test]
fn failing_resync_fails_the_test_case() {
    let mut host = Host::new();
    let test_case = e2e_case(&mut host, "");
    assert_eq!(test_case.extra_blocks_after_resync, 10);
    host.failing = Some(("master".to_string(), 2));
    assert!(matches!(
        run_case(&mut host, &test_case),
        Err(TestCaseError::ManagerNonZeroExit { .. })
    ));
    assert_eq!(host.logged("spawn master").len(), 2);
}

#[test]
fn interruption_terminates_processes_and_cleans_up() {
    let mut host = Host::new();
    let test_case = e2e_case(&mut host, "");
    host.interrupt_after = Some(1);
    assert!(matches!(
        run_case(&mut host, &test_case),
        Err(TestCaseError::Interrupted)
    ));
    let end: Vec<&str> = host.log[host.log.len() - 5..]
        .iter()
        .map(|l| l.as_str())
        .collect();
    assert_eq!(
        end,
        vec![
            "terminate [101, 102]",
            "sleep 5000",
            "terminate [101, 102]",
            "docker stop upgrade_simulator_postgres",
            "docker rm -f upgrade_simulator_postgres",
        ]
    );
}

#[test]
fn missing_test_case_root_is_reported() {
    let mut host = Host::new();
    let test_case = e2e_case(&mut host, "");
    host.files.clear();
    host.dirs.clear();
    assert!(matches!(
        run_case(&mut host, &test_case),
        Err(TestCaseError::InvalidTestCaseRoot(path, _)) if path == "/tests/e2e-case"
    ));
    assert!(host.logged("docker").is_empty());
}

#[test]
fn unrunnable_test_cases_are_told_apart() {
    let mut host = Host::new();
    let mut test_case = e2e_case(&mut host, SOAKED);
    assert!(test_case.is_runnable());
    test_case.extra_blocks_after_resync = u64::MAX - 5;
    assert!(!test_case.is_runnable());
    test_case.extra_blocks_after_resync = u64::MAX - 6;
    assert!(test_case.is_runnable());
    test_case.soak_testing = Some(SoakTestingConfig {
        num_workers: 3,
        salt: u32::MAX - 5,
    });
    assert!(!test_case.is_runnable());
    test_case.soak_testing = None;
    assert!(test_case.is_complete());
    test_case.nodes[0].config_paths.pop();
    assert!(!test_case.is_complete());
    assert!(!test_case.is_runnable());
}

#[test]
fn load_test_case_reports_each_failure() {
    let mut host = Host::new();
    assert!(matches!(
        host.load("/"),
        Err(TestCaseError::InvalidDirName(dir)) if dir == "/"
    ));
    assert!(matches!(
        host.load("/tests/x"),
        Err(TestCaseError::ReadTestCase { path, .. }) if path == "/tests/x/test_case.toml"
    ));
    host.write_file("/tests/x/test_case.toml", "versions = ");
    assert!(matches!(
        host.load("/tests/x"),
        Err(TestCaseError::ParseTestCase { .. })
    ));
    host.write_file("/tests/x/test_case.toml", "versions = []");
    assert!(matches!(host.load("/tests/x"), Err(TestCaseError::NoVersions)));
    host.write_file(
        "/tests/x/test_case.toml",
        "[[versions]]\ncommit = \"a\"\nstop_height = 1\n",
    );
    assert!(matches!(
        host.load("/tests/x"),
        Err(TestCaseError::ConfigNotFound(path)) if path == "/tests/x/v0/config.toml"
    ));
    host.write_rollup_config("/tests/x/v0/config.toml", "data", 1);
    let test_case = host.load("/tests/x").unwrap();
    assert_eq!(test_case.repo_url, DEFAULT_REPO_URL);
    host.write_rollup_config("/tests/x/v0/config_replica_0.toml", "data2", 2);
    assert!(matches!(
        host.load("/tests/x"),
        Err(TestCaseError::ConfigModeMismatch { version: 0, .. })
    ));
    host.files.remove("/tests/x/v0/config_replica_0.toml");
    host.write_file("/tests/x/v0/config.toml", "= nonsense");
    assert!(matches!(
        host.load("/tests/x"),
        Err(TestCaseError::ParseConfig { .. })
    ));
}

fn layout_of(host: &mut Host, versions: usize) -> Result<(usize, bool), TestCaseError> {
    host.drive(|j| detect_node_layout("/t", versions, j))
        .map(|layout| {
            assert!(validate_node_layout(&layout).is_ok());
            assert_eq!(layout.all_nodes().len(), layout.num_replicas() + 1);
            (layout.num_replicas(), layout.requires_postgres)
        })
}

#[test]
fn layouts_are_detected_and_checked() {
    let mut host = Host::new();
    assert!(matches!(layout_of(&mut host, 0), Err(TestCaseError::NoVersions)));
    host.write_rollup_config("/t/v0/config.toml", "data", 1000);
    assert_eq!(layout_of(&mut host, 1).unwrap(), (0, false));

    let mut host = Host::new();
    for version in 0..2 {
        host.write_rollup_config(&format!("/t/v{version}/config_master.toml"), "a", 1000);
        host.write_rollup_config(&format!("/t/v{version}/config_replica_0.toml"), "b", 1001);
        host.write_rollup_config(&format!("/t/v{version}/config_replica_1.toml"), "c", 1002);
    }
    assert_eq!(layout_of(&mut host, 2).unwrap(), (2, true));

    // A port that two nodes share.
    for version in 0..2 {
        host.write_rollup_config(&format!("/t/v{version}/config_replica_1.toml"), "c", 1000);
    }
    assert!(matches!(
        layout_of(&mut host, 2),
        Err(TestCaseError::PortConflict { port: 1000, node1, node2 })
            if node1 == "master" && node2 == "replica_1"
    ));
    // A storage path that two nodes share, in two spellings.
    for version in 0..2 {
        host.write_rollup_config(&format!("/t/v{version}/config_replica_1.toml"), "b/.", 1002);
    }
    assert!(matches!(
        layout_of(&mut host, 2),
        Err(TestCaseError::StoragePathConflict { node1, node2, .. })
            if node1 == "replica_0" && node2 == "replica_1"
    ));
    // Settings that differ between versions.
    host.write_rollup_config("/t/v0/config_replica_1.toml", "c", 1002);
    host.write_rollup_config("/t/v1/config_replica_1.toml", "c", 1003);
    assert!(matches!(
        layout_of(&mut host, 2),
        Err(TestCaseError::CrossVersionMismatch { node_type, field, v0_value, version: 1, other_value })
            if node_type == "replica_1" && field == "http_port" && v0_value == "1002"
                && other_value == "1003"
    ));
    host.write_rollup_config("/t/v1/config_replica_1.toml", "d", 1002);
    assert!(matches!(
        layout_of(&mut host, 2),
        Err(TestCaseError::CrossVersionMismatch { field, .. }) if field == "storage_path"
    ));
    // A replica that is missing in the second version.
    host.files.remove("/t/v1/config_replica_1.toml");
    assert!(layout_of(&mut host, 2).is_err());
    // A replica more in the second version.
    host.write_rollup_config("/t/v1/config_replica_1.toml", "c", 1002);
    host.write_rollup_config("/t/v1/config_replica_2.toml", "e", 1009);
    assert!(matches!(
        layout_of(&mut host, 2),
        Err(TestCaseError::ReplicaCountMismatch { version: 1, count: 3, expected: 2 })
    ));
}

fn version(stop: u64) -> RollupVersion {
    RollupVersion {
        rollup_binary: "/bin/rollup".to_string(),
        config_path: "/c.toml".to_string(),
        migration_path: None,
        start_height: None,
        stop_height: Some(stop),
    }
}

fn two_nodes() -> NodeVersions {
    NodeVersions {
        nodes: vec![vec![version(5), version(9)], vec![version(5), version(9)]],
    }
}

fn start_nodes(
    host: &mut Host,
    registry: &mut ProcessRegistry,
) -> Result<(), TestCaseError> {
    let names = vec!["master".to_string()];
    let extra = vec!["--x".to_string()];
    host.drive(|j| {
        registry.clear();
        run_nodes(
            &"/bin/manager".to_string(),
            &two_nodes(),
            &names,
            &extra,
            &"/run".to_string(),
            false,
            registry,
            j,
        )
    })
}

#[test]
fn nodes_without_a_name_are_numbered() {
    let mut host = Host::new();
    let mut registry = ProcessRegistry::new();
    start_nodes(&mut host, &mut registry).unwrap();
    assert_eq!(registry.terminate_all(), vec![101, 102]);
    assert_eq!(
        host.logged("spawn"),
        vec![
            "spawn master: /bin/manager -c manager_config_master.json --no-checkpoint-file -- \
             --x --metrics 9845",
            "spawn node_1: /bin/manager -c manager_config_node_1.json --no-checkpoint-file -- \
             --x --metrics 9846",
        ]
    );
}

#[test]
fn first_failing_node_terminates_the_others() {
    let mut host = Host::new();
    host.failing = Some(("master".to_string(), 1));
    let mut registry = ProcessRegistry::new();
    assert!(matches!(
        start_nodes(&mut host, &mut registry),
        Err(TestCaseError::ManagerNonZeroExit { node_type, .. }) if node_type == "master"
    ));
    assert_eq!(host.logged("terminate"), vec!["terminate [101, 102]"]);
    assert!(host.running.is_empty());
}

fn nodes_end_with(replies: Vec<HostReply>) -> TestCaseError {
    let versions = NodeVersions {
        nodes: vec![vec![version(5)]],
    };
    let names = vec!["master".to_string()];
    let mut journal = Journal { replies, next: 0 };
    match run_nodes(
        &"/bin/manager".to_string(),
        &versions,
        &names,
        &vec![],
        &"/run".to_string(),
        false,
        &mut ProcessRegistry::new(),
        &mut journal,
    ) {
        Err(Stop::Fail(e)) => e,
        other => panic!("{other:?}"),
    }
}

fn config_write(w: ConfigWrite) -> HostReply {
    HostReply::ConfigWrite(w)
}

#[test]
fn every_failure_of_a_node_has_its_error() {
    assert!(matches!(
        nodes_end_with(vec![
            config_write(ConfigWrite::NotSerialized("a".to_string())),
            HostReply::Done,
        ]),
        TestCaseError::SerializeManagerConfig(m) if m == "a"
    ));
    assert!(matches!(
        nodes_end_with(vec![
            config_write(ConfigWrite::NotWritten("b".to_string())),
            HostReply::Done,
        ]),
        TestCaseError::WriteManagerConfig { node_type, source }
            if node_type == "master" && source == "b"
    ));
    let written = || config_write(ConfigWrite::Written);
    assert!(matches!(
        nodes_end_with(vec![
            written(),
            HostReply::Spawned(Err("c".to_string())),
            HostReply::Done,
        ]),
        TestCaseError::ManagerSpawn { source, .. } if source == "c"
    ));
    let ended = |exit: NodeExit| {
        nodes_end_with(vec![
            written(),
            HostReply::Spawned(Ok(None)),
            HostReply::NodeExit(exit),
            HostReply::Done,
            HostReply::Done,
            HostReply::Done,
        ])
    };
    assert!(matches!(
        ended(NodeExit::Panicked("d".to_string())),
        TestCaseError::NodeTaskPanic { node_type, source }
            if node_type == "unknown" && source == "d"
    ));
    assert!(matches!(
        ended(NodeExit::Exited { name: "n".to_string(), outcome: Err("e".to_string()) }),
        TestCaseError::ManagerWait { node_type, source } if node_type == "n" && source == "e"
    ));
    assert!(matches!(
        ended(NodeExit::Exited {
            name: "n".to_string(),
            outcome: Ok(ExitStatus::Signaled(9)),
        }),
        TestCaseError::ManagerNonZeroExit { status: ExitStatus::Signaled(9), .. }
    ));
}

#[test]
fn resync_prolongs_the_last_version_of_every_node() {
    let resync = build_resync_versions(&two_nodes(), 7);
    for node in &resync.nodes {
        assert_eq!(node[0].stop_height, Some(5));
        assert_eq!(node[1].stop_height, Some(16));
    }
}

#[test]
fn placeholders_are_filled_in() {
    assert_eq!(
        interpolate_config(
            "a = {mock_da_url}; b = {postgres_connection_string}; c = {mock_da_url}",
            "DB",
            "DA"
        ),
        "a = DA; b = DB; c = DA"
    );
    assert_eq!(interpolate_config("{other}", "DB", "DA"), "{other}");
}

#[test]
fn passwords_are_random_letters_and_digits() {
    let first = generate_password();
    let second = generate_password();
    assert_eq!(first.len(), second.len());
    assert!(first.chars().all(|c| c.is_ascii_alphanumeric()));
    assert_ne!(first, second);
}

fn start_container(replies: Vec<HostReply>) -> Result<PostgresDockerContainer, DockerError> {
    let mut journal = Journal { replies, next: 0 };
    match PostgresDockerContainer::start("pw".to_string(), &mut journal) {
        Ok(container) => {
            assert_eq!(journal.next, journal.replies.len());
            Ok(container)
        }
        Err(Stop::Fail(e)) => {
            assert_eq!(journal.next, journal.replies.len());
            Err(e)
        }
        Err(Stop::Ask(call)) => panic!("{call:?}"),
    }
}

fn not_started(m: &str) -> HostReply {
    HostReply::Command(CommandOutcome::NotStarted(m.to_string()))
}

fn good() -> HostReply {
    finished(0, "", "")
}

fn bad() -> HostReply {
    finished(2, "", "went wrong")
}

#[test]
fn container_start_reports_each_failure() {
    assert!(matches!(
        start_container(vec![not_started("no docker")]),
        Err(DockerError::Start { source, .. }) if source == "no docker"
    ));
    assert!(matches!(
        start_container(vec![bad()]),
        Err(DockerError::StartFailed { code: Some(2), stderr, .. }) if stderr == "went wrong"
    ));
    // Not ready in time; the container is stopped and removed again.
    assert!(matches!(
        start_container(vec![
            good(),
            HostReply::Done,
            HostReply::Millis(0),
            bad(),
            HostReply::Done,
            HostReply::Millis(30_000),
            good(),
            good(),
        ]),
        Err(DockerError::NotReady { timeout_secs: 30, .. })
    ));
    assert!(matches!(
        start_container(vec![
            good(),
            HostReply::Done,
            HostReply::Millis(0),
            not_started("gone"),
            good(),
            good(),
        ]),
        Err(DockerError::ReadinessCheck { .. })
    ));
    let ready = |more: Vec<HostReply>| {
        let mut replies = vec![good(), HostReply::Done, HostReply::Millis(0), good()];
        replies.extend(more);
        start_container(replies)
    };
    assert!(matches!(
        ready(vec![not_started("gone"), good(), good()]),
        Err(DockerError::SqlExec { .. })
    ));
    assert!(matches!(
        ready(vec![good(), bad(), good(), good()]),
        Err(DockerError::SqlFailed { code: Some(2), .. })
    ));
    let container = ready(vec![good(), good()]).unwrap();
    assert_eq!(container.name(), "upgrade_simulator_postgres");
    assert_eq!(
        container.sequencer_connection_string(),
        "postgresql://postgres:pw@localhost:5432/sequencer"
    );
    assert_eq!(
        container.da_connection_string(),
        "postgresql://postgres:pw@localhost:5432/mock_da"
    );
}

#[test]
fn container_is_cleaned_up_once() {
    let mut container = PostgresDockerContainer {
        container_name: "c".to_string(),
        port: 5432,
        password: "pw".to_string(),
        cleaned_up: false,
    };
    let mut journal = Journal {
        replies: vec![bad(), not_started("gone")],
        next: 0,
    };
    assert!(matches!(
        container.cleanup(&mut journal),
        Err(Stop::Fail(DockerError::Remove { .. }))
    ));
    assert!(!container.cleaned_up);
    let mut journal = Journal {
        replies: vec![bad(), bad()],
        next: 0,
    };
    container.cleanup(&mut journal).unwrap();
    assert!(container.cleaned_up);
    container.cleanup(&mut Journal::new()).unwrap();
    container.dispose(&mut Journal::new()).unwrap();
}

#[test]
fn soak_failure_goes_before_the_managers() {
    let failed = || Err(SoakManagerError::SoakTestStartFailed("s".to_string()));
    assert!(matches!(
        coordinated_result(failed(), ManagerEnd::Panicked("m".to_string())),
        Err(TestCaseError::SoakTestStartFailed(m)) if m == "s"
    ));
    assert!(matches!(
        coordinated_result(Ok(()), ManagerEnd::Panicked("m".to_string())),
        Err(TestCaseError::ManagerTaskPanic(m)) if m == "m"
    ));
    assert!(matches!(
        coordinated_result(
            Ok(()),
            ManagerEnd::Ended(Err(RunnerError::UnexpectedExit { last_known_height: None }))
        ),
        Err(TestCaseError::Runner(RunnerError::UnexpectedExit { last_known_height: None }))
    ));
    assert!(coordinated_result(Ok(()), ManagerEnd::Ended(Ok(()))).is_ok());
}

#[test]
fn soak_resync_takes_fresh_salts() {
    let config = SoakManagerConfig::new(
        SoakTestingConfig {
            num_workers: 5,
            salt: 3,
        },
        vec![("/a".to_string(), 100), ("/b".to_string(), 200)],
    );
    assert!(config.for_resync(0).is_none());
    let resync = config.for_resync(10).unwrap();
    assert_eq!(resync.versions, vec![("/b".to_string(), 210)]);
    assert_eq!(resync.config.salt, 13);
    assert_eq!(resync.config.num_workers, 5);
}

#[test]
fn local_repo_is_committed() {
    let mut host = Host::new();
    let repo = host.local_repo();
    assert_eq!(repo.repo_url(), "/repo");
    assert_eq!(repo.commit, "c0ffee");
    assert!(host.files["/repo/Cargo.toml"].contains("name = \"rollup-starter-soak-test\""));
    assert_eq!(
        host.files["/repo/src/bin/rollup.rs"],
        "fn main() { println!(\"rollup\"); }"
    );
    assert_eq!(host.logged("git commit"), vec!["git commit -m initial"]);
}

#[test]
fn rollup_config_fixture_is_exact() {
    let mut host = Host::new();
    host.write_rollup_config("/x/config.toml", "node-data", 12345);
    assert_eq!(
        host.files["/x/config.toml"],
        "[storage]\npath = \"node-data\"\n\n[runner.http_config]\nbind_port = 12345\n"
    );
    assert!(host.dirs.contains(&"/x".to_string()));
}

#[test]
fn failing_fixture_command_is_reported() {
    let command = CommandSpec {
        program: "false".to_string(),
        args: vec![],
        current_dir: None,
    };
    let mut journal = Journal {
        replies: vec![bad()],
        next: 0,
    };
    assert!(matches!(
        run_ok(command, &mut journal),
        Err(Stop::Fail(FixtureError::CommandFailed { .. }))
    ));
}

#[test]
fn binaries_are_cached_by_commit() {
    let builder = RollupBuilder::new("/cache".to_string());
    assert_eq!(builder.repo_path(), "/cache/repo");
    assert_eq!(
        builder.binary_cache_path("abc"),
        "/cache/binaries/abc/sov-rollup-starter"
    );
    assert_eq!(
        builder.soak_binary_cache_path("abc"),
        "/cache/binaries/abc/rollup-starter-soak-test"
    );
    assert_eq!(
        builder.mock_da_binary_cache_path("abc"),
        "/cache/binaries/abc/mock-da-server"
    );
}

#[test]
fn a_node_that_cannot_be_started_ends_the_others() {
    let mut host = Host::new();
    host.unstartable = Some("node_1".to_string());
    let mut registry = ProcessRegistry::default();
    assert!(matches!(
        start_nodes(&mut host, &mut registry),
        Err(TestCaseError::ManagerSpawn { node_type, .. }) if node_type == "node_1"
    ));
    assert_eq!(host.logged("abort"), vec!["abort [\"master\"]"]);
    assert!(registry.terminate_all().is_empty());
}

#[test]
fn a_failed_start_ends_the_soak_test() {
    let mut host = Host::new();
    let test_case = e2e_case(&mut host, SOAKED);
    host.unstartable = Some("master".to_string());
    assert!(matches!(
        run_case(&mut host, &test_case),
        Err(TestCaseError::ManagerSpawn { .. })
    ));
    let abort = host.log.iter().position(|l| l == "abort []").unwrap();
    assert_eq!(host.log[abort + 1], "notify soak");
    assert_eq!(host.logged("docker rm").len(), 1);
}

#[test]
fn a_cleared_registry_holds_what_came_since() {
    let mut registry = ProcessRegistry::new();
    registry.register("a".to_string(), 1);
    registry.clear();
    assert!(registry.terminate_all().is_empty());
    registry.register("b".to_string(), 2);
    registry.register("c".to_string(), 3);
    assert_eq!(registry.terminate_all(), vec![2, 3]);
}

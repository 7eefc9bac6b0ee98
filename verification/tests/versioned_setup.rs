use std::collections::BTreeMap;

use sov_rollup_manager::artifact_builder::BuilderError;
use sov_rollup_manager::config::FileRead;
use sov_rollup_manager::journal::{HostCall, HostReply, Journal, Stop};
use sov_rollup_manager::process::{CommandOutcome, CommandOutput, ExitStatus};
use sov_rollup_manager::versioned_setup::{
    build_rollup_manager_binary, load_versions_replacing_last_with_local_head,
    prepare_rollup_binaries, read_text_file_at_commit, resync_rollup_target, BinarySource,
    ResolvedVersion, RollupBinaryBuildConfig, SetupError, VersionSpecEntry, VERSION_SPEC_FILE,
};

struct Host {
    files: BTreeMap<String, String>,
    log: Vec<String>,
    failing: Option<&'static str>,
}

fn text_of(value: &serde_yaml::Value, key: &str) -> Option<String> {
    value.get(key).and_then(|v| v.as_str()).map(|s| s.to_string())
}

fn parse_spec(text: &str) -> FileRead<Vec<VersionSpecEntry>> {
    match serde_yaml::from_str::<serde_yaml::Value>(text) {
        Err(e) => FileRead::Malformed(e.to_string()),
        Ok(value) => FileRead::Parsed(
            value["rollup_versions"]
                .as_sequence()
                .expect("versions")
                .iter()
                .map(|v| VersionSpecEntry {
                    version_id: text_of(v, "version_id").expect("id"),
                    vars_file: text_of(v, "vars_file").expect("vars"),
                    start_height: v["start_height"].as_u64(),
                    stop_height: v["stop_height"].as_u64(),
                    migration_path: text_of(v, "migration_path"),
                })
                .collect(),
        ),
    }
}

fn parse_vars(text: &str) -> FileRead<String> {
    match serde_yaml::from_str::<serde_yaml::Value>(text) {
        Ok(value) => match text_of(&value, "rollup_commit_hash") {
            Some(commit) => FileRead::Parsed(commit),
            None => FileRead::Malformed("no commit".to_string()),
        },
        Err(e) => FileRead::Malformed(e.to_string()),
    }
}

impl Host {
    fn new() -> Self {
        Host {
            files: BTreeMap::new(),
            log: vec![],
            failing: None,
        }
    }

    fn write(&mut self, path: &str, content: &str) {
        self.files.insert(path.to_string(), content.to_string());
    }

    fn reply(&mut self, call: HostCall) -> HostReply {
        match call {
            HostCall::PathExists { path } => HostReply::Flag(self.files.contains_key(&path)),
            HostCall::CreateDirAll { path } => {
                self.log.push(format!("mkdir {path}"));
                HostReply::Status(Ok(()))
            }
            HostCall::RemoveDirAll { path } => {
                self.log.push(format!("rmdir {path}"));
                HostReply::Status(Ok(()))
            }
            HostCall::CopyFile { from, to } => {
                let content = self.files[&from].clone();
                self.files.insert(to, content);
                HostReply::Status(Ok(()))
            }
            HostCall::Canonicalize { path } => {
                HostReply::Text(if self.failing == Some("canonicalize") {
                    Err("gone".to_string())
                } else {
                    Ok(format!("/abs{path}"))
                })
            }
            HostCall::ReadVersionSpec { path } => HostReply::VersionSpec(
                match self.files.get(&path) {
                    Some(text) => parse_spec(text),
                    None => FileRead::Unreadable("missing".to_string()),
                },
            ),
            HostCall::ReadVersionVars { path } => HostReply::VersionVars(
                match self.files.get(&path) {
                    Some(text) => parse_vars(text),
                    None => FileRead::Unreadable("missing".to_string()),
                },
            ),
            HostCall::ReadTextAtCommit { cache_dir, repo_url, commit, path } => {
                HostReply::Text(if commit == "bad" {
                    Err("unknown commit".to_string())
                } else {
                    Ok(format!("{cache_dir} {repo_url} {commit} {path}"))
                })
            }
            HostCall::Run { command } => {
                let line = format!("{} {}", command.program, command.args.join(" "));
                self.log.push(line.clone());
                if let Some(failing) = self.failing {
                    if line.starts_with(failing) {
                        return HostReply::Command(CommandOutcome::Finished(CommandOutput {
                            status: ExitStatus::Exited(1),
                            stdout: "out".to_string(),
                            stderr: "err".to_string(),
                        }));
                    }
                }
                if line.starts_with("git clone") {
                    let repo = command.args.last().unwrap().clone();
                    self.files.insert(repo, "repo".to_string());
                }
                if let Some(bin) = command.args.iter().position(|a| a == "--bin") {
                    let dir = command.current_dir.clone().unwrap();
                    let path = format!("{dir}/target/release/{}", command.args[bin + 1]);
                    self.files.insert(path, "binary".to_string());
                }
                HostReply::Command(CommandOutcome::Finished(CommandOutput {
                    status: ExitStatus::Exited(0),
                    stdout: String::new(),
                    stderr: String::new(),
                }))
            }
            other => panic!("unexpected {other:?}"),
        }
    }

    fn drive<T>(
        &mut self,
        mut procedure: impl FnMut(&mut Journal) -> Result<T, Stop<SetupError>>,
    ) -> Result<T, SetupError> {
        let mut journal = Journal::new();
        loop {
            match procedure(&mut journal) {
                Ok(v) => return Ok(v),
                Err(Stop::Fail(e)) => return Err(e),
                Err(Stop::Ask(call)) => {
                    let reply = self.reply(call);
                    journal.record(reply);
                }
            }
        }
    }

    fn load(&mut self) -> Result<Vec<ResolvedVersion>, SetupError> {
        let dir = "/spec".to_string();
        self.drive(|j| load_versions_replacing_last_with_local_head(&dir, j))
    }
}

const SPEC: &str = r#"
rollup_versions:
  - version_id: "v0"
    ansible_commit: "ignored"
    vars_file: "version_vars/v0_vars.yaml"
    start_height: null
    stop_height: 510
    migration_path: null
  - version_id: "v1"
    ansible_commit: "ignored"
    vars_file: "version_vars/v1_vars.yaml"
    start_height: 511
    stop_height: null
    migration_path: null
"#;

fn two_versions() -> Host {
    let mut host = Host::new();
    host.write(&format!("/spec/{VERSION_SPEC_FILE}"), SPEC);
    host.write(
        "/spec/version_vars/v0_vars.yaml",
        "rollup_commit_hash: abc123\n",
    );
    host.write(
        "/spec/version_vars/v1_vars.yaml",
        "rollup_commit_hash: def456\n",
    );
    host
}

#[test]
fn missing_versions_file_defaults_to_head() {
    let versions = Host::new().load().unwrap();
    assert_eq!(versions.len(), 1);
    assert_eq!(versions[0].binary_source, BinarySource::LocalHead);
    assert_eq!(versions[0].start_height, None);
    assert_eq!(versions[0].stop_height, None);
}

#[test]
fn parses_existing_schema_and_replaces_last_binary_with_head() {
    let versions = two_versions().load().unwrap();
    assert_eq!(versions.len(), 2);
    assert_eq!(
        versions[0].binary_source,
        BinarySource::RemoteCommit("abc123".to_string())
    );
    assert_eq!(versions[0].config_commit.as_deref(), Some("abc123"));
    assert_eq!(versions[0].start_height, None);
    assert_eq!(versions[0].stop_height, Some(510));
    assert_eq!(versions[1].binary_source, BinarySource::LocalHead);
    assert_eq!(versions[1].config_commit, None);
    assert_eq!(versions[1].start_height, Some(511));
    assert_eq!(versions[1].stop_height, None);
}

#[test]
fn loading_versions_reports_each_failure() {
    let mut host = two_versions();
    host.write(&format!("/spec/{VERSION_SPEC_FILE}"), "{ nonsense");
    assert!(matches!(host.load(), Err(SetupError::ParseSpec { .. })));

    let mut host = two_versions();
    host.files.remove("/spec/version_vars/v0_vars.yaml");
    assert!(matches!(
        host.load(),
        Err(SetupError::ReadVars { version_id, path, .. })
            if version_id == "v0" && path == "/spec/version_vars/v0_vars.yaml"
    ));

    let mut host = two_versions();
    host.write("/spec/version_vars/v0_vars.yaml", "other: 1\n");
    assert!(matches!(host.load(), Err(SetupError::ParseVars { .. })));

    let mut host = two_versions();
    host.write(
        "/spec/version_vars/v0_vars.yaml",
        "rollup_commit_hash: \"  \"\n",
    );
    assert!(matches!(
        host.load(),
        Err(SetupError::EmptyCommit { version_id, .. }) if version_id == "v0"
    ));
}

#[test]
fn commits_are_trimmed() {
    let mut host = two_versions();
    host.write(
        "/spec/version_vars/v0_vars.yaml",
        "rollup_commit_hash: \" abc123\\n\"\n",
    );
    let versions = host.load().unwrap();
    assert_eq!(versions[0].config_commit.as_deref(), Some("abc123"));
}

fn config() -> RollupBinaryBuildConfig {
    RollupBinaryBuildConfig {
        repo_url: "/remote".to_string(),
        cache_dir: "/cache".to_string(),
        local_rollup_root: "/local".to_string(),
        target: resync_rollup_target(),
    }
}

#[test]
fn binaries_come_from_their_sources() {
    let mut host = two_versions();
    let versions = host.load().unwrap();
    let config = config();
    let prepared = host
        .drive(|j| prepare_rollup_binaries(&versions, &config, j))
        .unwrap();
    assert_eq!(prepared.len(), 2);
    assert!(prepared[0].rollup_binary.starts_with("/abs/cache/binaries/abc123/"));
    assert!(prepared[1].rollup_binary.starts_with("/abs/local/target/release/"));
    assert_eq!(prepared[0].stop_height, Some(510));
    assert_eq!(prepared[1].start_height, Some(511));
    assert_eq!(prepared[1].version_id, "v1");
    assert!(prepared[0].migration_path.is_none());
    assert!(host.log.contains(&"git checkout abc123".to_string()));
    assert!(!host.log.contains(&"git checkout def456".to_string()));
}

#[test]
fn binaries_that_cannot_be_had_are_reported() {
    let versions = two_versions().load().unwrap();
    let config = config();
    let prepare = |failing: &'static str| {
        let mut host = two_versions();
        host.failing = Some(failing);
        host.drive(|j| prepare_rollup_binaries(&versions, &config, j))
            .expect_err("should fail")
    };
    assert!(matches!(
        prepare("git checkout"),
        SetupError::HistoricalBinaries { cause: BuilderError::GitCheckout { commit, .. } }
            if commit == "abc123"
    ));
    assert!(matches!(
        prepare("cargo build"),
        SetupError::HistoricalBinaries { cause: BuilderError::CargoBuild(_) }
    ));
    assert!(matches!(
        prepare("canonicalize"),
        SetupError::Canonicalize { source, .. } if source == "gone"
    ));
}

#[test]
fn manager_is_built_from_a_fresh_clone() {
    let mut host = Host::new();
    host.write("/build", "old");
    let root = "/build".to_string();
    let path = host
        .drive(|j| build_rollup_manager_binary(&root, j))
        .unwrap();
    assert_eq!(path, "/abs/build/repo/target/release/sov-rollup-manager");
    assert_eq!(host.log[0], "rmdir /build");
    assert_eq!(host.log[1], "mkdir /build");
    assert!(host.log[2].starts_with("git clone --depth 1 --branch master "));
    assert_eq!(host.log[3], "cargo build --release --bin sov-rollup-manager");

    let mut host = Host::new();
    host.failing = Some("cargo build");
    assert!(matches!(
        host.drive(|j| build_rollup_manager_binary(&root, j)),
        Err(SetupError::CommandFailed { context, status: ExitStatus::Exited(1), stdout, stderr })
            if context == "build sov-rollup-manager" && stdout == "out" && stderr == "err"
    ));
}

#[test]
fn files_are_read_at_a_commit() {
    let mut host = Host::new();
    let read = |commit: &'static str, host: &mut Host| {
        host.drive(|j| {
            read_text_file_at_commit("/cache".to_string(), "/remote".to_string(), commit, "a.md", j)
        })
    };
    assert_eq!(read("abc", &mut host).unwrap(), "/cache /remote abc a.md");
    assert!(matches!(
        read("bad", &mut host),
        Err(SetupError::ReadAtCommit { path, commit, source })
            if path == "a.md" && commit == "bad" && source == "unknown commit"
    ));
}

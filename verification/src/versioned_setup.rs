//! Setup of a sequence of rollup versions: which commits to run, and their binaries.
use vstd::prelude::*;

use crate::artifact_builder::{
    all_artifact_paths, artifact_paths, artifacts_from_the_replies_read, prepare_artifacts,
    BuildRequest, BuildSpec, BuildTarget, BuildTargets, BuilderView, PreparedVersionArtifacts,
    TargetView, TargetsView, VersionBuildSpec,
};
use crate::build_cache::{
    built_binary, built_binary_path, cached_binary, cargo_command, command, BuilderError,
};
use crate::config::FileRead;
use crate::journal::{
    command_at, flag_at, outcome, status_at, text_at, version_spec_at, version_vars_at, HostCall,
    HostCallView, HostReply, Journal, Outcome, Stop,
};
use crate::path::{join_path, joined_path};
use crate::process::{no_args, push_arg, CommandOutcome, CommandSpec, CommandView, ExitStatus};
use crate::text::{trim_text, trimmed};

verus! {

/// The name of the file that lists the versions.
pub const VERSION_SPEC_FILE: &'static str = "versions.yaml";

/// The key under which a vars file holds its commit hash.
pub const VERSION_VARS_COMMIT_KEY: &'static str = "rollup_commit_hash";

/// The repository of the rollup manager.
pub const ROLLUP_MANAGER_REPO_URL: &'static str =
    "https://github.com/Sovereign-Labs/sov-rollup-manager";

/// The branch that the rollup manager is built from.
pub const ROLLUP_MANAGER_BRANCH: &'static str = "master";

/// Where a version's binary comes from. In contracts a text is `Seq<char>`.
#[derive(Debug, PartialEq, Eq)]
pub enum BinarySource<S = String> {
    RemoteCommit(S),
    LocalHead,
}

impl DeepView for BinarySource {
    type V = BinarySource<Seq<char>>;

    open spec fn deep_view(&self) -> BinarySource<Seq<char>> {
        match *self {
            BinarySource::RemoteCommit(commit) => BinarySource::RemoteCommit(commit@),
            BinarySource::LocalHead => BinarySource::LocalHead,
        }
    }
}

impl Clone for BinarySource {
    fn clone(&self) -> (r: Self)
        ensures
            r == *self,
    {
        match self {
            BinarySource::RemoteCommit(commit) => BinarySource::RemoteCommit(commit.clone()),
            BinarySource::LocalHead => BinarySource::LocalHead,
        }
    }
}

/// A version with the source of its binary. In contracts a text is `Seq<char>`.
#[derive(Debug, PartialEq, Eq)]
pub struct ResolvedVersion<S = String> {
    pub version_id: S,
    pub config_commit: Option<S>,
    pub binary_source: BinarySource<S>,
    pub start_height: Option<u64>,
    pub stop_height: Option<u64>,
    pub migration_path: Option<S>,
}

impl DeepView for ResolvedVersion {
    type V = ResolvedVersion<Seq<char>>;

    open spec fn deep_view(&self) -> ResolvedVersion<Seq<char>> {
        ResolvedVersion {
            version_id: self.version_id@,
            config_commit: self.config_commit.deep_view(),
            binary_source: self.binary_source.deep_view(),
            start_height: self.start_height,
            stop_height: self.stop_height,
            migration_path: self.migration_path.deep_view(),
        }
    }
}

/// How the binaries of a sequence of versions are built.
#[derive(Debug)]
pub struct RollupBinaryBuildConfig {
    pub repo_url: String,
    pub cache_dir: String,
    pub local_rollup_root: String,
    pub target: BuildTarget,
}

/// A version with its binary. In contracts a text is `Seq<char>`.
#[derive(Debug)]
pub struct PreparedRollupVersion<S = String> {
    pub version_id: S,
    pub config_commit: Option<S>,
    pub binary_source: BinarySource<S>,
    pub rollup_binary: S,
    pub start_height: Option<u64>,
    pub stop_height: Option<u64>,
    pub migration_path: Option<S>,
}

impl DeepView for PreparedRollupVersion {
    type V = PreparedRollupVersion<Seq<char>>;

    open spec fn deep_view(&self) -> PreparedRollupVersion<Seq<char>> {
        PreparedRollupVersion {
            version_id: self.version_id@,
            config_commit: self.config_commit.deep_view(),
            binary_source: self.binary_source.deep_view(),
            rollup_binary: self.rollup_binary@,
            start_height: self.start_height,
            stop_height: self.stop_height,
            migration_path: self.migration_path.deep_view(),
        }
    }
}

/// An entry of the file that lists the versions.
#[derive(Debug)]
pub struct VersionSpecEntry {
    pub version_id: String,
    pub vars_file: String,
    pub start_height: Option<u64>,
    pub stop_height: Option<u64>,
    pub migration_path: Option<String>,
}

impl Clone for VersionSpecEntry {
    fn clone(&self) -> (r: Self)
        ensures
            r == *self,
    {
        VersionSpecEntry {
            version_id: self.version_id.clone(),
            vars_file: self.vars_file.clone(),
            start_height: self.start_height,
            stop_height: self.stop_height,
            migration_path: match &self.migration_path {
                Some(path) => Some(path.clone()),
                None => None,
            },
        }
    }
}

/// A copy of a list of entries.
pub fn copy_entries(entries: &Vec<VersionSpecEntry>) -> (r: Vec<VersionSpecEntry>)
    ensures
        r@ == entries@,
{
    let mut r: Vec<VersionSpecEntry> = Vec::new();
    let mut i: usize = 0;
    while i < entries.len()
        invariant
            i <= entries.len(),
            r@ == entries@.take(i as int),
        decreases entries.len() - i,
    {
        r.push(entries[i].clone());
        assert(entries@.take(i + 1) =~= entries@.take(i as int).push(entries@[i as int]));
        i = i + 1;
    }
    assert(entries@.take(i as int) =~= entries@);
    r
}

/// Why a setup step failed. In contracts a text is `Seq<char>`.
#[derive(Debug)]
pub enum SetupError<S = String> {
    /// The file that lists the versions could not be read.
    ReadSpec { path: S, source: S },
    /// The file that lists the versions could not be decoded.
    ParseSpec { path: S, source: S },
    /// A version's vars file could not be read.
    ReadVars { version_id: S, path: S, source: S },
    /// A version's vars file could not be decoded.
    ParseVars { version_id: S, path: S, source: S },
    /// A version's vars file holds no commit hash.
    EmptyCommit { version_id: S, path: S },
    /// A directory could not be created.
    CreateDir { path: S, source: S },
    /// A directory could not be removed.
    RemoveDir { path: S, source: S },
    /// The binaries of the historical versions could not be prepared.
    HistoricalBinaries { cause: BuilderError<S> },
    /// There is no binary for a commit.
    MissingArtifact { commit: S },
    /// The path of a commit's binary could not be resolved.
    CanonicalizeBinary { commit: S, source: S },
    /// The path of a version's migration could not be resolved.
    CanonicalizeMigration { version_id: S, source: S },
    /// A path could not be resolved.
    Canonicalize { path: S, source: S },
    /// A step's command could not be started.
    Spawn { context: S, source: S },
    /// A step's command failed.
    CommandFailed { context: S, status: ExitStatus, stdout: S, stderr: S },
    /// Cargo could not be started.
    SpawnCargo { root: S, source: S },
    /// A build left no manager binary.
    ManagerBinaryNotFound { path: S },
    /// A build left no rollup binary.
    LocalBinaryNotFound { path: S },
    /// A file could not be read at a commit.
    ReadAtCommit { path: S, commit: S, source: S },
}

impl DeepView for SetupError {
    type V = SetupError<Seq<char>>;

    open spec fn deep_view(&self) -> SetupError<Seq<char>> {
        match *self {
            SetupError::ReadSpec { path, source } => SetupError::ReadSpec {
                path: path@,
                source: source@,
            },
            SetupError::ParseSpec { path, source } => SetupError::ParseSpec {
                path: path@,
                source: source@,
            },
            SetupError::ReadVars { version_id, path, source } => SetupError::ReadVars {
                version_id: version_id@,
                path: path@,
                source: source@,
            },
            SetupError::ParseVars { version_id, path, source } => SetupError::ParseVars {
                version_id: version_id@,
                path: path@,
                source: source@,
            },
            SetupError::EmptyCommit { version_id, path } => SetupError::EmptyCommit {
                version_id: version_id@,
                path: path@,
            },
            SetupError::CreateDir { path, source } => SetupError::CreateDir {
                path: path@,
                source: source@,
            },
            SetupError::RemoveDir { path, source } => SetupError::RemoveDir {
                path: path@,
                source: source@,
            },
            SetupError::HistoricalBinaries { cause } => SetupError::HistoricalBinaries {
                cause: cause.deep_view(),
            },
            SetupError::MissingArtifact { commit } => SetupError::MissingArtifact {
                commit: commit@,
            },
            SetupError::CanonicalizeBinary { commit, source } => SetupError::CanonicalizeBinary {
                commit: commit@,
                source: source@,
            },
            SetupError::CanonicalizeMigration { version_id, source } =>
                SetupError::CanonicalizeMigration { version_id: version_id@, source: source@ },
            SetupError::Canonicalize { path, source } => SetupError::Canonicalize {
                path: path@,
                source: source@,
            },
            SetupError::Spawn { context, source } => SetupError::Spawn {
                context: context@,
                source: source@,
            },
            SetupError::CommandFailed { context, status, stdout, stderr } =>
                SetupError::CommandFailed {
                context: context@,
                status,
                stdout: stdout@,
                stderr: stderr@,
            },
            SetupError::SpawnCargo { root, source } => SetupError::SpawnCargo {
                root: root@,
                source: source@,
            },
            SetupError::ManagerBinaryNotFound { path } => SetupError::ManagerBinaryNotFound {
                path: path@,
            },
            SetupError::LocalBinaryNotFound { path } => SetupError::LocalBinaryNotFound {
                path: path@,
            },
            SetupError::ReadAtCommit { path, commit, source } => SetupError::ReadAtCommit {
                path: path@,
                commit: commit@,
                source: source@,
            },
        }
    }
}

/// The rollup that is resynced: it runs on Celestia, with proofs mocked.
pub fn resync_rollup_target() -> (t: BuildTarget)
    ensures
        t.deep_view() == (TargetView {
            package: Some("rollup-starter"@),
            bin: "rollup"@,
            cache_name: Some("rollup-celestia-mock-zkvm"@),
            no_default_features: true,
            features: seq!["celestia_da"@, "mock_zkvm"@],
            extra_args: seq![],
        }),
{
    let mut features = no_args();
    push_arg(&mut features, "celestia_da");
    push_arg(&mut features, "mock_zkvm");
    BuildTarget {
        package: Some("rollup-starter".to_string()),
        bin: "rollup".to_string(),
        cache_name: Some("rollup-celestia-mock-zkvm".to_string()),
        no_default_features: true,
        features,
        extra_args: no_args(),
    }
}

/// A path, taken relative to `root` unless it is absolute.
fn absolutize(root: &str, path: &str) -> (r: String)
    ensures
        r@ == joined_path(root@, path@),
{
    join_path(root, path)
}

/// The version that stands for the local checkout alone.
pub open spec fn head_version() -> ResolvedVersion<Seq<char>> {
    ResolvedVersion {
        version_id: "head"@,
        config_commit: None,
        binary_source: BinarySource::LocalHead,
        start_height: None,
        stop_height: None,
        migration_path: None,
    }
}

/// A listed version, with the commit hash that its vars file holds.
pub open spec fn entry_version(dir: Seq<char>, entry: VersionSpecEntry, commit: Seq<char>)
    -> ResolvedVersion<Seq<char>> {
    ResolvedVersion {
        version_id: entry.version_id@,
        config_commit: Some(commit),
        binary_source: BinarySource::RemoteCommit(commit),
        start_height: entry.start_height,
        stop_height: entry.stop_height,
        migration_path: match entry.migration_path {
            Some(path) => Some(joined_path(dir, path@)),
            None => None,
        },
    }
}

/// A listed version, resolved by its vars file.
pub open spec fn entry_resolved(
    dir: Seq<char>,
    entry: VersionSpecEntry,
    replies: Seq<HostReply>,
    at: nat,
) -> Outcome<ResolvedVersion<Seq<char>>, SetupError<Seq<char>>> {
    let version_id = entry.version_id@;
    let path = joined_path(dir, entry.vars_file@);
    match version_vars_at(replies, at) {
        None => Outcome::Asks(HostCallView::ReadVersionVars { path }, at),
        Some(FileRead::Unreadable(m)) => Outcome::Fails(
            SetupError::ReadVars { version_id, path, source: m@ },
            at + 1,
        ),
        Some(FileRead::Malformed(m)) => Outcome::Fails(
            SetupError::ParseVars { version_id, path, source: m@ },
            at + 1,
        ),
        Some(FileRead::Parsed(hash)) => {
            let commit = trimmed(hash@);
            if commit.len() == 0 {
                Outcome::Fails(SetupError::EmptyCommit { version_id, path }, at + 1)
            } else {
                Outcome::Gives(entry_version(dir, entry, commit), at + 1)
            }
        },
    }
}

/// The listed versions, resolved one after the other, where those before them are `done`.
pub open spec fn entries_resolved(
    dir: Seq<char>,
    entries: Seq<VersionSpecEntry>,
    done: Seq<ResolvedVersion<Seq<char>>>,
    replies: Seq<HostReply>,
    at: nat,
) -> Outcome<Seq<ResolvedVersion<Seq<char>>>, SetupError<Seq<char>>>
    decreases entries.len(),
{
    if entries.len() == 0 {
        Outcome::Gives(done, at)
    } else {
        match entry_resolved(dir, entries[0], replies, at) {
            Outcome::Asks(call, stop) => Outcome::Asks(call, stop),
            Outcome::Fails(e, next) => Outcome::Fails(e, next),
            Outcome::Gives(version, next) => entries_resolved(
                dir,
                entries.skip(1),
                done.push(version),
                replies,
                next,
            ),
        }
    }
}

/// The versions with the last one run from the local checkout.
pub open spec fn ending_in_head(versions: Seq<ResolvedVersion<Seq<char>>>) -> Seq<
    ResolvedVersion<Seq<char>>,
> {
    if versions.len() == 0 {
        seq![head_version()]
    } else {
        versions.drop_last().push(
            ResolvedVersion {
                config_commit: None,
                binary_source: BinarySource::LocalHead,
                ..versions.last()
            },
        )
    }
}

/// The versions that a directory lists, or the local checkout alone where it lists none.
pub open spec fn versions_loaded(dir: Seq<char>, replies: Seq<HostReply>, at: nat) -> Outcome<
    Seq<ResolvedVersion<Seq<char>>>,
    SetupError<Seq<char>>,
> {
    let path = joined_path(dir, VERSION_SPEC_FILE@);
    match flag_at(replies, at) {
        None => Outcome::Asks(HostCallView::PathExists { path }, at),
        Some(false) => Outcome::Gives(seq![head_version()], at + 1),
        Some(true) => match version_spec_at(replies, at + 1) {
            None => Outcome::Asks(HostCallView::ReadVersionSpec { path }, at + 1),
            Some(FileRead::Unreadable(m)) => Outcome::Fails(
                SetupError::ReadSpec { path, source: m@ },
                at + 2,
            ),
            Some(FileRead::Malformed(m)) => Outcome::Fails(
                SetupError::ParseSpec { path, source: m@ },
                at + 2,
            ),
            Some(FileRead::Parsed(entries)) => match entries_resolved(
                dir,
                entries,
                seq![],
                replies,
                at + 2,
            ) {
                Outcome::Asks(call, stop) => Outcome::Asks(call, stop),
                Outcome::Fails(e, next) => Outcome::Fails(e, next),
                Outcome::Gives(versions, next) => Outcome::Gives(ending_in_head(versions), next),
            },
        },
    }
}

fn local_head() -> (v: ResolvedVersion)
    ensures
        v.deep_view() == head_version(),
{
    ResolvedVersion {
        version_id: "head".to_string(),
        config_commit: None,
        binary_source: BinarySource::LocalHead,
        start_height: None,
        stop_height: None,
        migration_path: None,
    }
}

fn resolve_entry(dir: &String, entry: &VersionSpecEntry, journal: &mut Journal) -> (r: Result<
    ResolvedVersion,
    Stop<SetupError>,
>)
    ensures
        outcome(r, *final(journal)) == entry_resolved(
            dir@,
            *entry,
            old(journal).replies@,
            old(journal).next as nat,
        ),
        final(journal).replies == old(journal).replies,
{
    let version_id = entry.version_id.clone();
    let path = absolutize(dir, &entry.vars_file);
    match journal.ask_version_vars(path.clone())? {
        FileRead::Unreadable(source) => Err(
            Stop::Fail(SetupError::ReadVars { version_id, path, source }),
        ),
        FileRead::Malformed(source) => Err(
            Stop::Fail(SetupError::ParseVars { version_id, path, source }),
        ),
        FileRead::Parsed(hash) => {
            let commit = trim_text(hash.as_str());
            if commit.as_str().unicode_len() == 0 {
                return Err(Stop::Fail(SetupError::EmptyCommit { version_id, path }));
            }
            let migration_path = match &entry.migration_path {
                Some(migration) => Some(absolutize(dir, migration)),
                None => None,
            };
            Ok(
                ResolvedVersion {
                    version_id,
                    config_commit: Some(commit.clone()),
                    binary_source: BinarySource::RemoteCommit(commit),
                    start_height: entry.start_height,
                    stop_height: entry.stop_height,
                    migration_path,
                },
            )
        },
    }
}

/// Loads the versions that a directory lists, with the last one run from the local checkout.
pub fn load_versions_replacing_last_with_local_head(
    version_spec_dir: &String,
    journal: &mut Journal,
) -> (r: Result<Vec<ResolvedVersion>, Stop<SetupError>>)
    ensures
        outcome(r, *final(journal)) == versions_loaded(
            version_spec_dir@,
            old(journal).replies@,
            old(journal).next as nat,
        ),
        final(journal).replies == old(journal).replies,
{
    let path = join_path(version_spec_dir, VERSION_SPEC_FILE);
    let mut versions: Vec<ResolvedVersion> = Vec::new();
    assert(versions.deep_view() =~= seq![]);
    if !journal.ask_flag(HostCall::PathExists { path: path.clone() })? {
        versions.push(local_head());
        assert(versions.deep_view() =~= seq![head_version()]);
        return Ok(versions);
    }
    let entries = match journal.ask_version_spec(path.clone())? {
        FileRead::Unreadable(source) => {
            return Err(Stop::Fail(SetupError::ReadSpec { path, source }));
        },
        FileRead::Malformed(source) => {
            return Err(Stop::Fail(SetupError::ParseSpec { path, source }));
        },
        FileRead::Parsed(entries) => entries,
    };

    let ghost dir = version_spec_dir@;
    let ghost replies = journal.replies@;
    let ghost whole = entries_resolved(dir, entries@, seq![], replies, journal.next as nat);
    let mut i: usize = 0;
    assert(entries@.skip(0) =~= entries@);
    assert(versions_loaded(dir, replies, old(journal).next as nat) == match whole {
        Outcome::Gives(v, next) => Outcome::Gives(ending_in_head(v), next),
        _ => whole,
    });
    while i < entries.len()
        invariant
            i <= entries.len(),
            dir == version_spec_dir@,
            replies == journal.replies@,
            journal.replies == old(journal).replies,
            versions_loaded(dir, replies, old(journal).next as nat) == (match whole {
                Outcome::Gives(v, next) => Outcome::Gives(ending_in_head(v), next),
                _ => whole,
            }),
            whole == entries_resolved(
                dir,
                entries@.skip(i as int),
                versions.deep_view(),
                replies,
                journal.next as nat,
            ),
        decreases entries.len() - i,
    {
        let ghost done = versions.deep_view();
        assert(entries@.skip(i as int).skip(1) =~= entries@.skip(i + 1));
        let version = resolve_entry(version_spec_dir, &entries[i], journal)?;
        versions.push(version);
        assert(versions.deep_view() =~= done.push(version.deep_view()));
        i = i + 1;
    }

    let ghost resolved = versions.deep_view();
    match versions.pop() {
        None => {
            versions.push(local_head());
            assert(versions.deep_view() =~= seq![head_version()]);
        },
        Some(last) => {
            let ghost earlier = versions.deep_view();
            assert(earlier =~= resolved.drop_last());
            assert(last.deep_view() == resolved.last());
            let last = ResolvedVersion {
                version_id: last.version_id,
                config_commit: None,
                binary_source: BinarySource::LocalHead,
                start_height: last.start_height,
                stop_height: last.stop_height,
                migration_path: last.migration_path,
            };
            versions.push(last);
            assert(versions.deep_view() =~= earlier.push(last.deep_view()));
        },
    }
    Ok(versions)
}

proof fn entries_resolve_in_order(
    dir: Seq<char>,
    entries: Seq<VersionSpecEntry>,
    done: Seq<ResolvedVersion<Seq<char>>>,
    replies: Seq<HostReply>,
    at: nat,
)
    ensures
        entries_resolved(dir, entries, done, replies, at) matches Outcome::Gives(versions, _) ==> {
            &&& versions.len() == done.len() + entries.len()
            &&& forall|i: int| 0 <= i < done.len() ==> versions[i] == done[i]
            &&& forall|i: int|
                done.len() <= i < versions.len() ==> {
                    let e = entries[i - done.len()];
                    &&& (#[trigger] versions[i]).config_commit is Some
                    &&& versions[i].config_commit->0.len() > 0
                    &&& versions[i] == entry_version(dir, e, versions[i].config_commit->0)
                }
        },
    decreases entries.len(),
{
    if entries.len() > 0 {
        match entry_resolved(dir, entries[0], replies, at) {
            Outcome::Gives(version, next) => {
                let more = done.push(version);
                entries_resolve_in_order(dir, entries.skip(1), more, replies, next);
                match entries_resolved(dir, entries, done, replies, at) {
                    Outcome::Gives(versions, _) => {
                        assert forall|i: int| 0 <= i < done.len() implies versions[i]
                            == done[i] by {
                            assert(versions[i] == more[i]);
                        }
                        assert(versions[done.len() as int] == more[done.len() as int]);
                    },
                    _ => {},
                }
            },
            _ => {},
        }
    }
}

/// Whatever a directory lists, there is a version to run, and the last one runs the local
/// checkout; every other one runs the non-empty commit that its configuration comes from.
pub proof fn last_version_runs_local_head(dir: Seq<char>, replies: Seq<HostReply>, at: nat)
    ensures
        versions_loaded(dir, replies, at) matches Outcome::Gives(versions, _) ==> {
            &&& versions.len() > 0
            &&& versions.last().binary_source is LocalHead
            &&& versions.last().config_commit is None
            &&& forall|i: int|
                0 <= i < versions.len() - 1 ==> {
                    &&& (#[trigger] versions[i]).config_commit is Some
                    &&& versions[i].config_commit->0.len() > 0
                    &&& versions[i].binary_source == BinarySource::RemoteCommit(
                        versions[i].config_commit->0,
                    )
                }
        },
        version_spec_at(replies, at + 1) matches Some(FileRead::Parsed(entries)) ==> (
        versions_loaded(dir, replies, at) matches Outcome::Gives(versions, _) ==> (flag_at(
            replies,
            at,
        ) == Some(true) && entries.len() > 0 ==> {
            &&& versions.len() == entries.len()
            &&& forall|i: int|
                0 <= i < entries.len() ==> {
                    &&& (#[trigger] versions[i]).version_id == entries[i].version_id@
                    &&& versions[i].start_height == entries[i].start_height
                    &&& versions[i].stop_height == entries[i].stop_height
                }
        })),
{
    match version_spec_at(replies, at + 1) {
        Some(FileRead::Parsed(entries)) => {
            entries_resolve_in_order(dir, entries, seq![], replies, at + 2);
        },
        _ => {},
    }
}

/// A step's command, which has to succeed.
pub open spec fn checked(
    command: CommandView,
    context: Seq<char>,
    replies: Seq<HostReply>,
    at: nat,
) -> Outcome<(), SetupError<Seq<char>>> {
    match command_at(replies, at) {
        None => Outcome::Asks(HostCallView::Run { command }, at),
        Some(CommandOutcome::NotStarted(m)) => Outcome::Fails(
            SetupError::Spawn { context, source: m@ },
            at + 1,
        ),
        Some(CommandOutcome::Finished(output)) => if output.status.succeeded() {
            Outcome::Gives((), at + 1)
        } else {
            Outcome::Fails(
                SetupError::CommandFailed {
                    context,
                    status: output.status,
                    stdout: output.stdout@,
                    stderr: output.stderr@,
                },
                at + 1,
            )
        },
    }
}

fn run_checked(command: CommandSpec, context: &str, journal: &mut Journal) -> (r: Result<
    (),
    Stop<SetupError>,
>)
    ensures
        outcome(r, *final(journal)) == checked(
            command@,
            context@,
            old(journal).replies@,
            old(journal).next as nat,
        ),
        final(journal).replies == old(journal).replies,
{
    match journal.ask_run(command)? {
        CommandOutcome::NotStarted(source) => Err(
            Stop::Fail(SetupError::Spawn { context: context.to_string(), source }),
        ),
        CommandOutcome::Finished(output) => {
            if output.status.success() {
                return Ok(());
            }
            Err(
                Stop::Fail(
                    SetupError::CommandFailed {
                        context: context.to_string(),
                        status: output.status,
                        stdout: output.stdout,
                        stderr: output.stderr,
                    },
                ),
            )
        },
    }
}

/// The absolute form of a path.
pub open spec fn resolved_path(path: Seq<char>, replies: Seq<HostReply>, at: nat) -> Outcome<
    Seq<char>,
    SetupError<Seq<char>>,
> {
    match text_at(replies, at) {
        None => Outcome::Asks(HostCallView::Canonicalize { path }, at),
        Some(Err(m)) => Outcome::Fails(SetupError::Canonicalize { path, source: m@ }, at + 1),
        Some(Ok(absolute)) => Outcome::Gives(absolute@, at + 1),
    }
}

fn resolve_path(path: String, journal: &mut Journal) -> (r: Result<String, Stop<SetupError>>)
    ensures
        outcome(r, *final(journal)) == resolved_path(
            path@,
            old(journal).replies@,
            old(journal).next as nat,
        ),
        final(journal).replies == old(journal).replies,
{
    match journal.ask_text(HostCall::Canonicalize { path: path.clone() })? {
        Ok(absolute) => Ok(absolute),
        Err(source) => Err(Stop::Fail(SetupError::Canonicalize { path, source })),
    }
}

/// A directory that is empty: what was there before is removed.
pub open spec fn emptied(root: Seq<char>, replies: Seq<HostReply>, at: nat) -> Outcome<
    (),
    SetupError<Seq<char>>,
> {
    let removed = match flag_at(replies, at) {
        None => Outcome::Asks(HostCallView::PathExists { path: root }, at),
        Some(false) => Outcome::Gives((), at + 1),
        Some(true) => match status_at(replies, at + 1) {
            None => Outcome::Asks(HostCallView::RemoveDirAll { path: root }, at + 1),
            Some(Err(m)) => Outcome::Fails(SetupError::RemoveDir { path: root, source: m@ }, at + 2),
            Some(Ok(())) => Outcome::Gives((), at + 2),
        },
    };
    match removed {
        Outcome::Gives(_, next) => match status_at(replies, next) {
            None => Outcome::Asks(HostCallView::CreateDirAll { path: root }, next),
            Some(Err(m)) => Outcome::Fails(SetupError::CreateDir { path: root, source: m@ }, next + 1),
            Some(Ok(())) => Outcome::Gives((), next + 1),
        },
        stopped => stopped,
    }
}

fn empty_dir(root: &String, journal: &mut Journal) -> (r: Result<(), Stop<SetupError>>)
    ensures
        outcome(r, *final(journal)) == emptied(
            root@,
            old(journal).replies@,
            old(journal).next as nat,
        ),
        final(journal).replies == old(journal).replies,
{
    if journal.ask_flag(HostCall::PathExists { path: root.clone() })? {
        match journal.ask_status(HostCall::RemoveDirAll { path: root.clone() })? {
            Ok(()) => {},
            Err(source) => {
                return Err(Stop::Fail(SetupError::RemoveDir { path: root.clone(), source }));
            },
        }
    }
    match journal.ask_status(HostCall::CreateDirAll { path: root.clone() })? {
        Ok(()) => Ok(()),
        Err(source) => Err(Stop::Fail(SetupError::CreateDir { path: root.clone(), source })),
    }
}

/// The clone of the rollup manager.
pub open spec fn manager_clone_command(root: Seq<char>, repo_url: Seq<char>, branch: Seq<char>)
    -> CommandView {
    CommandView {
        program: "git"@,
        args: seq![
            "clone"@,
            "--depth"@,
            "1"@,
            "--branch"@,
            branch,
            repo_url,
            joined_path(root, "repo"@),
        ],
        current_dir: None,
    }
}

/// The build of the rollup manager.
pub open spec fn manager_build_args() -> Seq<Seq<char>> {
    seq!["build"@, "--release"@, "--bin"@, "sov-rollup-manager"@]
}

/// The manager is cloned afresh and built; its binary's absolute path.
pub open spec fn manager_built(
    root: Seq<char>,
    repo_url: Seq<char>,
    branch: Seq<char>,
    replies: Seq<HostReply>,
    at: nat,
) -> Outcome<Seq<char>, SetupError<Seq<char>>> {
    let repo = joined_path(root, "repo"@);
    let binary = joined_path(repo, "target/release/sov-rollup-manager"@);
    match emptied(root, replies, at) {
        Outcome::Asks(call, stop) => Outcome::Asks(call, stop),
        Outcome::Fails(e, next) => Outcome::Fails(e, next),
        Outcome::Gives(_, empty) => match checked(
            manager_clone_command(root, repo_url, branch),
            "clone sov-rollup-manager"@,
            replies,
            empty,
        ) {
            Outcome::Asks(call, stop) => Outcome::Asks(call, stop),
            Outcome::Fails(e, next) => Outcome::Fails(e, next),
            Outcome::Gives(_, cloned) => match checked(
                cargo_command(repo, manager_build_args()),
                "build sov-rollup-manager"@,
                replies,
                cloned,
            ) {
                Outcome::Asks(call, stop) => Outcome::Asks(call, stop),
                Outcome::Fails(e, next) => Outcome::Fails(e, next),
                Outcome::Gives(_, built) => match flag_at(replies, built) {
                    None => Outcome::Asks(HostCallView::PathExists { path: binary }, built),
                    Some(false) => Outcome::Fails(
                        SetupError::ManagerBinaryNotFound { path: binary },
                        built + 1,
                    ),
                    Some(true) => resolved_path(binary, replies, built + 1),
                },
            },
        },
    }
}

/// Builds the rollup manager from its repository.
pub fn build_rollup_manager_binary(manager_build_root: &String, journal: &mut Journal) -> (r:
    Result<String, Stop<SetupError>>)
    ensures
        outcome(r, *final(journal)) == manager_built(
            manager_build_root@,
            ROLLUP_MANAGER_REPO_URL@,
            ROLLUP_MANAGER_BRANCH@,
            old(journal).replies@,
            old(journal).next as nat,
        ),
        final(journal).replies == old(journal).replies,
{
    build_rollup_manager_binary_from(
        manager_build_root,
        ROLLUP_MANAGER_REPO_URL,
        ROLLUP_MANAGER_BRANCH,
        journal,
    )
}

/// Builds the rollup manager from a branch of a repository.
pub fn build_rollup_manager_binary_from(
    manager_build_root: &String,
    repo_url: &str,
    branch: &str,
    journal: &mut Journal,
) -> (r: Result<String, Stop<SetupError>>)
    ensures
        outcome(r, *final(journal)) == manager_built(
            manager_build_root@,
            repo_url@,
            branch@,
            old(journal).replies@,
            old(journal).next as nat,
        ),
        final(journal).replies == old(journal).replies,
{
    empty_dir(manager_build_root, journal)?;

    let repo = join_path(manager_build_root, "repo");
    let mut args = no_args();
    push_arg(&mut args, "clone");
    push_arg(&mut args, "--depth");
    push_arg(&mut args, "1");
    push_arg(&mut args, "--branch");
    push_arg(&mut args, branch);
    push_arg(&mut args, repo_url);
    push_arg(&mut args, repo.as_str());
    let clone = command("git", args, None);
    assert(clone@ =~= manager_clone_command(manager_build_root@, repo_url@, branch@));
    run_checked(clone, "clone sov-rollup-manager", journal)?;

    let mut args = no_args();
    push_arg(&mut args, "build");
    push_arg(&mut args, "--release");
    push_arg(&mut args, "--bin");
    push_arg(&mut args, "sov-rollup-manager");
    let binary = join_path(repo.as_str(), "target/release/sov-rollup-manager");
    let ghost dir = repo@;
    let build = command("cargo", args, Some(repo));
    assert(build@ =~= cargo_command(dir, manager_build_args()));
    run_checked(build, "build sov-rollup-manager", journal)?;

    if !journal.ask_flag(HostCall::PathExists { path: binary.clone() })? {
        return Err(Stop::Fail(SetupError::ManagerBinaryNotFound { path: binary }));
    }
    resolve_path(binary, journal)
}

/// A file's text at a commit of a repository.
pub open spec fn text_at_commit(
    cache_dir: Seq<char>,
    repo_url: Seq<char>,
    commit: Seq<char>,
    path: Seq<char>,
    replies: Seq<HostReply>,
    at: nat,
) -> Outcome<Seq<char>, SetupError<Seq<char>>> {
    match text_at(replies, at) {
        None => Outcome::Asks(
            HostCallView::ReadTextAtCommit { cache_dir, repo_url, commit, path },
            at,
        ),
        Some(Err(m)) => Outcome::Fails(SetupError::ReadAtCommit { path, commit, source: m@ }, at + 1),
        Some(Ok(text)) => Outcome::Gives(text@, at + 1),
    }
}

/// Reads a text file at a commit of a repository.
pub fn read_text_file_at_commit(
    cache_dir: String,
    repo_url: String,
    commit: &str,
    path: &str,
    journal: &mut Journal,
) -> (r: Result<String, Stop<SetupError>>)
    ensures
        outcome(r, *final(journal)) == text_at_commit(
            cache_dir@,
            repo_url@,
            commit@,
            path@,
            old(journal).replies@,
            old(journal).next as nat,
        ),
        final(journal).replies == old(journal).replies,
{
    let call = HostCall::ReadTextAtCommit {
        cache_dir,
        repo_url,
        commit: commit.to_string(),
        path: path.to_string(),
    };
    match journal.ask_text(call)? {
        Ok(text) => Ok(text),
        Err(source) => Err(
            Stop::Fail(
                SetupError::ReadAtCommit {
                    path: path.to_string(),
                    commit: commit.to_string(),
                    source,
                },
            ),
        ),
    }
}

/// The local checkout is built; its binary's absolute path.
pub open spec fn local_built(
    root: Seq<char>,
    target: TargetView,
    replies: Seq<HostReply>,
    at: nat,
) -> Outcome<Seq<char>, SetupError<Seq<char>>> {
    let command = cargo_command(root, target.cargo_args("--package"@));
    let binary = built_binary(root, target.bin);
    match command_at(replies, at) {
        None => Outcome::Asks(HostCallView::Run { command }, at),
        Some(CommandOutcome::NotStarted(m)) => Outcome::Fails(
            SetupError::SpawnCargo { root, source: m@ },
            at + 1,
        ),
        Some(CommandOutcome::Finished(output)) => if !output.status.succeeded() {
            Outcome::Fails(
                SetupError::CommandFailed {
                    context: "build local HEAD rollup binary"@,
                    status: output.status,
                    stdout: output.stdout@,
                    stderr: output.stderr@,
                },
                at + 1,
            )
        } else {
            match flag_at(replies, at + 1) {
                None => Outcome::Asks(HostCallView::PathExists { path: binary }, at + 1),
                Some(false) => Outcome::Fails(SetupError::LocalBinaryNotFound { path: binary }, at + 2),
                Some(true) => resolved_path(binary, replies, at + 2),
            }
        },
    }
}

fn build_local_rollup_binary(
    rollup_root: &String,
    target: &BuildTarget,
    journal: &mut Journal,
) -> (r: Result<String, Stop<SetupError>>)
    ensures
        outcome(r, *final(journal)) == local_built(
            rollup_root@,
            target.deep_view(),
            old(journal).replies@,
            old(journal).next as nat,
        ),
        final(journal).replies == old(journal).replies,
{
    let cargo = command("cargo", target.cargo_args("--package"), Some(rollup_root.clone()));
    assert(cargo@ =~= cargo_command(
        rollup_root@,
        target.deep_view().cargo_args("--package"@),
    ));
    match journal.ask_run(cargo)? {
        CommandOutcome::NotStarted(source) => {
            return Err(Stop::Fail(SetupError::SpawnCargo { root: rollup_root.clone(), source }));
        },
        CommandOutcome::Finished(output) => {
            if !output.status.success() {
                return Err(
                    Stop::Fail(
                        SetupError::CommandFailed {
                            context: "build local HEAD rollup binary".to_string(),
                            status: output.status,
                            stdout: output.stdout,
                            stderr: output.stderr,
                        },
                    ),
                );
            }
        },
    }
    let binary = built_binary_path(rollup_root, &target.bin);
    if !journal.ask_flag(HostCall::PathExists { path: binary.clone() })? {
        return Err(Stop::Fail(SetupError::LocalBinaryNotFound { path: binary }));
    }
    resolve_path(binary, journal)
}

/// What has to be built for the versions that run a commit, in order.
pub open spec fn remote_builds(versions: Seq<ResolvedVersion>) -> Seq<VersionBuildSpec>
    decreases versions.len(),
{
    if versions.len() == 0 {
        seq![]
    } else {
        let earlier = remote_builds(versions.drop_last());
        match versions.last().binary_source {
            BinarySource::RemoteCommit(commit) => earlier.push(
                VersionBuildSpec { commit, build_soak: false },
            ),
            BinarySource::LocalHead => earlier,
        }
    }
}

/// The builder of the binaries of historical versions: it builds the rollup alone.
pub open spec fn history_builder(config: RollupBinaryBuildConfig) -> BuilderView {
    BuilderView {
        cache_dir: config.cache_dir@,
        repo_url: config.repo_url@,
        targets: TargetsView { rollup: config.target.deep_view(), soak: None, mock_da: None },
    }
}

/// The artifacts of the versions that run a commit, in order.
pub open spec fn history_built(
    config: RollupBinaryBuildConfig,
    builds: Seq<VersionBuildSpec>,
    replies: Seq<HostReply>,
    at: nat,
) -> Outcome<Seq<PreparedVersionArtifacts<Seq<char>>>, SetupError<Seq<char>>> {
    match history_builder(config).all_artifacts(builds, false, seq![], replies, at) {
        Outcome::Asks(call, stop) => Outcome::Asks(call, stop),
        Outcome::Fails(e, next) => Outcome::Fails(
            SetupError::HistoricalBinaries { cause: e },
            next,
        ),
        Outcome::Gives(artifacts, next) => Outcome::Gives(artifacts, next),
    }
}

/// The binary of a version, where `artifacts` are those of the versions from it on that run a
/// commit, and `local` is the one of the local checkout.
pub open spec fn version_binary(
    version: ResolvedVersion,
    artifacts: Seq<PreparedVersionArtifacts<Seq<char>>>,
    local: Seq<char>,
    replies: Seq<HostReply>,
    at: nat,
) -> Outcome<Seq<char>, SetupError<Seq<char>>> {
    match version.binary_source {
        BinarySource::LocalHead => Outcome::Gives(local, at),
        BinarySource::RemoteCommit(commit) => if artifacts.len() == 0 {
            Outcome::Fails(SetupError::MissingArtifact { commit: commit@ }, at)
        } else {
            match text_at(replies, at) {
                None => Outcome::Asks(
                    HostCallView::Canonicalize { path: artifacts[0].rollup_binary },
                    at,
                ),
                Some(Err(m)) => Outcome::Fails(
                    SetupError::CanonicalizeBinary { commit: commit@, source: m@ },
                    at + 1,
                ),
                Some(Ok(path)) => Outcome::Gives(path@, at + 1),
            }
        },
    }
}

/// The absolute path of a version's migration, where it has one.
pub open spec fn version_migration(version: ResolvedVersion, replies: Seq<HostReply>, at: nat)
    -> Outcome<Option<Seq<char>>, SetupError<Seq<char>>> {
    match version.migration_path {
        None => Outcome::Gives(None, at),
        Some(path) => match text_at(replies, at) {
            None => Outcome::Asks(HostCallView::Canonicalize { path: path@ }, at),
            Some(Err(m)) => Outcome::Fails(
                SetupError::CanonicalizeMigration {
                    version_id: version.version_id@,
                    source: m@,
                },
                at + 1,
            ),
            Some(Ok(resolved)) => Outcome::Gives(Some(resolved@), at + 1),
        },
    }
}

/// A version with its binary and its migration.
pub open spec fn version_prepared(
    version: ResolvedVersion,
    artifacts: Seq<PreparedVersionArtifacts<Seq<char>>>,
    local: Seq<char>,
    replies: Seq<HostReply>,
    at: nat,
) -> Outcome<PreparedRollupVersion<Seq<char>>, SetupError<Seq<char>>> {
    match version_binary(version, artifacts, local, replies, at) {
        Outcome::Asks(call, stop) => Outcome::Asks(call, stop),
        Outcome::Fails(e, next) => Outcome::Fails(e, next),
        Outcome::Gives(rollup_binary, found) => match version_migration(version, replies, found) {
            Outcome::Asks(call, stop) => Outcome::Asks(call, stop),
            Outcome::Fails(e, next) => Outcome::Fails(e, next),
            Outcome::Gives(migration_path, next) => Outcome::Gives(
                PreparedRollupVersion {
                    version_id: version.version_id@,
                    config_commit: version.config_commit.deep_view(),
                    binary_source: version.binary_source.deep_view(),
                    rollup_binary,
                    start_height: version.start_height,
                    stop_height: version.stop_height,
                    migration_path,
                },
                next,
            ),
        },
    }
}

/// The versions with their binaries, one after the other, where those before them are `done`.
pub open spec fn versions_prepared(
    versions: Seq<ResolvedVersion>,
    artifacts: Seq<PreparedVersionArtifacts<Seq<char>>>,
    local: Seq<char>,
    done: Seq<PreparedRollupVersion<Seq<char>>>,
    replies: Seq<HostReply>,
    at: nat,
) -> Outcome<Seq<PreparedRollupVersion<Seq<char>>>, SetupError<Seq<char>>>
    decreases versions.len(),
{
    if versions.len() == 0 {
        Outcome::Gives(done, at)
    } else {
        match version_prepared(versions[0], artifacts, local, replies, at) {
            Outcome::Asks(call, stop) => Outcome::Asks(call, stop),
            Outcome::Fails(e, next) => Outcome::Fails(e, next),
            Outcome::Gives(version, next) => versions_prepared(
                versions.skip(1),
                if versions[0].binary_source is RemoteCommit {
                    artifacts.skip(1)
                } else {
                    artifacts
                },
                local,
                done.push(version),
                replies,
                next,
            ),
        }
    }
}

/// The cache is made, the historical versions and the local checkout are built, and every version
/// gets its binary.
pub open spec fn binaries_prepared(
    versions: Seq<ResolvedVersion>,
    config: RollupBinaryBuildConfig,
    replies: Seq<HostReply>,
    at: nat,
) -> Outcome<Seq<PreparedRollupVersion<Seq<char>>>, SetupError<Seq<char>>> {
    let path = config.cache_dir@;
    match status_at(replies, at) {
        None => Outcome::Asks(HostCallView::CreateDirAll { path }, at),
        Some(Err(m)) => Outcome::Fails(SetupError::CreateDir { path, source: m@ }, at + 1),
        Some(Ok(())) => match history_built(config, remote_builds(versions), replies, at + 1) {
            Outcome::Asks(call, stop) => Outcome::Asks(call, stop),
            Outcome::Fails(e, next) => Outcome::Fails(e, next),
            Outcome::Gives(artifacts, historical) => match local_built(
                config.local_rollup_root@,
                config.target.deep_view(),
                replies,
                historical,
            ) {
                Outcome::Asks(call, stop) => Outcome::Asks(call, stop),
                Outcome::Fails(e, next) => Outcome::Fails(e, next),
                Outcome::Gives(local, next) => versions_prepared(
                    versions,
                    artifacts,
                    local,
                    seq![],
                    replies,
                    next,
                ),
            },
        },
    }
}

/// Lists what has to be built for the versions that run a commit.
fn list_remote_builds(versions: &Vec<ResolvedVersion>) -> (r: Vec<VersionBuildSpec>)
    ensures
        r@ == remote_builds(versions@),
{
    let mut builds: Vec<VersionBuildSpec> = Vec::new();
    let mut i: usize = 0;
    while i < versions.len()
        invariant
            i <= versions.len(),
            builds@ == remote_builds(versions@.take(i as int)),
        decreases versions.len() - i,
    {
        assert(versions@.take(i + 1).drop_last() =~= versions@.take(i as int));
        match &versions[i].binary_source {
            BinarySource::RemoteCommit(commit) => {
                builds.push(VersionBuildSpec { commit: commit.clone(), build_soak: false });
            },
            BinarySource::LocalHead => {},
        }
        i = i + 1;
    }
    assert(versions@.take(i as int) =~= versions@);
    builds
}

fn build_history(
    config: &RollupBinaryBuildConfig,
    builds: Vec<VersionBuildSpec>,
    journal: &mut Journal,
) -> (r: Result<Vec<PreparedVersionArtifacts>, Stop<SetupError>>)
    ensures
        outcome(r, *final(journal)) == history_built(
            *config,
            builds@,
            old(journal).replies@,
            old(journal).next as nat,
        ),
        final(journal).replies == old(journal).replies,
{
    let spec = BuildSpec {
        repo_url: Some(config.repo_url.clone()),
        targets: BuildTargets { rollup: config.target.clone(), soak: None, mock_da: None },
        versions: builds,
    };
    let request = BuildRequest {
        cache_dir: config.cache_dir.clone(),
        build_soak_binaries: false,
        build_mock_da_binary: false,
    };
    assert(crate::artifact_builder::requested_builder(spec, request) =~= history_builder(*config));
    match prepare_artifacts(&spec, &request, journal) {
        Ok(artifacts) => Ok(artifacts.versions),
        Err(Stop::Ask(call)) => Err(Stop::Ask(call)),
        Err(Stop::Fail(cause)) => Err(Stop::Fail(SetupError::HistoricalBinaries { cause })),
    }
}

fn prepare_version(
    version: &ResolvedVersion,
    artifacts: &Vec<PreparedVersionArtifacts>,
    used: usize,
    local: &String,
    journal: &mut Journal,
) -> (r: Result<PreparedRollupVersion, Stop<SetupError>>)
    requires
        used <= artifacts.len(),
    ensures
        outcome(r, *final(journal)) == version_prepared(
            *version,
            artifacts.deep_view().skip(used as int),
            local@,
            old(journal).replies@,
            old(journal).next as nat,
        ),
        final(journal).replies == old(journal).replies,
{
    let rollup_binary = match &version.binary_source {
        BinarySource::RemoteCommit(commit) => {
            if used == artifacts.len() {
                return Err(Stop::Fail(SetupError::MissingArtifact { commit: commit.clone() }));
            }
            let path = artifacts[used].rollup_binary.clone();
            assert(artifacts.deep_view().skip(used as int)[0].rollup_binary == path@);
            match journal.ask_text(HostCall::Canonicalize { path })? {
                Ok(path) => path,
                Err(source) => {
                    return Err(
                        Stop::Fail(
                            SetupError::CanonicalizeBinary { commit: commit.clone(), source },
                        ),
                    );
                },
            }
        },
        BinarySource::LocalHead => local.clone(),
    };
    let migration_path = match &version.migration_path {
        Some(path) => match journal.ask_text(HostCall::Canonicalize { path: path.clone() })? {
            Ok(path) => Some(path),
            Err(source) => {
                return Err(
                    Stop::Fail(
                        SetupError::CanonicalizeMigration {
                            version_id: version.version_id.clone(),
                            source,
                        },
                    ),
                );
            },
        },
        None => None,
    };
    Ok(
        PreparedRollupVersion {
            version_id: version.version_id.clone(),
            config_commit: version.config_commit.clone(),
            binary_source: version.binary_source.clone(),
            rollup_binary,
            start_height: version.start_height,
            stop_height: version.stop_height,
            migration_path,
        },
    )
}

/// Builds the binaries of all versions.
pub fn prepare_rollup_binaries(
    versions: &Vec<ResolvedVersion>,
    config: &RollupBinaryBuildConfig,
    journal: &mut Journal,
) -> (r: Result<Vec<PreparedRollupVersion>, Stop<SetupError>>)
    ensures
        outcome(r, *final(journal)) == binaries_prepared(
            versions@,
            *config,
            old(journal).replies@,
            old(journal).next as nat,
        ),
        final(journal).replies == old(journal).replies,
{
    match journal.ask_status(HostCall::CreateDirAll { path: config.cache_dir.clone() })? {
        Ok(()) => {},
        Err(source) => {
            let path = config.cache_dir.clone();
            return Err(Stop::Fail(SetupError::CreateDir { path, source }));
        },
    }
    let builds = list_remote_builds(versions);
    let artifacts = build_history(config, builds, journal)?;
    let local = build_local_rollup_binary(&config.local_rollup_root, &config.target, journal)?;

    let ghost all = artifacts.deep_view();
    let ghost replies = journal.replies@;
    let ghost start = journal.next as nat;
    let ghost whole = versions_prepared(versions@, all, local@, seq![], replies, start);
    assert(whole == binaries_prepared(versions@, *config, replies, old(journal).next as nat));
    let mut prepared: Vec<PreparedRollupVersion> = Vec::new();
    let mut used: usize = 0;
    let mut i: usize = 0;
    assert(versions@.skip(0) =~= versions@);
    assert(all.skip(0) =~= all);
    assert(prepared.deep_view() =~= seq![]);
    while i < versions.len()
        invariant
            i <= versions.len(),
            used <= artifacts.len(),
            all == artifacts.deep_view(),
            replies == journal.replies@,
            journal.replies == old(journal).replies,
            whole == binaries_prepared(versions@, *config, replies, old(journal).next as nat),
            whole == versions_prepared(
                versions@.skip(i as int),
                all.skip(used as int),
                local@,
                prepared.deep_view(),
                replies,
                journal.next as nat,
            ),
        decreases versions.len() - i,
    {
        let version = &versions[i];
        let ghost done = prepared.deep_view();
        assert(versions@.skip(i as int)[0] == version);
        assert(versions@.skip(i as int).skip(1) =~= versions@.skip(i + 1));
        let next = prepare_version(version, &artifacts, used, &local, journal)?;
        prepared.push(next);
        assert(prepared.deep_view() =~= done.push(next.deep_view()));
        if let BinarySource::RemoteCommit(_) = &version.binary_source {
            assert(all.skip(used as int).skip(1) =~= all.skip(used + 1));
            used = used + 1;
        }
        i = i + 1;
    }
    Ok(prepared)
}

proof fn remote_builds_from_front(versions: Seq<ResolvedVersion>)
    requires
        versions.len() > 0,
    ensures
        remote_builds(versions) == (match versions[0].binary_source {
            BinarySource::RemoteCommit(commit) => seq![VersionBuildSpec { commit, build_soak: false }],
            BinarySource::LocalHead => seq![],
        }) + remote_builds(versions.skip(1)),
    decreases versions.len(),
{
    if versions.len() > 1 {
        remote_builds_from_front(versions.drop_last());
        assert(versions.drop_last().skip(1) =~= versions.skip(1).drop_last());
    } else {
        assert(versions.drop_last() =~= seq![]);
        assert(versions.skip(1) =~= seq![]);
    }
}

/// The path at which the binary of a version is built: in the cache, under its own commit, or in
/// the local checkout.
pub open spec fn binary_path(version: ResolvedVersion, config: RollupBinaryBuildConfig) -> Seq<char> {
    let target = config.target.deep_view();
    match version.binary_source {
        BinarySource::RemoteCommit(commit) => cached_binary(
            config.cache_dir@,
            commit@,
            target.file_name(),
        ),
        BinarySource::LocalHead => built_binary(config.local_rollup_root@, target.bin),
    }
}

/// Whether the call that the preparation makes after `k` replies is to resolve a path, and what
/// the host replies is `result`.
pub open spec fn resolves_at(
    versions: Seq<ResolvedVersion>,
    config: RollupBinaryBuildConfig,
    replies: Seq<HostReply>,
    at: nat,
    k: nat,
    path: Seq<char>,
    result: Seq<char>,
) -> bool {
    &&& binaries_prepared(versions, config, replies.take(k as int), at) == Outcome::<
        Seq<PreparedRollupVersion<Seq<char>>>,
        SetupError<Seq<char>>,
    >::Asks(HostCallView::Canonicalize { path }, k)
    &&& text_at(replies, k) matches Some(Ok(text)) && text@ == result
}

/// Whether the preparation has the host resolve a path, and gets `result`.
pub open spec fn resolves(
    versions: Seq<ResolvedVersion>,
    config: RollupBinaryBuildConfig,
    replies: Seq<HostReply>,
    at: nat,
    path: Seq<char>,
    result: Seq<char>,
) -> bool {
    exists|k: nat| resolves_at(versions, config, replies, at, k, path, result)
}

/// Whether a prepared version is a version, with its binary and its migration as the host has
/// resolved them.
pub open spec fn is_prepared(
    p: PreparedRollupVersion<Seq<char>>,
    v: ResolvedVersion,
    versions: Seq<ResolvedVersion>,
    config: RollupBinaryBuildConfig,
    replies: Seq<HostReply>,
    at: nat,
) -> bool {
    &&& p.version_id == v.version_id@
    &&& p.config_commit == v.config_commit.deep_view()
    &&& p.binary_source == v.binary_source.deep_view()
    &&& p.start_height == v.start_height
    &&& p.stop_height == v.stop_height
    &&& resolves(versions, config, replies, at, binary_path(v, config), p.rollup_binary)
    &&& match v.migration_path {
        None => p.migration_path is None,
        Some(path) => p.migration_path matches Some(resolved) && resolves(
            versions,
            config,
            replies,
            at,
            path@,
            resolved,
        ),
    }
}

/// Whether the artifacts are those of the versions that run a commit, in order.
pub open spec fn artifacts_of(
    artifacts: Seq<PreparedVersionArtifacts<Seq<char>>>,
    versions: Seq<ResolvedVersion>,
    config: RollupBinaryBuildConfig,
) -> bool {
    let builds = remote_builds(versions);
    &&& artifacts.len() == builds.len()
    &&& forall|j: int|
        0 <= j < artifacts.len() ==> (#[trigger] artifacts[j]).rollup_binary == cached_binary(
            config.cache_dir@,
            builds[j].commit@,
            config.target.deep_view().file_name(),
        )
}

/// What the step that prepares the version at hand amounts to, on all replies and on those before
/// its calls.
proof fn version_step(
    version: ResolvedVersion,
    artifacts: Seq<PreparedVersionArtifacts<Seq<char>>>,
    local: Seq<char>,
    replies: Seq<HostReply>,
    at: nat,
    known: nat,
)
    requires
        known <= replies.len(),
    ensures
        version_prepared(version, artifacts, local, replies, at) matches Outcome::Gives(p, next)
            ==> {
            &&& at <= next
            &&& next <= known ==> version_prepared(
                version,
                artifacts,
                local,
                replies.take(known as int),
                at,
            ) == Outcome::<_, SetupError<Seq<char>>>::Gives(p, next)
            &&& version.binary_source is RemoteCommit ==> {
                &&& artifacts.len() > 0
                &&& text_at(replies, at) matches Some(Ok(text)) && text@ == p.rollup_binary
                &&& version_prepared(version, artifacts, local, replies.take(at as int), at)
                    == Outcome::<PreparedRollupVersion<Seq<char>>, SetupError<Seq<char>>>::Asks(
                    HostCallView::Canonicalize { path: artifacts[0].rollup_binary },
                    at,
                )
            }
            &&& version.binary_source is LocalHead ==> p.rollup_binary == local
            &&& match version.migration_path {
                None => p.migration_path is None,
                Some(path) => {
                    &&& at < next
                    &&& text_at(replies, (next - 1) as nat) matches Some(Ok(text))
                        && p.migration_path == Some(text@)
                    &&& version_prepared(version, artifacts, local, replies.take(next - 1), at)
                        == Outcome::<PreparedRollupVersion<Seq<char>>, SetupError<Seq<char>>>::Asks(
                        HostCallView::Canonicalize { path: path@ },
                        (next - 1) as nat,
                    )
                },
            }
        },
{
}

/// Where the preparation of version `i` makes its calls.
proof fn version_calls(
    versions: Seq<ResolvedVersion>,
    config: RollupBinaryBuildConfig,
    artifacts: Seq<PreparedVersionArtifacts<Seq<char>>>,
    local: Seq<char>,
    done: Seq<PreparedRollupVersion<Seq<char>>>,
    replies: Seq<HostReply>,
    at: nat,
    i: int,
) -> (calls: (nat, nat))
    requires
        0 <= i < versions.len(),
        artifacts_of(artifacts, versions, config),
        versions_prepared(versions, artifacts, local, done, replies, at) is Gives,
    ensures
        versions_prepared(versions, artifacts, local, done, replies, at) matches Outcome::Gives(
            prepared,
            _,
        ) && {
            let p = prepared[done.len() + i];
            &&& versions[i].binary_source is RemoteCommit ==> {
                &&& at <= calls.0 < replies.len()
                &&& text_at(replies, calls.0) matches Some(Ok(text)) && text@ == p.rollup_binary
                &&& versions_prepared(
                    versions,
                    artifacts,
                    local,
                    done,
                    replies.take(calls.0 as int),
                    at,
                ) == Outcome::<
                    Seq<PreparedRollupVersion<Seq<char>>>,
                    SetupError<Seq<char>>,
                >::Asks(
                    HostCallView::Canonicalize { path: binary_path(versions[i], config) },
                    calls.0,
                )
            }
            &&& versions[i].binary_source is LocalHead ==> p.rollup_binary == local
            &&& versions[i].migration_path is None ==> p.migration_path is None
            &&& versions[i].migration_path matches Some(path) ==> {
                &&& at <= calls.1 < replies.len()
                &&& text_at(replies, calls.1) matches Some(Ok(text)) && p.migration_path == Some(
                    text@,
                )
                &&& versions_prepared(
                    versions,
                    artifacts,
                    local,
                    done,
                    replies.take(calls.1 as int),
                    at,
                ) == Outcome::<
                    Seq<PreparedRollupVersion<Seq<char>>>,
                    SetupError<Seq<char>>,
                >::Asks(HostCallView::Canonicalize { path: path@ }, calls.1)
            }
        },
    decreases versions.len(),
{
    remote_builds_from_front(versions);
    version_step(versions[0], artifacts, local, replies, at, 0);
    match version_prepared(versions[0], artifacts, local, replies, at) {
        Outcome::Gives(version, next) => {
            let remote = versions[0].binary_source is RemoteCommit;
            let rest = if remote {
                artifacts.skip(1)
            } else {
                artifacts
            };
            let more = done.push(version);
            let later = versions.skip(1);
            if remote {
                assert(artifacts[0].rollup_binary == binary_path(versions[0], config));
            }
            versions_prepare_in_order(later, rest, local, more, replies, next);
            if i == 0 {
                (at, (next - 1) as nat)
            } else {
                assert(artifacts_of(rest, later, config)) by {
                    let shift: int = if remote {
                        1
                    } else {
                        0
                    };
                    assert forall|j: int| 0 <= j < rest.len() implies (#[trigger]
                        rest[j]).rollup_binary == cached_binary(
                        config.cache_dir@,
                        remote_builds(later)[j].commit@,
                        config.target.deep_view().file_name(),
                    ) by {
                        assert(rest[j] == artifacts[j + shift]);
                        assert(remote_builds(later)[j] == remote_builds(versions)[j + shift]);
                    }
                }
                let calls = version_calls(
                    later,
                    config,
                    rest,
                    local,
                    more,
                    replies,
                    next,
                    i - 1,
                );
                assert(versions[i] == later[i - 1]);
                assert(more.len() + (i - 1) == done.len() + i);
                if versions[i].binary_source is RemoteCommit {
                    version_step(versions[0], artifacts, local, replies, at, calls.0);
                }
                if versions[i].migration_path is Some {
                    version_step(versions[0], artifacts, local, replies, at, calls.1);
                }
                calls
            }
        },
        _ => (0, 0),
    }
}

proof fn versions_prepare_in_order(
    versions: Seq<ResolvedVersion>,
    artifacts: Seq<PreparedVersionArtifacts<Seq<char>>>,
    local: Seq<char>,
    done: Seq<PreparedRollupVersion<Seq<char>>>,
    replies: Seq<HostReply>,
    at: nat,
)
    ensures
        versions_prepared(versions, artifacts, local, done, replies, at) matches Outcome::Gives(
            prepared,
            next,
        ) ==> {
            &&& at <= next
            &&& prepared.len() == done.len() + versions.len()
            &&& forall|i: int| 0 <= i < done.len() ==> prepared[i] == done[i]
            &&& forall|i: int|
                0 <= i < versions.len() ==> keeps_version(
                    #[trigger] prepared[done.len() + i],
                    versions[i],
                )
        },
        artifacts.len() == remote_builds(versions).len() ==> (versions_prepared(
            versions,
            artifacts,
            local,
            done,
            replies,
            at,
        ) matches Outcome::Fails(e, _) ==> !(e is MissingArtifact)),
    decreases versions.len(),
{
    if versions.len() > 0 {
        remote_builds_from_front(versions);
        match version_prepared(versions[0], artifacts, local, replies, at) {
            Outcome::Gives(version, next) => {
                let rest = if versions[0].binary_source is RemoteCommit {
                    artifacts.skip(1)
                } else {
                    artifacts
                };
                let more = done.push(version);
                versions_prepare_in_order(versions.skip(1), rest, local, more, replies, next);
                match versions_prepared(versions, artifacts, local, done, replies, at) {
                    Outcome::Gives(prepared, _) => {
                        assert forall|i: int| 0 <= i < done.len() implies prepared[i]
                            == done[i] by {
                            assert(prepared[i] == more[i]);
                        }
                        assert forall|i: int| 0 <= i < versions.len() implies keeps_version(
                            #[trigger] prepared[done.len() + i],
                            versions[i],
                        ) by {
                            if i == 0 {
                                assert(prepared[done.len() as int] == more[done.len() as int]);
                            } else {
                                assert(keeps_version(
                                    prepared[more.len() + (i - 1)],
                                    versions.skip(1)[i - 1],
                                ));
                            }
                        }
                    },
                    _ => {},
                }
            },
            _ => {},
        }
    }
}

/// Whether a prepared version has the settings of a version.
pub open spec fn keeps_version(p: PreparedRollupVersion<Seq<char>>, v: ResolvedVersion) -> bool {
    &&& p.version_id == v.version_id@
    &&& p.config_commit == v.config_commit.deep_view()
    &&& p.binary_source == v.binary_source.deep_view()
    &&& p.start_height == v.start_height
    &&& p.stop_height == v.stop_height
}

/// What comes before the versions' own calls does not depend on the replies to them.
proof fn builds_on_prefix(
    versions: Seq<ResolvedVersion>,
    config: RollupBinaryBuildConfig,
    artifacts: Seq<PreparedVersionArtifacts<Seq<char>>>,
    historical: nat,
    local: Seq<char>,
    next: nat,
    replies: Seq<HostReply>,
    at: nat,
    known: nat,
)
    requires
        known <= replies.len(),
        status_at(replies, at) matches Some(Ok(_)),
        history_built(config, remote_builds(versions), replies, at + 1) == Outcome::<
            _,
            SetupError<Seq<char>>,
        >::Gives(artifacts, historical),
        local_built(
            config.local_rollup_root@,
            config.target.deep_view(),
            replies,
            historical,
        ) == Outcome::<_, SetupError<Seq<char>>>::Gives(local, next),
    ensures
        artifacts_of(artifacts, versions, config),
        next == historical + 3,
        text_at(replies, historical + 2) matches Some(Ok(text)) && text@ == local,
        next <= known ==> binaries_prepared(versions, config, replies.take(known as int), at)
            == versions_prepared(
            versions,
            artifacts,
            local,
            seq![],
            replies.take(known as int),
            next,
        ),
        known == historical + 2 ==> binaries_prepared(
            versions,
            config,
            replies.take(known as int),
            at,
        ) == Outcome::<Seq<PreparedRollupVersion<Seq<char>>>, SetupError<Seq<char>>>::Asks(
            HostCallView::Canonicalize {
                path: built_binary(config.local_rollup_root@, config.target.deep_view().bin),
            },
            known,
        ),
{
    let builds = remote_builds(versions);
    let builder = history_builder(config);
    all_artifact_paths(builder, builds, false, seq![], replies, at + 1);
    artifacts_from_the_replies_read(builder, builds, false, seq![], replies, at + 1, known);
    let path = |v: VersionBuildSpec| artifact_paths(builder, v, false);
    assert(artifacts =~= builds.map_values(path));
    assert forall|j: int| 0 <= j < artifacts.len() implies (#[trigger] artifacts[j]).rollup_binary
        == cached_binary(
        config.cache_dir@,
        builds[j].commit@,
        config.target.deep_view().file_name(),
    ) by {
        assert(artifacts[j] == path(builds[j]));
    }
}

/// Versions that have been prepared are the given ones, in order, each with its binary: the host's
/// resolution of the path in the cache that belongs to the version's own commit, or the one binary
/// of the local checkout. A version that runs a commit never lacks its artifact.
pub proof fn every_version_is_prepared(
    versions: Seq<ResolvedVersion>,
    config: RollupBinaryBuildConfig,
    replies: Seq<HostReply>,
    at: nat,
)
    ensures
        match binaries_prepared(versions, config, replies, at) {
            Outcome::Asks(_, _) => true,
            Outcome::Fails(e, _) => !(e is MissingArtifact),
            Outcome::Gives(prepared, _) => {
                &&& prepared.len() == versions.len()
                &&& forall|i: int|
                    0 <= i < versions.len() ==> is_prepared(
                        #[trigger] prepared[i],
                        versions[i],
                        versions,
                        config,
                        replies,
                        at,
                    )
            },
        },
{
    let builds = remote_builds(versions);
    match history_built(config, builds, replies, at + 1) {
        Outcome::Gives(artifacts, historical) => {
            match local_built(
                config.local_rollup_root@,
                config.target.deep_view(),
                replies,
                historical,
            ) {
                Outcome::Gives(local, next) => {
                    if status_at(replies, at) matches Some(Ok(_)) {
                        prepared_versions_resolve(
                            versions,
                            config,
                            artifacts,
                            historical,
                            local,
                            next,
                            replies,
                            at,
                        );
                    }
                },
                _ => {},
            }
        },
        _ => {},
    }
}

proof fn prepared_versions_resolve(
    versions: Seq<ResolvedVersion>,
    config: RollupBinaryBuildConfig,
    artifacts: Seq<PreparedVersionArtifacts<Seq<char>>>,
    historical: nat,
    local: Seq<char>,
    next: nat,
    replies: Seq<HostReply>,
    at: nat,
)
    requires
        status_at(replies, at) matches Some(Ok(_)),
        history_built(config, remote_builds(versions), replies, at + 1) == Outcome::<
            _,
            SetupError<Seq<char>>,
        >::Gives(artifacts, historical),
        local_built(
            config.local_rollup_root@,
            config.target.deep_view(),
            replies,
            historical,
        ) == Outcome::<_, SetupError<Seq<char>>>::Gives(local, next),
    ensures
        match versions_prepared(versions, artifacts, local, seq![], replies, next) {
            Outcome::Asks(_, _) => true,
            Outcome::Fails(e, _) => !(e is MissingArtifact),
            Outcome::Gives(prepared, _) => {
                &&& prepared.len() == versions.len()
                &&& forall|i: int|
                    0 <= i < versions.len() ==> is_prepared(
                        #[trigger] prepared[i],
                        versions[i],
                        versions,
                        config,
                        replies,
                        at,
                    )
            },
        },
{
    builds_on_prefix(versions, config, artifacts, historical, local, next, replies, at, 0);
    versions_prepare_in_order(versions, artifacts, local, seq![], replies, next);
    match versions_prepared(versions, artifacts, local, seq![], replies, next) {
        Outcome::Gives(prepared, _) => {
            assert forall|i: int| 0 <= i < versions.len() implies is_prepared(
                #[trigger] prepared[i],
                versions[i],
                versions,
                config,
                replies,
                at,
            ) by {
                assert(keeps_version(prepared[0 + i], versions[i]));
                let calls = version_calls(
                    versions,
                    config,
                    artifacts,
                    local,
                    seq![],
                    replies,
                    next,
                    i,
                );
                let p = prepared[0 + i];
                let binary = if versions[i].binary_source is RemoteCommit {
                    calls.0
                } else {
                    historical + 2
                };
                builds_on_prefix(
                    versions,
                    config,
                    artifacts,
                    historical,
                    local,
                    next,
                    replies,
                    at,
                    binary,
                );
                assert(resolves_at(
                    versions,
                    config,
                    replies,
                    at,
                    binary,
                    binary_path(versions[i], config),
                    p.rollup_binary,
                ));
                if let Some(path) = versions[i].migration_path {
                    builds_on_prefix(
                        versions,
                        config,
                        artifacts,
                        historical,
                        local,
                        next,
                        replies,
                        at,
                        calls.1,
                    );
                    assert(resolves_at(
                        versions,
                        config,
                        replies,
                        at,
                        calls.1,
                        path@,
                        p.migration_path->0,
                    ));
                }
            }
        },
        _ => {},
    }
}

} // verus!

//! What holds of the setup of every sequence of versions, whatever the host replies.
use vstd::prelude::*;

use crate::artifact_builder::{
    artifacts_from_the_replies_read, PreparedVersionArtifacts, VersionBuildSpec,
};
use crate::build_cache::{built_binary, obtained, BuilderError};
use crate::build_laws::{all_artifact_calls, lift_target};
use crate::config::FileRead;
use crate::journal::{
    called, command_at, flag_at, gives_at, status_at, succeeded, text_at, version_spec_at,
    version_vars_at, within, worked, HostCallView, HostReply, Outcome,
};
use crate::path::joined_path;
use crate::process::{CommandOutcome, CommandView, ExitStatus};
use crate::text::trimmed;
use crate::upgrade_simulator::failure_laws::{
    build_failure_says_why, build_says_why, failed, no_text,
};
use crate::versioned_setup::{
    binaries_prepared, entries_resolved, entry_resolved, every_version_is_prepared, history_builder,
    history_built, local_built, manager_built, remote_builds, text_at_commit, version_prepared,
    versions_loaded, versions_prepared, BinarySource, PreparedRollupVersion, ResolvedVersion,
    RollupBinaryBuildConfig, SetupError, VersionSpecEntry,
};

verus! {

/// Whether a path is another one, looked for from a directory: that path itself where it starts at
/// the root, and otherwise the directory, a separator and the path.
pub open spec fn is_in_dir(path: Seq<char>, dir: Seq<char>, p: Seq<char>) -> bool {
    if dir.len() == 0 || (p.len() > 0 && p[0] == '/') {
        path == p
    } else if dir[dir.len() - 1] == '/' {
        path == dir + p
    } else {
        path == dir + seq!['/'] + p
    }
}

/// Whether a version has a migration exactly where an entry of the list has one, at the entry's
/// path looked for from the directory of the list.
pub open spec fn migrates_as_listed(
    version: ResolvedVersion<Seq<char>>,
    dir: Seq<char>,
    entry: VersionSpecEntry,
) -> bool {
    match entry.migration_path {
        None => version.migration_path is None,
        Some(p) => version.migration_path matches Some(path) && is_in_dir(path, dir, p@),
    }
}

/// The commit hash that a reply to a read of a vars file holds.
pub open spec fn commit_told(replies: Seq<HostReply>, k: nat) -> Option<Seq<char>> {
    match version_vars_at(replies, k) {
        Some(FileRead::Parsed(hash)) if trimmed(hash@).len() > 0 => Some(trimmed(hash@)),
        _ => None,
    }
}

proof fn entries_calls(
    dir: Seq<char>,
    entries: Seq<VersionSpecEntry>,
    done: Seq<ResolvedVersion<Seq<char>>>,
    replies: Seq<HostReply>,
    at: nat,
    i: int,
) -> (path: Seq<char>)
    requires
        0 <= i < entries.len(),
        entries_resolved(dir, entries, done, replies, at) is Gives,
    ensures
        is_in_dir(path, dir, entries[i].vars_file@),
        at + i < replies.len(),
        entries_resolved(dir, entries, done, replies.take(at + i), at) == Outcome::<
            Seq<ResolvedVersion<Seq<char>>>,
            SetupError<Seq<char>>,
        >::Asks(HostCallView::ReadVersionVars { path }, (at + i) as nat),
        commit_told(replies, (at + i) as nat) is Some,
        entries_resolved(dir, entries, done, replies, at) matches Outcome::Gives(versions, next) && {
            let version = versions[done.len() + i];
            let commit = commit_told(replies, (at + i) as nat)->0;
            &&& next == at + entries.len()
            &&& versions.len() == done.len() + entries.len()
            &&& forall|j: int| 0 <= j < done.len() ==> versions[j] == done[j]
            &&& version.version_id == entries[i].version_id@
            &&& version.config_commit == Some(commit)
            &&& version.binary_source == BinarySource::RemoteCommit(commit)
            &&& version.start_height == entries[i].start_height
            &&& version.stop_height == entries[i].stop_height
            &&& migrates_as_listed(version, dir, entries[i])
        },
    decreases entries.len(),
{
    crate::path::joining_keeps_both_paths(dir, entries[0].vars_file@);
    if let Some(p) = entries[0].migration_path {
        crate::path::joining_keeps_both_paths(dir, p@);
    }
    match entry_resolved(dir, entries[0], replies, at) {
        Outcome::Gives(version, next) => {
            let rest = entries.skip(1);
            let more = done.push(version);
            let path = if i > 0 {
                let path = entries_calls(dir, rest, more, replies, next, i - 1);
                assert(entry_resolved(dir, entries[0], replies.take(at + i), at)
                    == entry_resolved(dir, entries[0], replies, at));
                path
            } else {
                if rest.len() > 0 {
                    let other = entries_calls(dir, rest, more, replies, next, 0);
                }
                crate::path::joined_path(dir, entries[0].vars_file@)
            };
            match entries_resolved(dir, entries, done, replies, at) {
                Outcome::Gives(versions, _) => {
                    assert forall|j: int| 0 <= j < done.len() implies versions[j] == done[j] by {
                        assert(versions[j] == more[j]);
                    }
                    assert(versions[done.len() as int] == more[done.len() as int]);
                },
                _ => {},
            }
            path
        },
        _ => arbitrary(),
    }
}

/// The versions of a list are loaded as they are listed, one for each entry and in that order.
/// Each has its entry's name and heights, and a migration exactly where the entry has one; the
/// entry's vars file has been read for the commit that it comes from and is built from. The last
/// one alone comes from no commit, and is built from the local checkout.
pub proof fn versions_are_loaded_as_listed(
    dir: Seq<char>,
    entries: Seq<VersionSpecEntry>,
    replies: Seq<HostReply>,
    at: nat,
    i: int,
) -> (path: Seq<char>)
    requires
        flag_at(replies, at) == Some(true),
        version_spec_at(replies, at + 1) == Some(FileRead::Parsed(entries)),
        0 <= i < entries.len(),
        versions_loaded(dir, replies, at) is Gives,
    ensures
        is_in_dir(path, dir, entries[i].vars_file@),
        called(
            |r: Seq<HostReply>| versions_loaded(dir, r, at),
            replies,
            (at + 2 + i) as nat,
            HostCallView::ReadVersionVars { path },
        ),
        commit_told(replies, (at + 2 + i) as nat) is Some,
        versions_loaded(dir, replies, at) matches Outcome::Gives(versions, _) && {
            let commit = commit_told(replies, (at + 2 + i) as nat)->0;
            &&& versions.len() == entries.len()
            &&& versions[i].version_id == entries[i].version_id@
            &&& versions[i].start_height == entries[i].start_height
            &&& versions[i].stop_height == entries[i].stop_height
            &&& migrates_as_listed(versions[i], dir, entries[i])
            &&& i < entries.len() - 1 ==> versions[i].config_commit == Some(commit)
                && versions[i].binary_source == BinarySource::RemoteCommit(commit)
            &&& i == entries.len() - 1 ==> versions[i].config_commit is None
                && versions[i].binary_source is LocalHead
        },
{
    entries_calls(dir, entries, seq![], replies, at + 2, i)
}

proof fn entries_load(
    dir: Seq<char>,
    entries: Seq<VersionSpecEntry>,
    done: Seq<ResolvedVersion<Seq<char>>>,
    replies: Seq<HostReply>,
    at: nat,
)
    requires
        forall|k: nat| at <= k < at + entries.len() ==> #[trigger] commit_told(replies, k) is Some,
    ensures
        entries_resolved(dir, entries, done, replies, at) is Gives,
    decreases entries.len(),
{
    if entries.len() > 0 {
        assert(commit_told(replies, at) is Some);
        match entry_resolved(dir, entries[0], replies, at) {
            Outcome::Gives(version, next) => {
                entries_load(dir, entries.skip(1), done.push(version), replies, next);
            },
            _ => {},
        }
    }
}

/// A list is looked for in its directory. Where there is none, or an empty one, the local checkout
/// is the only version, without heights or a migration; a list whose vars files all hold a commit
/// is loaded, and the first that does not hold one fails the loading.
pub proof fn list_is_loaded_where_every_commit_is_told(
    dir: Seq<char>,
    entries: Seq<VersionSpecEntry>,
    replies: Seq<HostReply>,
    at: nat,
)
    ensures
        at <= replies.len() ==> (versions_loaded(
            dir,
            replies.take(at as int),
            at,
        ) matches Outcome::Asks(HostCallView::PathExists { path }, k) && k == at && is_in_dir(
            path,
            dir,
            "versions.yaml"@,
        )),
        at < replies.len() && flag_at(replies, at) == Some(true) ==> (versions_loaded(
            dir,
            replies.take(at + 1int),
            at,
        ) matches Outcome::Asks(HostCallView::ReadVersionSpec { path }, k) && k == at + 1
            && is_in_dir(path, dir, "versions.yaml"@)),
        flag_at(replies, at) == Some(false) || (flag_at(replies, at) == Some(true)
            && version_spec_at(replies, at + 1) == Some(FileRead::Parsed(entries)) && entries.len()
            == 0) ==> (versions_loaded(dir, replies, at) matches Outcome::Gives(versions, _) && {
            &&& versions.len() == 1
            &&& versions[0].version_id == "head"@
            &&& versions[0].config_commit is None
            &&& versions[0].binary_source is LocalHead
            &&& versions[0].start_height is None
            &&& versions[0].stop_height is None
            &&& versions[0].migration_path is None
        }),
        flag_at(replies, at) == Some(true) && version_spec_at(replies, at + 1) == Some(
            FileRead::Parsed(entries),
        ) && (forall|k: nat|
            at + 2 <= k < at + 2 + entries.len() ==> #[trigger] commit_told(replies, k) is Some)
            ==> versions_loaded(dir, replies, at) is Gives,
        entries.len() > 0 && flag_at(replies, at) == Some(true) && version_spec_at(replies, at + 1)
            == Some(FileRead::Parsed(entries)) && (version_vars_at(
            replies,
            at + 2,
        ) matches Some(FileRead::Parsed(hash)) && trimmed(hash@).len() == 0) ==> (versions_loaded(
            dir,
            replies,
            at,
        ) matches Outcome::Fails(SetupError::EmptyCommit { version_id, path }, _) && version_id
            == entries[0].version_id@ && is_in_dir(path, dir, entries[0].vars_file@)),
{
    reveal_strlit("versions.yaml");
    crate::path::joining_keeps_both_paths(dir, "versions.yaml"@);
    if entries.len() > 0 {
        crate::path::joining_keeps_both_paths(dir, entries[0].vars_file@);
    }
    if forall|k: nat|
        at + 2 <= k < at + 2 + entries.len() ==> #[trigger] commit_told(replies, k) is Some {
        entries_load(dir, entries, seq![], replies, at + 2);
    }
}

/// The local checkout is built once, by cargo in its own directory, and its binary has to be there;
/// `k` is where.
pub proof fn local_checkout_is_built(
    versions: Seq<ResolvedVersion>,
    config: RollupBinaryBuildConfig,
    replies: Seq<HostReply>,
    at: nat,
) -> (k: nat)
    requires
        binaries_prepared(versions, config, replies, at) is Gives,
    ensures
        ({
            let f = |r: Seq<HostReply>| binaries_prepared(versions, config, r, at);
            let target = config.target.deep_view();
            let root = config.local_rollup_root@;
            let binary = built_binary(root, target.bin);
            &&& called(f, replies, at, HostCallView::CreateDirAll { path: config.cache_dir@ })
            &&& worked(replies, at)
            &&& at < k
            &&& called(
                f,
                replies,
                k,
                HostCallView::Run {
                    command: CommandView {
                        program: "cargo"@,
                        args: target.cargo_args("--package"@),
                        current_dir: Some(root),
                    },
                },
            )
            &&& succeeded(replies, k)
            &&& called(f, replies, k + 1, HostCallView::PathExists { path: binary })
            &&& flag_at(replies, k + 1) == Some(true)
            &&& called(f, replies, k + 2, HostCallView::Canonicalize { path: binary })
        }),
{
    let f = |r: Seq<HostReply>| binaries_prepared(versions, config, r, at);
    let builder = history_builder(config);
    let builds = remote_builds(versions);
    let k = history_built(config, builds, replies, at + 1)->Gives_1;
    let known = replies.len();
    artifacts_from_the_replies_read(builder, builds, false, seq![], replies, at + 1, known);
    assert(f(replies.take(at as int)) is Asks);
    artifacts_from_the_replies_read(builder, builds, false, seq![], replies, at + 1, k);
    assert(f(replies.take(k as int)) is Asks);
    artifacts_from_the_replies_read(builder, builds, false, seq![], replies, at + 1, k + 1);
    assert(f(replies.take(k + 1int)) is Asks);
    artifacts_from_the_replies_read(builder, builds, false, seq![], replies, at + 1, k + 2);
    assert(f(replies.take(k + 2int)) is Asks);
    k
}

/// The manager is cloned afresh, from one branch and without its history, into a directory that has
/// been emptied, and built there in release mode; what is given is the absolute path of the binary
/// that this has left. `k` is where it is cloned.
pub proof fn manager_is_built_afresh(
    root: Seq<char>,
    repo_url: Seq<char>,
    branch: Seq<char>,
    replies: Seq<HostReply>,
    at: nat,
) -> (k: nat)
    requires
        manager_built(root, repo_url, branch, replies, at) is Gives,
    ensures
        ({
            let f = |r: Seq<HostReply>| manager_built(root, repo_url, branch, r, at);
            let repo = joined_path(root, "repo"@);
            let binary = joined_path(repo, "target/release/sov-rollup-manager"@);
            &&& called(f, replies, at, HostCallView::PathExists { path: root })
            &&& flag_at(replies, at) == Some(true) ==> called(
                f,
                replies,
                at + 1,
                HostCallView::RemoveDirAll { path: root },
            ) && worked(replies, at + 1) && k == at + 3
            &&& flag_at(replies, at) != Some(true) ==> k == at + 2
            &&& called(f, replies, (k - 1) as nat, HostCallView::CreateDirAll { path: root })
            &&& worked(replies, (k - 1) as nat)
            &&& called(
                f,
                replies,
                k,
                HostCallView::Run {
                    command: CommandView {
                        program: "git"@,
                        args: seq![
                            "clone"@,
                            "--depth"@,
                            "1"@,
                            "--branch"@,
                            branch,
                            repo_url,
                            repo,
                        ],
                        current_dir: None,
                    },
                },
            )
            &&& succeeded(replies, k)
            &&& called(
                f,
                replies,
                k + 1,
                HostCallView::Run {
                    command: CommandView {
                        program: "cargo"@,
                        args: seq!["build"@, "--release"@, "--bin"@, "sov-rollup-manager"@],
                        current_dir: Some(repo),
                    },
                },
            )
            &&& succeeded(replies, k + 1)
            &&& called(f, replies, k + 2, HostCallView::PathExists { path: binary })
            &&& flag_at(replies, k + 2) == Some(true)
            &&& called(f, replies, k + 3, HostCallView::Canonicalize { path: binary })
            &&& text_at(replies, k + 3) matches Some(Ok(text)) && f(replies) matches Outcome::Gives(
                path,
                _,
            ) && path == text@
        }),
{
    let f = |r: Seq<HostReply>| manager_built(root, repo_url, branch, r, at);
    let k: nat = if flag_at(replies, at) == Some(true) {
        at + 3
    } else {
        at + 2
    };
    assert(f(replies.take(at as int)) is Asks);
    assert(f(replies.take(at + 1int)) is Asks);
    assert(f(replies.take(k - 1)) is Asks);
    assert(f(replies.take(k as int)) is Asks);
    assert(f(replies.take(k + 1int)) is Asks);
    assert(f(replies.take(k + 2int)) is Asks);
    assert(f(replies.take(k + 3int)) is Asks);
    k
}

/// Whether the failure to load versions says which file it is about, and what the last reply has
/// said of it.
pub open spec fn loading_says_why(
    e: SetupError<Seq<char>>,
    dir: Seq<char>,
    entries: Seq<VersionSpecEntry>,
    replies: Seq<HostReply>,
    next: nat,
) -> bool {
    &&& next > 0
    &&& match e {
        SetupError::ReadVars { version_id, path, source } => lists(entries, dir, version_id, path)
            && (version_vars_at(replies, (next - 1) as nat) matches Some(FileRead::Unreadable(m))
            && m@ == source),
        SetupError::ParseVars { version_id, path, source } => lists(entries, dir, version_id, path)
            && (version_vars_at(replies, (next - 1) as nat) matches Some(FileRead::Malformed(m))
            && m@ == source),
        SetupError::EmptyCommit { version_id, path } => lists(entries, dir, version_id, path) && (
        version_vars_at(replies, (next - 1) as nat) matches Some(FileRead::Parsed(hash))
            && trimmed(hash@).len() == 0),
        _ => false,
    }
}

/// Whether one of the entries of a list has an id, and its vars file is at a path.
pub open spec fn lists(
    entries: Seq<VersionSpecEntry>,
    dir: Seq<char>,
    version_id: Seq<char>,
    path: Seq<char>,
) -> bool {
    exists|i: int|
        0 <= i < entries.len() && (#[trigger] entries[i]).version_id@ == version_id && is_in_dir(
            path,
            dir,
            entries[i].vars_file@,
        )
}

proof fn entries_say_why(
    dir: Seq<char>,
    all: Seq<VersionSpecEntry>,
    i: int,
    done: Seq<ResolvedVersion<Seq<char>>>,
    replies: Seq<HostReply>,
    at: nat,
)
    requires
        0 <= i <= all.len(),
    ensures
        entries_resolved(dir, all.skip(i), done, replies, at) matches Outcome::Fails(e, next)
            ==> loading_says_why(e, dir, all, replies, next),
    decreases all.len() - i,
{
    let entries = all.skip(i);
    if i < all.len() {
        assert(entries[0] == all[i]);
        assert(entries.skip(1) =~= all.skip(i + 1));
        crate::path::joining_keeps_both_paths(dir, all[i].vars_file@);
        if let Outcome::Gives(version, next) = entry_resolved(dir, entries[0], replies, at) {
            entries_say_why(dir, all, i + 1, done.push(version), replies, next);
        }
    }
}

/// What a failure to load the versions says is so: it names the list, with what the host has said
/// of it, or the entry whose vars file could not be used.
pub proof fn loading_failure_says_why(dir: Seq<char>, replies: Seq<HostReply>, at: nat)
    ensures
        versions_loaded(dir, replies, at) matches Outcome::Fails(e, next) ==> (
        flag_at(replies, at) == Some(true) && match version_spec_at(replies, at + 1) {
            Some(FileRead::Unreadable(m)) => e matches SetupError::ReadSpec { path, source }
                && is_in_dir(path, dir, "versions.yaml"@) && source == m@,
            Some(FileRead::Malformed(m)) => e matches SetupError::ParseSpec { path, source }
                && is_in_dir(path, dir, "versions.yaml"@) && source == m@,
            Some(FileRead::Parsed(entries)) => loading_says_why(e, dir, entries, replies, next),
            None => false,
        }),
{
    reveal_strlit("versions.yaml");
    crate::path::joining_keeps_both_paths(dir, "versions.yaml"@);
    if let Some(FileRead::Parsed(entries)) = version_spec_at(replies, at + 1) {
        assert(entries.skip(0) =~= entries);
        entries_say_why(dir, entries, 0, seq![], replies, at + 2);
    }
}

/// Whether the failure to build some commit says what the last reply has said.
pub open spec fn history_failure(
    e: BuilderError<Seq<char>>,
    config: RollupBinaryBuildConfig,
    replies: Seq<HostReply>,
    next: nat,
) -> bool {
    exists|commit: Seq<char>|
        build_says_why(
            e,
            config.cache_dir@,
            commit,
            config.target.deep_view().bin,
            replies,
            next,
        )
}

/// Whether the failure to prepare the binaries says what the last reply has said.
pub open spec fn preparing_says_why(
    e: SetupError<Seq<char>>,
    config: RollupBinaryBuildConfig,
    replies: Seq<HostReply>,
    next: nat,
) -> bool {
    &&& next > 0
    &&& match e {
        SetupError::CreateDir { path, source } => path == config.cache_dir@ && failed(
            replies,
            next,
            source,
        ),
        SetupError::HistoricalBinaries { cause } => history_failure(cause, config, replies, next),
        SetupError::SpawnCargo { root, source } => root == config.local_rollup_root@ && (command_at(
            replies,
            (next - 1) as nat,
        ) matches Some(CommandOutcome::NotStarted(m)) && m@ == source),
        SetupError::CommandFailed { context, status, stdout, stderr } => {
            &&& context == "build local HEAD rollup binary"@
            &&& command_at(replies, (next - 1) as nat) matches Some(CommandOutcome::Finished(
                output,
            )) && output.status != ExitStatus::Exited(0) && status == output.status && stdout
                == output.stdout@ && stderr == output.stderr@
        },
        SetupError::LocalBinaryNotFound { path } => path == built_binary(
            config.local_rollup_root@,
            config.target.deep_view().bin,
        ) && flag_at(replies, (next - 1) as nat) == Some(false),
        SetupError::Canonicalize { source, .. } => no_text(replies, next, source),
        SetupError::CanonicalizeBinary { source, .. } => no_text(replies, next, source),
        SetupError::CanonicalizeMigration { source, .. } => no_text(replies, next, source),
        _ => false,
    }
}

proof fn history_says_why(
    config: RollupBinaryBuildConfig,
    builds: Seq<VersionBuildSpec>,
    done: Seq<PreparedVersionArtifacts<Seq<char>>>,
    replies: Seq<HostReply>,
    at: nat,
)
    requires
        forall|i: int| 0 <= i < builds.len() ==> !(#[trigger] builds[i]).build_soak,
    ensures
        history_builder(config).all_artifacts(builds, false, done, replies, at) matches Outcome::Fails(
            e,
            next,
        ) ==> next > 0 && history_failure(e, config, replies, next),
    decreases builds.len(),
{
    if builds.len() > 0 {
        let b = history_builder(config);
        assert(!builds[0].build_soak);
        assert forall|i: int| 0 <= i < builds.skip(1).len() implies !(#[trigger] builds.skip(
            1,
        )[i]).build_soak by {
            assert(builds.skip(1)[i] == builds[i + 1]);
        }
        let commit = builds[0].commit@;
        let target = config.target.deep_view();
        build_failure_says_why(
            b.cache_dir,
            b.repo_url,
            commit,
            target.file_name(),
            target.cargo_args("-p"@),
            target.bin,
            replies,
            at,
        );
        match b.version_artifacts(commit, false || builds[0].build_soak, replies, at) {
            Outcome::Gives(artifacts, next) => {
                history_says_why(config, builds.skip(1), done.push(artifacts), replies, next);
            },
            Outcome::Fails(e, next) => {
                assert(build_says_why(
                    e,
                    config.cache_dir@,
                    commit,
                    target.bin,
                    replies,
                    next,
                ));
            },
            _ => {},
        }
    }
}

proof fn remote_builds_are_plain(versions: Seq<ResolvedVersion>)
    ensures
        forall|i: int|
            0 <= i < remote_builds(versions).len() ==> !(#[trigger] remote_builds(
                versions,
            )[i]).build_soak,
    decreases versions.len(),
{
    if versions.len() > 0 {
        let earlier = remote_builds(versions.drop_last());
        remote_builds_are_plain(versions.drop_last());
        assert forall|i: int| 0 <= i < remote_builds(versions).len() implies !(
        #[trigger] remote_builds(versions)[i]).build_soak by {
            if i < earlier.len() {
                assert(remote_builds(versions)[i] == earlier[i]);
            }
        }
    }
}

proof fn preparing_versions_says_why(
    config: RollupBinaryBuildConfig,
    versions: Seq<ResolvedVersion>,
    artifacts: Seq<PreparedVersionArtifacts<Seq<char>>>,
    local: Seq<char>,
    done: Seq<PreparedRollupVersion<Seq<char>>>,
    replies: Seq<HostReply>,
    at: nat,
)
    ensures
        versions_prepared(versions, artifacts, local, done, replies, at) matches Outcome::Fails(
            e,
            next,
        ) ==> e is MissingArtifact || preparing_says_why(e, config, replies, next),
    decreases versions.len(),
{
    if versions.len() > 0 {
        if let Outcome::Gives(version, next) = version_prepared(
            versions[0],
            artifacts,
            local,
            replies,
            at,
        ) {
            let rest = if versions[0].binary_source is RemoteCommit {
                artifacts.skip(1)
            } else {
                artifacts
            };
            preparing_versions_says_why(
                config,
                versions.skip(1),
                rest,
                local,
                done.push(version),
                replies,
                next,
            );
        }
    }
}

/// What a failure to prepare the binaries says is so.
pub proof fn preparing_failure_says_why(
    versions: Seq<ResolvedVersion>,
    config: RollupBinaryBuildConfig,
    replies: Seq<HostReply>,
    at: nat,
)
    ensures
        binaries_prepared(versions, config, replies, at) matches Outcome::Fails(e, next)
            ==> preparing_says_why(e, config, replies, next),
{
    let builds = remote_builds(versions);
    remote_builds_are_plain(versions);
    history_says_why(config, builds, seq![], replies, at + 1);
    every_version_is_prepared(versions, config, replies, at);
    if let Outcome::Gives(artifacts, historical) = history_built(config, builds, replies, at + 1) {
        if let Outcome::Gives(local, next) = local_built(
            config.local_rollup_root@,
            config.target.deep_view(),
            replies,
            historical,
        ) {
            preparing_versions_says_why(
                config,
                versions,
                artifacts,
                local,
                seq![],
                replies,
                next,
            );
        }
    }
}

proof fn remote_version_is_built(versions: Seq<ResolvedVersion>, i: int) -> (j: int)
    requires
        0 <= i < versions.len(),
        versions[i].binary_source is RemoteCommit,
    ensures
        0 <= j < remote_builds(versions).len(),
        versions[i].binary_source matches BinarySource::RemoteCommit(commit) && remote_builds(
            versions,
        )[j].commit == commit,
    decreases versions.len(),
{
    let earlier = versions.drop_last();
    if i < versions.len() - 1 {
        let j = remote_version_is_built(earlier, i);
        assert(remote_builds(versions)[j] == remote_builds(earlier)[j]);
        j
    } else {
        remote_builds(earlier).len() as int
    }
}

/// The binary of every version that runs a commit has been obtained from that commit, out of the
/// configured repository and cache, with the configured target's options.
pub proof fn every_commit_is_built_from_the_repository(
    versions: Seq<ResolvedVersion>,
    config: RollupBinaryBuildConfig,
    replies: Seq<HostReply>,
    at: nat,
    i: int,
) -> (calls: (nat, nat))
    requires
        binaries_prepared(versions, config, replies, at) is Gives,
        0 <= i < versions.len(),
        versions[i].binary_source is RemoteCommit,
    ensures
        versions[i].binary_source matches BinarySource::RemoteCommit(commit) && {
            let target = config.target.deep_view();
            let name = match target.cache_name {
                Some(name) => name,
                None => target.bin,
            };
            let args = target.cargo_args("-p"@);
            let dir = config.cache_dir@;
            let url = config.repo_url@;
            &&& gives_at(
                obtained(dir, url, commit@, name, args, target.bin, replies, calls.0),
                calls.1,
            )
            &&& within(
                |r: Seq<HostReply>|
                    obtained(dir, url, commit@, name, args, target.bin, r, calls.0),
                |r: Seq<HostReply>| binaries_prepared(versions, config, r, at),
                replies,
                calls.0,
            )
        },
{
    let f = |r: Seq<HostReply>| binaries_prepared(versions, config, r, at);
    let b = history_builder(config);
    let builds = remote_builds(versions);
    let j = remote_version_is_built(versions, i);
    let (a, end, _soak) = all_artifact_calls(b, builds, false, seq![], replies, at + 1, j);
    let g = |r: Seq<HostReply>| b.all_artifacts(builds, false, seq![], r, at + 1);
    assert forall|k: nat, call: HostCallView|
        at + 1 <= k && #[trigger] called(g, replies, k, call) implies called(
        f,
        replies,
        k,
        call,
    ) by {
        assert(replies.take(k as int)[at as int] == replies[at as int]);
        assert(status_at(replies.take(k as int), at) == status_at(replies, at));
    }
    assert(within(g, f, replies, a));
    lift_target(g, f, replies, a, end, b, builds[j].commit@, b.targets.rollup);
    (a, end)
}

/// A file is read at a commit by asking for exactly that, and given as it is replied.
pub proof fn file_is_read_at_its_commit(
    cache_dir: Seq<char>,
    repo_url: Seq<char>,
    commit: Seq<char>,
    path: Seq<char>,
    replies: Seq<HostReply>,
    at: nat,
)
    ensures
        match text_at(replies, at) {
            None => text_at_commit(cache_dir, repo_url, commit, path, replies, at) == Outcome::<
                Seq<char>,
                SetupError<Seq<char>>,
            >::Asks(HostCallView::ReadTextAtCommit { cache_dir, repo_url, commit, path }, at),
            Some(Ok(text)) => text_at_commit(
                cache_dir,
                repo_url,
                commit,
                path,
                replies,
                at,
            ) == Outcome::<Seq<char>, SetupError<Seq<char>>>::Gives(text@, at + 1),
            Some(Err(m)) => text_at_commit(
                cache_dir,
                repo_url,
                commit,
                path,
                replies,
                at,
            ) == Outcome::<Seq<char>, SetupError<Seq<char>>>::Fails(
                SetupError::ReadAtCommit { path, commit, source: m@ },
                at + 1,
            ),
        },
{
}

} // verus!

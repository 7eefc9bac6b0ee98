//! Where built binaries come from, and where they are kept.
use vstd::prelude::*;

use crate::artifact_builder::{
    artifacts_prepared, requested_builder, target_binary_on_prefix, version_artifacts_on_prefix,
    BuildRequest, BuildSpec, BuilderView, PreparedVersionArtifacts, TargetView, VersionBuildSpec,
};
use crate::build_cache::{built_binary, cached_binary, obtained, repo_dir};
use crate::journal::{
    called, flag_at, gives_at, succeeded, within, worked, HostCallView, HostReply, Outcome,
};
use crate::path::{joining_keeps_both_paths, parent};
use crate::process::CommandView;

verus! {

/// Whether a text is the name of a file or a directory, without a separator.
pub open spec fn is_name(name: Seq<char>) -> bool {
    &&& name.len() > 0
    &&& forall|i: int| 0 <= i < name.len() ==> #[trigger] name[i] != '/'
}

/// The clone is the directory `repo` of a cache; a commit's binaries are in a directory of their
/// own, under `binaries`; and a build leaves its binary in `target/release`.
pub proof fn cache_is_laid_out_by_commit(dir: Seq<char>, commit: Seq<char>, name: Seq<char>)
    requires
        dir.len() > 0,
        dir[dir.len() - 1] != '/',
        is_name(commit),
        is_name(name),
    ensures
        repo_dir(dir) == dir + "/repo"@,
        cached_binary(dir, commit, name) == dir + "/binaries/"@ + commit + "/"@ + name,
        built_binary(dir, name) == dir + "/target/release/"@ + name,
{
    reveal_strlit("repo");
    reveal_strlit("/repo");
    reveal_strlit("binaries");
    reveal_strlit("/binaries/");
    reveal_strlit("target");
    reveal_strlit("release");
    reveal_strlit("/target/release/");
    reveal_strlit("/");
    joining_keeps_both_paths(dir, "repo"@);
    joining_keeps_both_paths(dir, "binaries"@);
    joining_keeps_both_paths(dir, "target"@);
    let binaries = dir + seq!['/'] + "binaries"@;
    let target = dir + seq!['/'] + "target"@;
    joining_keeps_both_paths(binaries, commit);
    joining_keeps_both_paths(binaries + seq!['/'] + commit, name);
    joining_keeps_both_paths(target, "release"@);
    joining_keeps_both_paths(target + seq!['/'] + "release"@, name);
    assert(dir + seq!['/'] + "repo"@ =~= dir + "/repo"@);
    assert(binaries[binaries.len() - 1] == 's');
    assert((binaries + seq!['/'] + commit)[(binaries + seq!['/'] + commit).len() - 1]
        == commit[commit.len() - 1]);
    assert(binaries + seq!['/'] + commit + seq!['/'] + name =~= dir + "/binaries/"@ + commit + "/"@
        + name);
    assert(target[target.len() - 1] == 't');
    let release = target + seq!['/'] + "release"@;
    assert(release[release.len() - 1] == 'e');
    assert(release + seq!['/'] + name =~= dir + "/target/release/"@ + name);
}

/// A command in the clone of a cache.
pub open spec fn in_clone(cache_dir: Seq<char>, program: Seq<char>, args: Seq<Seq<char>>)
    -> HostCallView {
    HostCallView::Run {
        command: CommandView { program, args, current_dir: Some(repo_dir(cache_dir)) },
    }
}

/// A binary is looked for in the cache first. One that is not there is built from its own commit:
/// the clone is fetched, or made where there is none, then put at that commit, and only then built,
/// and the binary that the build has left is copied to its place in the cache, in a directory that
/// is made first. Each of these has worked by the time that the binary is given; `k` is where the commit is checked out.
pub proof fn binary_is_built_from_its_commit(
    cache_dir: Seq<char>,
    repo_url: Seq<char>,
    commit: Seq<char>,
    name: Seq<char>,
    args: Seq<Seq<char>>,
    bin: Seq<char>,
    replies: Seq<HostReply>,
    at: nat,
    next: nat,
) -> (k: nat)
    requires
        gives_at(obtained(cache_dir, repo_url, commit, name, args, bin, replies, at), next),
    ensures
        ({
            let f = |r: Seq<HostReply>|
                obtained(cache_dir, repo_url, commit, name, args, bin, r, at);
            let place = cached_binary(cache_dir, commit, name);
            let left = built_binary(repo_dir(cache_dir), bin);
            &&& called(f, replies, at, HostCallView::PathExists { path: place })
            &&& f(replies) matches Outcome::Gives(path, _) && path == place
            &&& flag_at(replies, at) == Some(true) ==> next == at + 1
            &&& flag_at(replies, at) != Some(true) ==> {
                &&& called(f, replies, at + 1, HostCallView::PathExists { path: repo_dir(cache_dir) })
                &&& flag_at(replies, at + 1) == Some(true) ==> {
                    &&& k == at + 3
                    &&& called(
                        f,
                        replies,
                        at + 2,
                        in_clone(cache_dir, "git"@, seq!["fetch"@, "--all"@]),
                    )
                    &&& succeeded(replies, at + 2)
                }
                &&& flag_at(replies, at + 1) != Some(true) ==> {
                    &&& k == at + 4
                    &&& called(f, replies, at + 2, HostCallView::CreateDirAll { path: cache_dir })
                    &&& worked(replies, at + 2)
                    &&& called(
                        f,
                        replies,
                        at + 3,
                        HostCallView::Run {
                            command: CommandView {
                                program: "git"@,
                                args: seq!["clone"@, repo_url, repo_dir(cache_dir)],
                                current_dir: None,
                            },
                        },
                    )
                    &&& succeeded(replies, at + 3)
                }
                &&& called(f, replies, k, in_clone(cache_dir, "git"@, seq!["checkout"@, commit]))
                &&& succeeded(replies, k)
                &&& called(f, replies, k + 1, in_clone(cache_dir, "cargo"@, args))
                &&& succeeded(replies, k + 1)
                &&& called(f, replies, k + 2, HostCallView::PathExists { path: left })
                &&& flag_at(replies, k + 2) == Some(true)
                &&& k + 2 < next - 1
                &&& parent(place) matches Some(dir) ==> next == k + 5 && called(
                    f,
                    replies,
                    k + 3,
                    HostCallView::CreateDirAll { path: dir },
                ) && worked(replies, k + 3)
                &&& called(
                    f,
                    replies,
                    (next - 1) as nat,
                    HostCallView::CopyFile { from: left, to: place },
                )
                &&& worked(replies, (next - 1) as nat)
            }
        }),
{
    reveal(obtained);
    let f = |r: Seq<HostReply>| obtained(cache_dir, repo_url, commit, name, args, bin, r, at);
    let k: nat = if flag_at(replies, at + 1) == Some(true) {
        at + 3
    } else {
        at + 4
    };
    assert(f(replies.take(at as int)) is Asks);
    if flag_at(replies, at) != Some(true) {
        assert(f(replies.take(at + 1int)) is Asks);
        assert(f(replies.take(at + 2int)) is Asks);
        assert(f(replies.take(at + 3int)) is Asks);
        assert(f(replies.take(k as int)) is Asks);
        assert(f(replies.take(k + 1int)) is Asks);
        assert(f(replies.take(k + 2int)) is Asks);
        assert(f(replies.take(k + 3int)) is Asks);
        assert(f(replies.take(next - 1)) is Asks);
    }
    k
}

/// The prepared artifacts are one set for each version, in their order: the version's own commit,
/// its rollup and, exactly where one is asked for, its soak workers, each at the place in the cache
/// that belongs to that commit and the target's name. The mock DA server, where it is asked for, is
/// the first version's.
pub proof fn artifacts_belong_to_their_commits(
    spec: BuildSpec,
    request: BuildRequest,
    replies: Seq<HostReply>,
    at: nat,
    i: int,
)
    requires
        0 <= i < spec.versions@.len(),
    ensures
        artifacts_prepared(spec, request, replies, at) matches Outcome::Gives((versions, mock), _)
            ==> {
            let v = spec.versions@[i];
            let targets = spec.targets.deep_view();
            let dir = request.cache_dir@;
            &&& versions.len() == spec.versions@.len()
            &&& versions[i].commit == v.commit@
            &&& versions[i].rollup_binary == cached_binary(
                dir,
                v.commit@,
                match targets.rollup.cache_name {
                    Some(name) => name,
                    None => targets.rollup.bin,
                },
            )
            &&& versions[i].soak_binary is Some <==> request.build_soak_binaries || v.build_soak
            &&& versions[i].soak_binary matches Some(path) ==> path == cached_binary(
                dir,
                v.commit@,
                match targets.soak->0.cache_name {
                    Some(name) => name,
                    None => targets.soak->0.bin,
                },
            )
            &&& mock is Some <==> request.build_mock_da_binary
            &&& mock matches Some(path) ==> path == cached_binary(
                dir,
                spec.versions@[0].commit@,
                match targets.mock_da->0.cache_name {
                    Some(name) => name,
                    None => targets.mock_da->0.bin,
                },
            )
        },
{
    crate::artifact_builder::prepared_paths_are_fixed(spec, request, replies, at);
}

/// Whether a procedure has obtained a target's binary for a commit, from the replies between two
/// positions: under the target's own name in the cache, or built with the target's own options.
pub open spec fn target_obtained<T, E>(
    procedure: spec_fn(Seq<HostReply>) -> Outcome<T, E>,
    replies: Seq<HostReply>,
    a: nat,
    b: nat,
    builder: BuilderView,
    commit: Seq<char>,
    target: TargetView,
) -> bool {
    let name = match target.cache_name {
        Some(name) => name,
        None => target.bin,
    };
    let args = target.cargo_args("-p"@);
    let dir = builder.cache_dir;
    let url = builder.repo_url;
    &&& gives_at(obtained(dir, url, commit, name, args, target.bin, replies, a), b)
    &&& within(
        |r: Seq<HostReply>| obtained(dir, url, commit, name, args, target.bin, r, a),
        procedure,
        replies,
        a,
    )
}

pub(crate) proof fn lift_target<T, E, U, F>(
    inner: spec_fn(Seq<HostReply>) -> Outcome<T, E>,
    outer: spec_fn(Seq<HostReply>) -> Outcome<U, F>,
    replies: Seq<HostReply>,
    a: nat,
    b: nat,
    builder: BuilderView,
    commit: Seq<char>,
    target: TargetView,
)
    requires
        target_obtained(inner, replies, a, b, builder, commit, target),
        within(inner, outer, replies, a),
    ensures
        target_obtained(outer, replies, a, b, builder, commit, target),
{
    let name = target.file_name();
    let args = target.cargo_args("-p"@);
    let dir = builder.cache_dir;
    let url = builder.repo_url;
    let f = |r: Seq<HostReply>| obtained(dir, url, commit, name, args, target.bin, r, a);
    assert forall|j: nat, call: HostCallView|
        a <= j && #[trigger] called(f, replies, j, call) implies called(
        outer,
        replies,
        j,
        call,
    ) by {
        assert(called(inner, replies, j, call));
    }
}

proof fn artifact_calls(
    b: BuilderView,
    commit: Seq<char>,
    with_soak: bool,
    replies: Seq<HostReply>,
    at: nat,
) -> (calls: (nat, nat))
    requires
        b.version_artifacts(commit, with_soak, replies, at) is Gives,
    ensures
        ({
            let f = |r: Seq<HostReply>| b.version_artifacts(commit, with_soak, r, at);
            &&& target_obtained(f, replies, at, calls.0, b, commit, b.targets.rollup)
            &&& at <= calls.0
            &&& with_soak ==> b.targets.soak is Some && target_obtained(
                f,
                replies,
                calls.0,
                calls.1,
                b,
                commit,
                b.targets.soak->0,
            )
        }),
{
    let f = |r: Seq<HostReply>| b.version_artifacts(commit, with_soak, r, at);
    let rollup = b.targets.rollup;
    let mid = b.target_binary(commit, rollup, replies, at)->Gives_1;
    target_binary_on_prefix(b, commit, rollup, replies, at, replies.len());
    let g = |r: Seq<HostReply>| b.target_binary(commit, rollup, r, at);
    assert(within(g, f, replies, at));
    assert(target_obtained(g, replies, at, mid, b, commit, rollup));
    lift_target(g, f, replies, at, mid, b, commit, rollup);
    if with_soak {
        let soak = b.targets.soak->0;
        let end = b.target_binary(commit, soak, replies, mid)->Gives_1;
        let h = |r: Seq<HostReply>| b.target_binary(commit, soak, r, mid);
        assert forall|j: nat, call: HostCallView|
            mid <= j && #[trigger] called(h, replies, j, call) implies called(
            f,
            replies,
            j,
            call,
        ) by {
            target_binary_on_prefix(b, commit, rollup, replies, at, j);
        }
        assert(target_obtained(h, replies, mid, end, b, commit, soak));
        lift_target(h, f, replies, mid, end, b, commit, soak);
        (mid, end)
    } else {
        (mid, mid)
    }
}

pub(crate) proof fn all_artifact_calls(
    b: BuilderView,
    versions: Seq<VersionBuildSpec>,
    soak_for_all: bool,
    done: Seq<PreparedVersionArtifacts<Seq<char>>>,
    replies: Seq<HostReply>,
    at: nat,
    i: int,
) -> (calls: (nat, nat, nat))
    requires
        0 <= i < versions.len(),
        b.all_artifacts(versions, soak_for_all, done, replies, at) is Gives,
    ensures
        ({
            let f = |r: Seq<HostReply>| b.all_artifacts(versions, soak_for_all, done, r, at);
            let commit = versions[i].commit@;
            &&& at <= calls.0 <= calls.1
            &&& target_obtained(f, replies, calls.0, calls.1, b, commit, b.targets.rollup)
            &&& soak_for_all || versions[i].build_soak ==> b.targets.soak is Some
                && target_obtained(
                f,
                replies,
                calls.1,
                calls.2,
                b,
                commit,
                b.targets.soak->0,
            )
        }),
    decreases versions.len(),
{
    let f = |r: Seq<HostReply>| b.all_artifacts(versions, soak_for_all, done, r, at);
    let first = versions[0].commit@;
    let with_soak = soak_for_all || versions[0].build_soak;
    version_artifacts_on_prefix(b, first, with_soak, replies, at, replies.len());
    let artifacts = b.version_artifacts(first, with_soak, replies, at)->Gives_0;
    let next = b.version_artifacts(first, with_soak, replies, at)->Gives_1;
    let commit = versions[i].commit@;
    if i > 0 {
        let rest = versions.skip(1);
        let more = done.push(artifacts);
        let calls = all_artifact_calls(b, rest, soak_for_all, more, replies, next, i - 1);
        let g = |r: Seq<HostReply>| b.all_artifacts(rest, soak_for_all, more, r, next);
        assert forall|j: nat, call: HostCallView|
            next <= j && #[trigger] called(g, replies, j, call) implies called(
            f,
            replies,
            j,
            call,
        ) by {
            version_artifacts_on_prefix(b, first, with_soak, replies, at, j);
        }
        assert(within(g, f, replies, calls.0));
        lift_target(g, f, replies, calls.0, calls.1, b, commit, b.targets.rollup);
        if soak_for_all || versions[i].build_soak {
            assert(within(g, f, replies, calls.1));
            lift_target(g, f, replies, calls.1, calls.2, b, commit, b.targets.soak->0);
        }
        calls
    } else {
        let (mid, end) = artifact_calls(b, first, with_soak, replies, at);
        let g = |r: Seq<HostReply>| b.version_artifacts(first, with_soak, r, at);
        assert(within(g, f, replies, at));
        lift_target(g, f, replies, at, mid, b, commit, b.targets.rollup);
        if with_soak {
            assert(within(g, f, replies, mid));
            lift_target(g, f, replies, mid, end, b, commit, b.targets.soak->0);
        }
        (at, mid, end)
    }
}

/// Every artifact of a version has been obtained with its own target's options from the version's
/// own commit, out of the repository that the spec names, or the starter repository where it names
/// none: first the rollup, then, where they are asked for, the soak workers.
pub proof fn artifacts_are_built_from_their_targets(
    spec: BuildSpec,
    request: BuildRequest,
    replies: Seq<HostReply>,
    at: nat,
    i: int,
) -> (calls: (nat, nat, nat))
    requires
        0 <= i < spec.versions@.len(),
        artifacts_prepared(spec, request, replies, at) is Gives,
    ensures
        ({
            let f = |r: Seq<HostReply>| artifacts_prepared(spec, request, r, at);
            let targets = spec.targets.deep_view();
            let b = BuilderView {
                cache_dir: request.cache_dir@,
                repo_url: match spec.repo_url {
                    Some(url) => url@,
                    None => "https://github.com/Sovereign-Labs/rollup-starter"@,
                },
                targets,
            };
            let commit = spec.versions@[i].commit@;
            &&& at <= calls.0 <= calls.1
            &&& target_obtained(f, replies, calls.0, calls.1, b, commit, targets.rollup)
            &&& request.build_soak_binaries || spec.versions@[i].build_soak
                ==> targets.soak is Some && target_obtained(
                f,
                replies,
                calls.1,
                calls.2,
                b,
                commit,
                targets.soak->0,
            )
        }),
{
    let f = |r: Seq<HostReply>| artifacts_prepared(spec, request, r, at);
    let b = requested_builder(spec, request);
    let soak = request.build_soak_binaries;
    let commit = spec.versions@[i].commit@;
    let calls = all_artifact_calls(b, spec.versions@, soak, seq![], replies, at, i);
    let g = |r: Seq<HostReply>| b.all_artifacts(spec.versions@, soak, seq![], r, at);
    assert(within(g, f, replies, calls.0));
    lift_target(g, f, replies, calls.0, calls.1, b, commit, b.targets.rollup);
    if soak || spec.versions@[i].build_soak {
        assert(within(g, f, replies, calls.1));
        lift_target(g, f, replies, calls.1, calls.2, b, commit, b.targets.soak->0);
    }
    calls
}

} // verus!

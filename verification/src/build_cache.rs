//! Binaries built from commits of a git repository, kept under a cache directory.
use vstd::prelude::*;

use crate::journal::{
    command_at, flag_at, outcome, status_at, HostCall, HostCallView, HostReply, Journal, Outcome,
    Stop,
};
use crate::path::{join_path, joined_path, parent, parent_path};
use crate::process::{no_args, push_arg, CommandOutcome, CommandSpec, CommandView};

verus! {

/// Errors that can occur during artifact building. In contracts a text is `Seq<char>`.
#[derive(Debug)]
pub enum BuilderError<S = String> {
    CreateCacheDir(S),
    GitClone(S),
    GitFetch(S),
    GitCheckout { commit: S, message: S },
    CargoBuild(S),
    CopyBinary(S),
    BinaryNotFound(S),
    TargetDisabled(S),
}

impl DeepView for BuilderError {
    type V = BuilderError<Seq<char>>;

    open spec fn deep_view(&self) -> BuilderError<Seq<char>> {
        match *self {
            BuilderError::CreateCacheDir(m) => BuilderError::CreateCacheDir(m@),
            BuilderError::GitClone(m) => BuilderError::GitClone(m@),
            BuilderError::GitFetch(m) => BuilderError::GitFetch(m@),
            BuilderError::GitCheckout { commit, message } => BuilderError::GitCheckout {
                commit: commit@,
                message: message@,
            },
            BuilderError::CargoBuild(m) => BuilderError::CargoBuild(m@),
            BuilderError::CopyBinary(m) => BuilderError::CopyBinary(m@),
            BuilderError::BinaryNotFound(p) => BuilderError::BinaryNotFound(p@),
            BuilderError::TargetDisabled(n) => BuilderError::TargetDisabled(n@),
        }
    }
}

/// What a command that has to succeed gives: nothing, or why it did not.
pub open spec fn success_of(outcome: CommandOutcome) -> Result<(), Seq<char>> {
    match outcome {
        CommandOutcome::NotStarted(message) => Err(message@),
        CommandOutcome::Finished(output) => if output.status.succeeded() {
            Ok(())
        } else {
            Err(output.stderr@)
        },
    }
}

/// Where the repository is cloned to.
pub open spec fn repo_dir(cache_dir: Seq<char>) -> Seq<char> {
    joined_path(cache_dir, "repo"@)
}

/// Where a binary that was built from a commit is kept.
pub open spec fn cached_binary(cache_dir: Seq<char>, commit: Seq<char>, name: Seq<char>) -> Seq<
    char,
> {
    joined_path(joined_path(joined_path(cache_dir, "binaries"@), commit), name)
}

/// Where cargo leaves a binary.
pub open spec fn built_binary(root: Seq<char>, bin: Seq<char>) -> Seq<char> {
    joined_path(joined_path(joined_path(root, "target"@), "release"@), bin)
}

/// `git clone`.
pub open spec fn clone_command(cache_dir: Seq<char>, repo_url: Seq<char>) -> CommandView {
    CommandView {
        program: "git"@,
        args: seq!["clone"@, repo_url, repo_dir(cache_dir)],
        current_dir: None,
    }
}

/// `git fetch` in the clone.
pub open spec fn fetch_command(cache_dir: Seq<char>) -> CommandView {
    CommandView {
        program: "git"@,
        args: seq!["fetch"@, "--all"@],
        current_dir: Some(repo_dir(cache_dir)),
    }
}

/// `git checkout` in the clone.
pub open spec fn checkout_command(cache_dir: Seq<char>, commit: Seq<char>) -> CommandView {
    CommandView {
        program: "git"@,
        args: seq!["checkout"@, commit],
        current_dir: Some(repo_dir(cache_dir)),
    }
}

/// `cargo` in a directory.
pub open spec fn cargo_command(dir: Seq<char>, args: Seq<Seq<char>>) -> CommandView {
    CommandView { program: "cargo"@, args, current_dir: Some(dir) }
}

/// A command that has to succeed, where `fail` makes an error of the reason why it did not.
pub open spec fn ran<E>(
    command: CommandView,
    fail: spec_fn(Seq<char>) -> E,
    replies: Seq<HostReply>,
    at: nat,
) -> Outcome<(), E> {
    match command_at(replies, at) {
        None => Outcome::Asks(HostCallView::Run { command }, at),
        Some(o) => match success_of(o) {
            Ok(()) => Outcome::Gives((), at + 1),
            Err(message) => Outcome::Fails(fail(message), at + 1),
        },
    }
}

/// A clone that is there is brought up to date; one that is not is made.
pub open spec fn repo_ensured(
    cache_dir: Seq<char>,
    repo_url: Seq<char>,
    replies: Seq<HostReply>,
    at: nat,
) -> Outcome<(), BuilderError<Seq<char>>> {
    match flag_at(replies, at) {
        None => Outcome::Asks(HostCallView::PathExists { path: repo_dir(cache_dir) }, at),
        Some(true) => ran(
            fetch_command(cache_dir),
            |m: Seq<char>| BuilderError::GitFetch(m),
            replies,
            at + 1,
        ),
        Some(false) => match status_at(replies, at + 1) {
            None => Outcome::Asks(HostCallView::CreateDirAll { path: cache_dir }, at + 1),
            Some(Err(m)) => Outcome::Fails(BuilderError::CreateCacheDir(m@), at + 2),
            Some(Ok(())) => ran(
                clone_command(cache_dir, repo_url),
                |m: Seq<char>| BuilderError::GitClone(m),
                replies,
                at + 2,
            ),
        },
    }
}

/// The clone is put at a commit.
pub open spec fn checked_out(
    cache_dir: Seq<char>,
    commit: Seq<char>,
    replies: Seq<HostReply>,
    at: nat,
) -> Outcome<(), BuilderError<Seq<char>>> {
    ran(
        checkout_command(cache_dir, commit),
        |m: Seq<char>| BuilderError::GitCheckout { commit, message: m },
        replies,
        at,
    )
}

/// A file is copied to a path whose directory is made first.
pub open spec fn stored(
    from: Seq<char>,
    to: Seq<char>,
    replies: Seq<HostReply>,
    at: nat,
) -> Outcome<Seq<char>, BuilderError<Seq<char>>> {
    let made = match parent(to) {
        None => Outcome::Gives((), at),
        Some(dir) => match status_at(replies, at) {
            None => Outcome::Asks(HostCallView::CreateDirAll { path: dir }, at),
            Some(Err(m)) => Outcome::Fails(BuilderError::CopyBinary(m@), at + 1),
            Some(Ok(())) => Outcome::Gives((), at + 1),
        },
    };
    match made {
        Outcome::Asks(call, stop) => Outcome::Asks(call, stop),
        Outcome::Fails(e, next) => Outcome::Fails(e, next),
        Outcome::Gives(_, next) => match status_at(replies, next) {
            None => Outcome::Asks(HostCallView::CopyFile { from, to }, next),
            Some(Err(m)) => Outcome::Fails(BuilderError::CopyBinary(m@), next + 1),
            Some(Ok(())) => Outcome::Gives(to, next + 1),
        },
    }
}

/// The clone is built by `cargo`, and the binary `bin` that this leaves is stored at `to`.
pub open spec fn built(
    cache_dir: Seq<char>,
    args: Seq<Seq<char>>,
    bin: Seq<char>,
    to: Seq<char>,
    replies: Seq<HostReply>,
    at: nat,
) -> Outcome<Seq<char>, BuilderError<Seq<char>>> {
    let from = built_binary(repo_dir(cache_dir), bin);
    match ran(
        cargo_command(repo_dir(cache_dir), args),
        |m: Seq<char>| BuilderError::CargoBuild(m),
        replies,
        at,
    ) {
        Outcome::Asks(call, stop) => Outcome::Asks(call, stop),
        Outcome::Fails(e, next) => Outcome::Fails(e, next),
        Outcome::Gives(_, next) => match flag_at(replies, next) {
            None => Outcome::Asks(HostCallView::PathExists { path: from }, next),
            Some(false) => Outcome::Fails(BuilderError::BinaryNotFound(from), next + 1),
            Some(true) => stored(from, to, replies, next + 1),
        },
    }
}

/// A binary that is in the cache is taken from there; one that is not is built from its commit.
#[verifier::opaque]
pub open spec fn obtained(
    cache_dir: Seq<char>,
    repo_url: Seq<char>,
    commit: Seq<char>,
    name: Seq<char>,
    args: Seq<Seq<char>>,
    bin: Seq<char>,
    replies: Seq<HostReply>,
    at: nat,
) -> Outcome<Seq<char>, BuilderError<Seq<char>>> {
    let to = cached_binary(cache_dir, commit, name);
    match flag_at(replies, at) {
        None => Outcome::Asks(HostCallView::PathExists { path: to }, at),
        Some(true) => Outcome::Gives(to, at + 1),
        Some(false) => match repo_ensured(cache_dir, repo_url, replies, at + 1) {
            Outcome::Asks(call, stop) => Outcome::Asks(call, stop),
            Outcome::Fails(e, next) => Outcome::Fails(e, next),
            Outcome::Gives(_, ready) => match checked_out(cache_dir, commit, replies, ready) {
                Outcome::Asks(call, stop) => Outcome::Asks(call, stop),
                Outcome::Fails(e, next) => Outcome::Fails(e, next),
                Outcome::Gives(_, next) => built(cache_dir, args, bin, to, replies, next),
            },
        },
    }
}

/// A binary is only ever given at its place in the cache, whatever the host replies.
pub proof fn obtained_from_cache(
    cache_dir: Seq<char>,
    repo_url: Seq<char>,
    commit: Seq<char>,
    name: Seq<char>,
    args: Seq<Seq<char>>,
    bin: Seq<char>,
    replies: Seq<HostReply>,
    at: nat,
)
    ensures
        obtained(cache_dir, repo_url, commit, name, args, bin, replies, at) matches Outcome::Gives(
            path,
            next,
        ) ==> path == cached_binary(cache_dir, commit, name) && at < next <= replies.len(),
        flag_at(replies, at) == Some(true) ==> obtained(
            cache_dir,
            repo_url,
            commit,
            name,
            args,
            bin,
            replies,
            at,
        ) == Outcome::<Seq<char>, BuilderError<Seq<char>>>::Gives(
            cached_binary(cache_dir, commit, name),
            at + 1,
        ),
{
    reveal(obtained);
}

/// A binary that has been obtained depends on nothing but the replies that have been read.
pub proof fn obtained_from_the_replies_read(
    cache_dir: Seq<char>,
    repo_url: Seq<char>,
    commit: Seq<char>,
    name: Seq<char>,
    args: Seq<Seq<char>>,
    bin: Seq<char>,
    replies: Seq<HostReply>,
    at: nat,
    known: nat,
)
    requires
        known <= replies.len(),
        obtained(cache_dir, repo_url, commit, name, args, bin, replies, at) matches Outcome::Gives(
            _,
            next,
        ) && next <= known,
    ensures
        obtained(cache_dir, repo_url, commit, name, args, bin, replies.take(known as int), at)
            == obtained(cache_dir, repo_url, commit, name, args, bin, replies, at),
{
    reveal(obtained);
}

/// What a command that has to succeed gives.
pub fn command_success(outcome: CommandOutcome) -> (r: Result<(), String>)
    ensures
        match success_of(outcome) {
            Ok(()) => r is Ok,
            Err(message) => r is Err && r->Err_0@ == message,
        },
{
    match outcome {
        CommandOutcome::NotStarted(message) => Err(message),
        CommandOutcome::Finished(output) => if output.status.success() {
            Ok(())
        } else {
            Err(output.stderr)
        },
    }
}

/// Where the repository is cloned to.
pub fn repo_path(cache_dir: &String) -> (p: String)
    ensures
        p@ == repo_dir(cache_dir@),
{
    join_path(cache_dir, "repo")
}

/// Where a binary that was built from a commit is kept.
pub fn binary_cache_path(cache_dir: &String, commit: &str, name: &str) -> (p: String)
    ensures
        p@ == cached_binary(cache_dir@, commit@, name@),
{
    let binaries = join_path(cache_dir, "binaries");
    let of_commit = join_path(binaries.as_str(), commit);
    join_path(of_commit.as_str(), name)
}

/// Where cargo leaves a binary.
pub fn built_binary_path(root: &str, bin: &str) -> (p: String)
    ensures
        p@ == built_binary(root@, bin@),
{
    let target = join_path(root, "target");
    let release = join_path(target.as_str(), "release");
    join_path(release.as_str(), bin)
}

/// A command line.
pub fn command(program: &str, args: Vec<String>, current_dir: Option<String>) -> (c: CommandSpec)
    ensures
        c@.program == program@,
        c@.args == args.deep_view(),
        c@.current_dir == current_dir.deep_view(),
{
    CommandSpec { program: program.to_string(), args, current_dir }
}

/// Ensures that the repository is cloned and up to date.
pub fn ensure_repo(cache_dir: &String, repo_url: &String, journal: &mut Journal) -> (r: Result<
    (),
    Stop<BuilderError>,
>)
    ensures
        outcome(r, *final(journal)) == repo_ensured(
            cache_dir@,
            repo_url@,
            old(journal).replies@,
            old(journal).next as nat,
        ),
        final(journal).replies == old(journal).replies,
{
    let repo = repo_path(cache_dir);
    let mut args = no_args();
    if journal.ask_flag(HostCall::PathExists { path: repo.clone() })? {
        push_arg(&mut args, "fetch");
        push_arg(&mut args, "--all");
        let fetch = command("git", args, Some(repo));
        assert(fetch@ =~= fetch_command(cache_dir@));
        let ran = journal.ask_run(fetch)?;
        match command_success(ran) {
            Ok(()) => Ok(()),
            Err(message) => Err(Stop::Fail(BuilderError::GitFetch(message))),
        }
    } else {
        match journal.ask_status(HostCall::CreateDirAll { path: cache_dir.clone() })? {
            Ok(()) => {},
            Err(message) => {
                return Err(Stop::Fail(BuilderError::CreateCacheDir(message)));
            },
        }
        push_arg(&mut args, "clone");
        push_arg(&mut args, repo_url);
        push_arg(&mut args, repo.as_str());
        let clone = command("git", args, None);
        assert(clone@ =~= clone_command(cache_dir@, repo_url@));
        let ran = journal.ask_run(clone)?;
        match command_success(ran) {
            Ok(()) => Ok(()),
            Err(message) => Err(Stop::Fail(BuilderError::GitClone(message))),
        }
    }
}

/// Puts the clone at a commit.
pub fn checkout(cache_dir: &String, commit: &str, journal: &mut Journal) -> (r: Result<
    (),
    Stop<BuilderError>,
>)
    ensures
        outcome(r, *final(journal)) == checked_out(
            cache_dir@,
            commit@,
            old(journal).replies@,
            old(journal).next as nat,
        ),
        final(journal).replies == old(journal).replies,
{
    let mut args = no_args();
    push_arg(&mut args, "checkout");
    push_arg(&mut args, commit);
    let git = command("git", args, Some(repo_path(cache_dir)));
    assert(git@ =~= checkout_command(cache_dir@, commit@));
    let ran = journal.ask_run(git)?;
    match command_success(ran) {
        Ok(()) => Ok(()),
        Err(message) => Err(
            Stop::Fail(BuilderError::GitCheckout { commit: commit.to_string(), message }),
        ),
    }
}

/// Copies a file to a path whose directory is made first.
fn store(from: String, to: String, journal: &mut Journal) -> (r: Result<
    String,
    Stop<BuilderError>,
>)
    ensures
        outcome(r, *final(journal)) == stored(
            from@,
            to@,
            old(journal).replies@,
            old(journal).next as nat,
        ),
        final(journal).replies == old(journal).replies,
{
    match parent_path(to.as_str()) {
        None => {},
        Some(dir) => {
            match journal.ask_status(HostCall::CreateDirAll { path: dir })? {
                Ok(()) => {},
                Err(message) => {
                    return Err(Stop::Fail(BuilderError::CopyBinary(message)));
                },
            }
        },
    }
    match journal.ask_status(HostCall::CopyFile { from, to: to.clone() })? {
        Ok(()) => Ok(to),
        Err(message) => Err(Stop::Fail(BuilderError::CopyBinary(message))),
    }
}

/// Builds the clone and stores the binary `bin` at `to`.
pub fn build(
    cache_dir: &String,
    args: Vec<String>,
    bin: &str,
    to: String,
    journal: &mut Journal,
) -> (r: Result<String, Stop<BuilderError>>)
    ensures
        outcome(r, *final(journal)) == built(
            cache_dir@,
            args.deep_view(),
            bin@,
            to@,
            old(journal).replies@,
            old(journal).next as nat,
        ),
        final(journal).replies == old(journal).replies,
{
    let repo = repo_path(cache_dir);
    let from = built_binary_path(repo.as_str(), bin);
    let cargo = command("cargo", args, Some(repo));
    let ran = journal.ask_run(cargo)?;
    match command_success(ran) {
        Ok(()) => {},
        Err(message) => {
            return Err(Stop::Fail(BuilderError::CargoBuild(message)));
        },
    }
    if !journal.ask_flag(HostCall::PathExists { path: from.clone() })? {
        return Err(Stop::Fail(BuilderError::BinaryNotFound(from)));
    }
    store(from, to, journal)
}

/// Takes a binary from the cache, or builds it from its commit.
pub fn obtain(
    cache_dir: &String,
    repo_url: &String,
    commit: &str,
    name: &str,
    args: Vec<String>,
    bin: &str,
    journal: &mut Journal,
) -> (r: Result<String, Stop<BuilderError>>)
    ensures
        outcome(r, *final(journal)) == obtained(
            cache_dir@,
            repo_url@,
            commit@,
            name@,
            args.deep_view(),
            bin@,
            old(journal).replies@,
            old(journal).next as nat,
        ),
        final(journal).replies == old(journal).replies,
{
    reveal(obtained);
    let to = binary_cache_path(cache_dir, commit, name);
    if journal.ask_flag(HostCall::PathExists { path: to.clone() })? {
        return Ok(to);
    }
    ensure_repo(cache_dir, repo_url, journal)?;
    checkout(cache_dir, commit, journal)?;
    build(cache_dir, args, bin, to, journal)
}

} // verus!

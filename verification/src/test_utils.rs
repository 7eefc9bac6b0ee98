//! Fixtures for tests: config files, and git repositories that stand for a rollup.
use vstd::prelude::*;

use crate::build_cache::command;
use crate::journal::{
    called, command_at, gives_at, outcome, status_at, worked, HostCall, HostCallView, HostReply,
    Journal, Outcome, Stop,
};
use crate::path::{join_path, joined_path, parent, parent_path};
use crate::process::{no_args, push_arg, CommandOutcome, CommandSpec, CommandView, ExitStatus};
use crate::text::{concat3, decimal, decimal_text, trim_text, trimmed};

verus! {

/// Why a fixture could not be made. In contracts a text is `Seq<char>`.
#[derive(Debug)]
pub enum FixtureError<S = String> {
    CreateParentDirs(S),
    WriteFile(S),
    CommandNotRun(S),
    CommandFailed { status: ExitStatus, stdout: S, stderr: S },
}

impl DeepView for FixtureError {
    type V = FixtureError<Seq<char>>;

    open spec fn deep_view(&self) -> FixtureError<Seq<char>> {
        match *self {
            FixtureError::CreateParentDirs(m) => FixtureError::CreateParentDirs(m@),
            FixtureError::WriteFile(m) => FixtureError::WriteFile(m@),
            FixtureError::CommandNotRun(m) => FixtureError::CommandNotRun(m@),
            FixtureError::CommandFailed { status, stdout, stderr } => FixtureError::CommandFailed {
                status,
                stdout: stdout@,
                stderr: stderr@,
            },
        }
    }
}

/// A git repository that stands for a rollup. In contracts a text is `Seq<char>`.
#[derive(Debug)]
pub struct LocalRollupRepo<S = String> {
    pub dir: S,
    pub commit: S,
}

impl DeepView for LocalRollupRepo {
    type V = LocalRollupRepo<Seq<char>>;

    open spec fn deep_view(&self) -> LocalRollupRepo<Seq<char>> {
        LocalRollupRepo { dir: self.dir@, commit: self.commit@ }
    }
}

impl LocalRollupRepo {
    /// What the repository is cloned from: its directory.
    pub fn repo_url(&self) -> (url: String)
        ensures
            url == self.dir,
    {
        self.dir.clone()
    }
}

/// A command runs, and succeeds; its standard output.
pub open spec fn succeeds(command: CommandView, replies: Seq<HostReply>, at: nat) -> Outcome<
    Seq<char>,
    FixtureError<Seq<char>>,
> {
    match command_at(replies, at) {
        None => Outcome::Asks(HostCallView::Run { command }, at),
        Some(CommandOutcome::NotStarted(m)) => Outcome::Fails(
            FixtureError::CommandNotRun(m@),
            at + 1,
        ),
        Some(CommandOutcome::Finished(output)) => if output.status.succeeded() {
            Outcome::Gives(output.stdout@, at + 1)
        } else {
            Outcome::Fails(
                FixtureError::CommandFailed {
                    status: output.status,
                    stdout: output.stdout@,
                    stderr: output.stderr@,
                },
                at + 1,
            )
        },
    }
}

/// Runs a command that has to succeed; its standard output.
pub fn run_ok(command: CommandSpec, journal: &mut Journal) -> (r: Result<
    String,
    Stop<FixtureError>,
>)
    ensures
        outcome(r, *final(journal)) == succeeds(
            command@,
            old(journal).replies@,
            old(journal).next as nat,
        ),
        final(journal).replies == old(journal).replies,
{
    match journal.ask_run(command)? {
        CommandOutcome::NotStarted(m) => Err(Stop::Fail(FixtureError::CommandNotRun(m))),
        CommandOutcome::Finished(output) => {
            if output.status.success() {
                return Ok(output.stdout);
            }
            Err(
                Stop::Fail(
                    FixtureError::CommandFailed {
                        status: output.status,
                        stdout: output.stdout,
                        stderr: output.stderr,
                    },
                ),
            )
        },
    }
}

/// A file is written, in a directory that is made first.
pub open spec fn file_written(
    path: Seq<char>,
    content: Seq<char>,
    replies: Seq<HostReply>,
    at: nat,
) -> Outcome<(), FixtureError<Seq<char>>> {
    let made = match parent(path) {
        None => Outcome::Gives((), at),
        Some(dir) => match status_at(replies, at) {
            None => Outcome::Asks(HostCallView::CreateDirAll { path: dir }, at),
            Some(Err(m)) => Outcome::Fails(FixtureError::CreateParentDirs(m@), at + 1),
            Some(Ok(())) => Outcome::Gives((), at + 1),
        },
    };
    match made {
        Outcome::Gives(_, next) => match status_at(replies, next) {
            None => Outcome::Asks(HostCallView::WriteText { path, content }, next),
            Some(Err(m)) => Outcome::Fails(FixtureError::WriteFile(m@), next + 1),
            Some(Ok(())) => Outcome::Gives((), next + 1),
        },
        stopped => stopped,
    }
}

/// Writes a file, in a directory that is made first.
pub fn write_file(path: &str, content: &str, journal: &mut Journal) -> (r: Result<
    (),
    Stop<FixtureError>,
>)
    ensures
        outcome(r, *final(journal)) == file_written(
            path@,
            content@,
            old(journal).replies@,
            old(journal).next as nat,
        ),
        final(journal).replies == old(journal).replies,
{
    if let Some(dir) = parent_path(path) {
        match journal.ask_status(HostCall::CreateDirAll { path: dir })? {
            Ok(()) => {},
            Err(m) => {
                return Err(Stop::Fail(FixtureError::CreateParentDirs(m)));
            },
        }
    }
    let call = HostCall::WriteText { path: path.to_string(), content: content.to_string() };
    match journal.ask_status(call)? {
        Ok(()) => Ok(()),
        Err(m) => Err(Stop::Fail(FixtureError::WriteFile(m))),
    }
}

/// The text of a rollup's config file.
pub open spec fn rollup_config_text(storage_path: Seq<char>, bind_port: u16) -> Seq<char> {
    "[storage]\npath = \""@ + storage_path + "\"\n\n[runner.http_config]\nbind_port = "@ + decimal(
        bind_port as nat,
    ) + "\n"@
}

/// Writes a rollup's config file.
pub fn write_rollup_config(
    path: &str,
    storage_path: &str,
    bind_port: u16,
    journal: &mut Journal,
) -> (r: Result<(), Stop<FixtureError>>)
    ensures
        outcome(r, *final(journal)) == file_written(
            path@,
            rollup_config_text(storage_path@, bind_port),
            old(journal).replies@,
            old(journal).next as nat,
        ),
        final(journal).replies == old(journal).replies,
{
    let head = concat3(
        "[storage]\npath = \"",
        storage_path,
        "\"\n\n[runner.http_config]\nbind_port = ",
    );
    let port = decimal_text(bind_port as u64);
    let content = concat3(head.as_str(), port.as_str(), "\n");
    write_file(path, content.as_str(), journal)
}

/// Files are written into a directory, one after the other.
pub open spec fn files_written(
    dir: Seq<char>,
    files: Seq<(Seq<char>, Seq<char>)>,
    replies: Seq<HostReply>,
    at: nat,
) -> Outcome<(), FixtureError<Seq<char>>>
    decreases files.len(),
{
    if files.len() == 0 {
        Outcome::Gives((), at)
    } else {
        match file_written(joined_path(dir, files[0].0), files[0].1, replies, at) {
            Outcome::Gives(_, next) => files_written(dir, files.skip(1), replies, next),
            stopped => stopped,
        }
    }
}

/// `git` in a directory.
pub open spec fn git(dir: Seq<char>, args: Seq<Seq<char>>) -> CommandView {
    CommandView { program: "git"@, args, current_dir: Some(dir) }
}

/// What makes a directory a repository with one commit.
pub open spec fn commit_steps() -> Seq<Seq<Seq<char>>> {
    seq![
        seq!["init"@],
        seq!["config"@, "user.email"@, "test@example.com"@],
        seq!["config"@, "user.name"@, "Test User"@],
        seq!["add"@, "."@],
        seq!["commit"@, "-m"@, "initial"@],
    ]
}

/// `git` runs in a directory with one list of arguments after the other.
pub open spec fn git_steps(
    dir: Seq<char>,
    steps: Seq<Seq<Seq<char>>>,
    replies: Seq<HostReply>,
    at: nat,
) -> Outcome<(), FixtureError<Seq<char>>>
    decreases steps.len(),
{
    if steps.len() == 0 {
        Outcome::Gives((), at)
    } else {
        match succeeds(git(dir, steps[0]), replies, at) {
            Outcome::Asks(call, stop) => Outcome::Asks(call, stop),
            Outcome::Fails(e, next) => Outcome::Fails(e, next),
            Outcome::Gives(_, next) => git_steps(dir, steps.skip(1), replies, next),
        }
    }
}

/// A repository is made of files: they are written and committed; the hash of the commit.
pub open spec fn repo_made(
    dir: Seq<char>,
    files: Seq<(Seq<char>, Seq<char>)>,
    replies: Seq<HostReply>,
    at: nat,
) -> Outcome<LocalRollupRepo<Seq<char>>, FixtureError<Seq<char>>> {
    match files_written(dir, files, replies, at) {
        Outcome::Asks(call, stop) => Outcome::Asks(call, stop),
        Outcome::Fails(e, next) => Outcome::Fails(e, next),
        Outcome::Gives(_, written) => match git_steps(dir, commit_steps(), replies, written) {
            Outcome::Asks(call, stop) => Outcome::Asks(call, stop),
            Outcome::Fails(e, next) => Outcome::Fails(e, next),
            Outcome::Gives(_, committed) => match succeeds(
                git(dir, seq!["rev-parse"@, "HEAD"@]),
                replies,
                committed,
            ) {
                Outcome::Asks(call, stop) => Outcome::Asks(call, stop),
                Outcome::Fails(e, next) => Outcome::Fails(e, next),
                Outcome::Gives(stdout, next) => Outcome::Gives(
                    LocalRollupRepo { dir, commit: trimmed(stdout) },
                    next,
                ),
            },
        },
    }
}

fn run_git(dir: &String, args: Vec<String>, journal: &mut Journal) -> (r: Result<
    String,
    Stop<FixtureError>,
>)
    ensures
        outcome(r, *final(journal)) == succeeds(
            git(dir@, args.deep_view()),
            old(journal).replies@,
            old(journal).next as nat,
        ),
        final(journal).replies == old(journal).replies,
{
    let c = command("git", args, Some(dir.clone()));
    assert(c@ =~= git(dir@, args.deep_view()));
    run_ok(c, journal)
}

fn write_files(dir: &String, files: &Vec<(&'static str, &'static str)>, journal: &mut Journal) -> (r:
    Result<(), Stop<FixtureError>>)
    ensures
        outcome(r, *final(journal)) == files_written(
            dir@,
            files.deep_view(),
            old(journal).replies@,
            old(journal).next as nat,
        ),
        final(journal).replies == old(journal).replies,
{
    let ghost all = files.deep_view();
    let ghost replies = journal.replies@;
    let ghost whole = files_written(dir@, all, replies, journal.next as nat);
    let mut i: usize = 0;
    assert(all.skip(0) =~= all);
    while i < files.len()
        invariant
            i <= files.len(),
            all == files.deep_view(),
            replies == journal.replies@,
            journal.replies == old(journal).replies,
            whole == files_written(dir@, all, replies, old(journal).next as nat),
            whole == files_written(dir@, all.skip(i as int), replies, journal.next as nat),
        decreases files.len() - i,
    {
        assert(all.skip(i as int)[0] == all[i as int]);
        assert(all.skip(i as int).skip(1) =~= all.skip(i + 1));
        let path = join_path(dir, files[i].0);
        write_file(path.as_str(), files[i].1, journal)?;
        i = i + 1;
    }
    Ok(())
}

fn commit_all(dir: &String, journal: &mut Journal) -> (r: Result<(), Stop<FixtureError>>)
    ensures
        outcome(r, *final(journal)) == git_steps(
            dir@,
            commit_steps(),
            old(journal).replies@,
            old(journal).next as nat,
        ),
        final(journal).replies == old(journal).replies,
{
    proof {
        let steps = commit_steps();
        reveal_with_fuel(git_steps, 6);
        assert(steps.skip(1)[0] == steps[1]);
        assert(steps.skip(1).skip(1)[0] == steps[2]);
        assert(steps.skip(1).skip(1).skip(1)[0] == steps[3]);
        assert(steps.skip(1).skip(1).skip(1).skip(1)[0] == steps[4]);
        assert(steps.skip(1).skip(1).skip(1).skip(1).skip(1).len() == 0);
    }
    let mut init = no_args();
    push_arg(&mut init, "init");
    assert(init.deep_view() =~= commit_steps()[0]);
    run_git(dir, init, journal)?;

    let mut email = no_args();
    push_arg(&mut email, "config");
    push_arg(&mut email, "user.email");
    push_arg(&mut email, "test@example.com");
    assert(email.deep_view() =~= commit_steps()[1]);
    run_git(dir, email, journal)?;

    let mut name = no_args();
    push_arg(&mut name, "config");
    push_arg(&mut name, "user.name");
    push_arg(&mut name, "Test User");
    assert(name.deep_view() =~= commit_steps()[2]);
    run_git(dir, name, journal)?;

    let mut stage = no_args();
    push_arg(&mut stage, "add");
    push_arg(&mut stage, ".");
    assert(stage.deep_view() =~= commit_steps()[3]);
    run_git(dir, stage, journal)?;

    let mut commit = no_args();
    push_arg(&mut commit, "commit");
    push_arg(&mut commit, "-m");
    push_arg(&mut commit, "initial");
    assert(commit.deep_view() =~= commit_steps()[4]);
    run_git(dir, commit, journal)?;
    Ok(())
}

fn make_repo(dir: String, files: Vec<(&'static str, &'static str)>, journal: &mut Journal) -> (r:
    Result<LocalRollupRepo, Stop<FixtureError>>)
    ensures
        outcome(r, *final(journal)) == repo_made(
            dir@,
            files.deep_view(),
            old(journal).replies@,
            old(journal).next as nat,
        ),
        final(journal).replies == old(journal).replies,
{
    write_files(&dir, &files, journal)?;
    commit_all(&dir, journal)?;
    let mut args = no_args();
    push_arg(&mut args, "rev-parse");
    push_arg(&mut args, "HEAD");
    assert(args.deep_view() =~= seq!["rev-parse"@, "HEAD"@]);
    let stdout = run_git(&dir, args, journal)?;
    let commit = trim_text(stdout.as_str());
    Ok(LocalRollupRepo { dir, commit })
}

/// The manifest of a package with the binaries that a rollup repository has.
pub const ROLLUP_STARTER_MANIFEST: &'static str = r#"[package]
name = "rollup-starter-soak-test"
version = "0.1.0"
edition = "2021"

[features]
default = []
acceptance-testing = []
mock_da_external = []
mock_zkvm = []
"#;

/// A rollup that does nothing.
pub const ROLLUP_MAIN: &'static str = r#"fn main() { println!("rollup"); }"#;

/// Soak workers that do nothing.
pub const SOAK_MAIN: &'static str = r#"fn main() { println!("soak"); }"#;

/// A mock-da-server that does nothing.
pub const MOCK_DA_MAIN: &'static str = r#"fn main() { println!("mock-da"); }"#;

/// The manifest of a package whose rollup wraps the mock rollup.
pub const COMPATIBLE_MANIFEST: &'static str = r#"[package]
name = "manager-compatible-rollup"
version = "0.1.0"
edition = "2021"

[features]
default = []
acceptance-testing = []
mock_da_external = []
mock_zkvm = []
"#;

/// A rollup that wraps the mock rollup, and passes on the flags that it knows.
pub const ROLLUP_WRAPPER_MAIN: &'static str = r#"use std::process::{Command, ExitCode};

fn normalize_args() -> Vec<String> {
    let mut normalized = Vec::new();
    let mut args = std::env::args().skip(1);

    while let Some(arg) = args.next() {
        match arg.as_str() {
            // Flags understood by mock-rollup.
            "--rollup-config-path" | "--start-at-rollup-height" | "--stop-at-rollup-height" => {
                normalized.push(arg);
                if let Some(value) = args.next() {
                    normalized.push(value);
                }
            }
            // Flags passed by upgrade-simulator/manager that mock-rollup does not use.
            "--genesis-path" | "--metrics" => {
                let _ = args.next();
            }
            _ => {
                // Ignore unknown passthrough args so this wrapper stays compatible
                // with manager-style command lines.
            }
        }
    }

    normalized
}

fn main() -> ExitCode {
    let mock_rollup = std::env::var("MOCK_ROLLUP_BINARY")
        .expect("MOCK_ROLLUP_BINARY env var must be set");
    let status = Command::new(mock_rollup)
        .args(normalize_args())
        .status()
        .expect("failed to run wrapped mock-rollup binary");

    match status.code() {
        Some(code) => ExitCode::from(code as u8),
        None => ExitCode::FAILURE,
    }
}
"#;

/// A mock-da-server that runs and does nothing.
pub const IDLE_MAIN: &'static str = r#"use std::time::Duration;

fn main() {
    loop {
        std::thread::sleep(Duration::from_millis(250));
    }
}
"#;

/// The files of a repository whose binaries do nothing.
pub open spec fn local_rollup_files() -> Seq<(Seq<char>, Seq<char>)> {
    seq![
        ("Cargo.toml"@, ROLLUP_STARTER_MANIFEST@),
        ("src/bin/rollup.rs"@, ROLLUP_MAIN@),
        ("src/bin/rollup-starter-soak-test.rs"@, SOAK_MAIN@),
        ("src/bin/mock-da-server.rs"@, MOCK_DA_MAIN@),
    ]
}

/// The files of a repository whose rollup wraps the mock rollup.
pub open spec fn compatible_rollup_files() -> Seq<(Seq<char>, Seq<char>)> {
    seq![
        ("Cargo.toml"@, COMPATIBLE_MANIFEST@),
        ("src/bin/rollup.rs"@, ROLLUP_WRAPPER_MAIN@),
        ("src/bin/mock-da-server.rs"@, IDLE_MAIN@),
    ]
}

/// Makes a directory a repository whose binaries do nothing.
pub fn init_local_rollup_repo(dir: String, journal: &mut Journal) -> (r: Result<
    LocalRollupRepo,
    Stop<FixtureError>,
>)
    ensures
        outcome(r, *final(journal)) == repo_made(
            dir@,
            local_rollup_files(),
            old(journal).replies@,
            old(journal).next as nat,
        ),
        final(journal).replies == old(journal).replies,
{
    let mut files: Vec<(&'static str, &'static str)> = Vec::new();
    files.push(("Cargo.toml", ROLLUP_STARTER_MANIFEST));
    files.push(("src/bin/rollup.rs", ROLLUP_MAIN));
    files.push(("src/bin/rollup-starter-soak-test.rs", SOAK_MAIN));
    files.push(("src/bin/mock-da-server.rs", MOCK_DA_MAIN));
    assert(files.deep_view() =~= local_rollup_files());
    make_repo(dir, files, journal)
}

/// Makes a directory a repository whose `rollup` binary is a thin wrapper over
/// `MOCK_ROLLUP_BINARY` and whose `mock-da-server` is a long-running no-op process.
///
/// This is useful for end-to-end upgrade-simulator tests where we want manager
/// semantics with minimal repository boilerplate.
pub fn init_manager_compatible_rollup_repo(dir: String, journal: &mut Journal) -> (r: Result<
    LocalRollupRepo,
    Stop<FixtureError>,
>)
    ensures
        outcome(r, *final(journal)) == repo_made(
            dir@,
            compatible_rollup_files(),
            old(journal).replies@,
            old(journal).next as nat,
        ),
        final(journal).replies == old(journal).replies,
{
    let mut files: Vec<(&'static str, &'static str)> = Vec::new();
    files.push(("Cargo.toml", COMPATIBLE_MANIFEST));
    files.push(("src/bin/rollup.rs", ROLLUP_WRAPPER_MAIN));
    files.push(("src/bin/mock-da-server.rs", IDLE_MAIN));
    assert(files.deep_view() =~= compatible_rollup_files());
    make_repo(dir, files, journal)
}

proof fn file_settles(
    path: Seq<char>,
    content: Seq<char>,
    replies: Seq<HostReply>,
    at: nat,
    known: nat,
)
    requires
        known <= replies.len(),
    ensures
        file_written(path, content, replies, at) matches Outcome::Gives(_, next) ==> at < next
            <= replies.len() && (next <= known ==> gives_at(
            file_written(path, content, replies.take(known as int), at),
            next,
        )),
{
}

proof fn file_calls(
    dir: Seq<char>,
    files: Seq<(Seq<char>, Seq<char>)>,
    replies: Seq<HostReply>,
    at: nat,
    i: int,
) -> (k: nat)
    requires
        0 <= i < files.len(),
        files_written(dir, files, replies, at) is Gives,
    ensures
        at <= k,
        called(
            |r: Seq<HostReply>| files_written(dir, files, r, at),
            replies,
            k,
            HostCallView::WriteText { path: joined_path(dir, files[i].0), content: files[i].1 },
        ),
        worked(replies, k),
    decreases files.len(),
{
    let f = |r: Seq<HostReply>| files_written(dir, files, r, at);
    let path = joined_path(dir, files[0].0);
    file_settles(path, files[0].1, replies, at, replies.len());
    let next = file_written(path, files[0].1, replies, at)->Gives_1;
    if i > 0 {
        let rest = files.skip(1);
        let k = file_calls(dir, rest, replies, next, i - 1);
        let g = |r: Seq<HostReply>| files_written(dir, rest, r, next);
        assert(g(replies.take(k as int)) is Asks);
        file_settles(path, files[0].1, replies, at, k);
        assert(f(replies.take(k as int)) == g(replies.take(k as int)));
        k
    } else {
        let k = (next - 1) as nat;
        assert(file_written(path, files[0].1, replies.take(k as int), at) is Asks);
        assert(f(replies.take(k as int)) is Asks);
        k
    }
}

proof fn files_settle(
    dir: Seq<char>,
    files: Seq<(Seq<char>, Seq<char>)>,
    replies: Seq<HostReply>,
    at: nat,
    known: nat,
)
    requires
        known <= replies.len(),
    ensures
        files_written(dir, files, replies, at) matches Outcome::Gives(_, next) ==> at <= next && (
        next <= known ==> gives_at(files_written(dir, files, replies.take(known as int), at), next)),
    decreases files.len(),
{
    if files.len() > 0 {
        let path = joined_path(dir, files[0].0);
        file_settles(path, files[0].1, replies, at, known);
        if let Outcome::Gives(_, next) = file_written(path, files[0].1, replies, at) {
            files_settle(dir, files.skip(1), replies, next, known);
        }
    }
}

/// Every file of a fixture repository is written, with its text, into the repository's directory.
pub proof fn repository_has_its_files(
    dir: Seq<char>,
    files: Seq<(Seq<char>, Seq<char>)>,
    replies: Seq<HostReply>,
    at: nat,
    i: int,
) -> (k: nat)
    requires
        0 <= i < files.len(),
        repo_made(dir, files, replies, at) is Gives,
    ensures
        called(
            |r: Seq<HostReply>| repo_made(dir, files, r, at),
            replies,
            k,
            HostCallView::WriteText { path: joined_path(dir, files[i].0), content: files[i].1 },
        ),
        worked(replies, k),
{
    let f = |r: Seq<HostReply>| repo_made(dir, files, r, at);
    let g = |r: Seq<HostReply>| files_written(dir, files, r, at);
    let k = file_calls(dir, files, replies, at, i);
    assert(g(replies.take(k as int)) is Asks);
    assert(f(replies.take(k as int)) is Asks);
    k
}

/// A fixture repository is committed once its files are there, under a test user's name; what is
/// given is its directory and the hash that `git` then tells, without white space around it. `k` is
/// where that begins.
pub proof fn repository_is_committed(
    dir: Seq<char>,
    files: Seq<(Seq<char>, Seq<char>)>,
    replies: Seq<HostReply>,
    at: nat,
) -> (k: nat)
    requires
        repo_made(dir, files, replies, at) is Gives,
    ensures
        ({
            let f = |r: Seq<HostReply>| repo_made(dir, files, r, at);
            let steps = seq![
                seq!["init"@],
                seq!["config"@, "user.email"@, "test@example.com"@],
                seq!["config"@, "user.name"@, "Test User"@],
                seq!["add"@, "."@],
                seq!["commit"@, "-m"@, "initial"@],
                seq!["rev-parse"@, "HEAD"@],
            ];
            &&& at <= k
            &&& forall|i: int|
                0 <= i < 6 ==> #[trigger] called(
                    f,
                    replies,
                    (k + i) as nat,
                    HostCallView::Run {
                        command: CommandView {
                            program: "git"@,
                            args: steps[i],
                            current_dir: Some(dir),
                        },
                    },
                )
            &&& f(replies) matches Outcome::Gives(repo, _) && repo.dir == dir && (command_at(
                replies,
                k + 5,
            ) matches Some(CommandOutcome::Finished(output)) && repo.commit == trimmed(
                output.stdout@,
            ))
        }),
{
    let f = |r: Seq<HostReply>| repo_made(dir, files, r, at);
    let k = files_written(dir, files, replies, at)->Gives_1;
    files_settle(dir, files, replies, at, replies.len());
    git_step_calls(dir, replies, k);
    let steps = commit_steps().push(seq!["rev-parse"@, "HEAD"@]);
    assert(steps =~= seq![
        seq!["init"@],
        seq!["config"@, "user.email"@, "test@example.com"@],
        seq!["config"@, "user.name"@, "Test User"@],
        seq!["add"@, "."@],
        seq!["commit"@, "-m"@, "initial"@],
        seq!["rev-parse"@, "HEAD"@],
    ]);
    assert forall|i: int| 0 <= i < 6 implies #[trigger] called(
        f,
        replies,
        (k + i) as nat,
        HostCallView::Run { command: git(dir, steps[i]) },
    ) by {
        files_settle(dir, files, replies, at, (k + i) as nat);
        let r = replies.take(k + i);
        if i < 5 {
            assert(git_steps(dir, commit_steps(), r, k) is Asks);
        }
    }
    k
}

proof fn git_step_calls(dir: Seq<char>, replies: Seq<HostReply>, at: nat)
    ensures
        git_steps(dir, commit_steps(), replies, at) is Gives ==> {
            &&& gives_at(git_steps(dir, commit_steps(), replies, at), at + 5)
            &&& at + 5 <= replies.len()
            &&& gives_at(git_steps(dir, commit_steps(), replies.take(at + 5int), at), at + 5)
            &&& forall|i: int|
                0 <= i < 5 ==> git_steps(dir, commit_steps(), #[trigger] replies.take(at + i), at)
                    == Outcome::<(), FixtureError<Seq<char>>>::Asks(
                    HostCallView::Run { command: git(dir, commit_steps()[i]) },
                    (at + i) as nat,
                )
        },
{
    reveal_with_fuel(git_steps, 6);
    let s = commit_steps();
    assert(s.skip(1)[0] == s[1]);
    assert(s.skip(1).skip(1)[0] == s[2]);
    assert(s.skip(1).skip(1).skip(1)[0] == s[3]);
    assert(s.skip(1).skip(1).skip(1).skip(1)[0] == s[4]);
    assert(s.skip(1).skip(1).skip(1).skip(1).skip(1).len() == 0);
}

/// A file is written with exactly the given text, once its directory has been made.
pub proof fn file_has_its_directory(
    path: Seq<char>,
    content: Seq<char>,
    replies: Seq<HostReply>,
    at: nat,
    next: nat,
)
    requires
        gives_at(file_written(path, content, replies, at), next),
    ensures
        ({
            let f = |r: Seq<HostReply>| file_written(path, content, r, at);
            &&& parent(path) matches Some(dir) ==> {
                &&& next == at + 2
                &&& called(f, replies, at, HostCallView::CreateDirAll { path: dir })
                &&& worked(replies, at)
            }
            &&& next > 0
            &&& called(f, replies, (next - 1) as nat, HostCallView::WriteText { path, content })
            &&& worked(replies, (next - 1) as nat)
        }),
{
    let f = |r: Seq<HostReply>| file_written(path, content, r, at);
    assert(f(replies.take(at as int)) is Asks);
    assert(f(replies.take(next - 1)) is Asks);
}

/// A rollup's config file names its storage path and its port.
pub proof fn config_names_storage_and_port(storage_path: Seq<char>, bind_port: u16)
    ensures
        rollup_config_text(storage_path, bind_port) == "[storage]\npath = \""@ + storage_path
            + "\"\n\n[runner.http_config]\nbind_port = "@ + decimal(bind_port as nat) + "\n"@,
{
}

} // verus!

//! Docker container lifecycle management for postgres.
//!
//! The container hosts two databases:
//! - `sequencer`: For rollup soft confirmation storage (reset between test phases)
//! - `mock_da`: For mock DA server storage (persists across test phases)
use vstd::prelude::*;

use rand::Rng;

use crate::build_cache::command;
use crate::journal::{
    command_at, done_at, millis_at, outcome, HostCall, HostCallView, HostReply, Journal, Outcome,
    Stop,
};
use crate::process::{no_args, push_arg, CommandOutcome, CommandSpec, CommandView};
use crate::text::{concat2, concat3, decimal, decimal_text};

verus! {

/// The name of the container.
pub const CONTAINER_NAME: &'static str = "upgrade_simulator_postgres";

/// The port that the container is reached at.
pub const CONTAINER_PORT: u64 = 5432;

/// Database name for sequencer soft confirmation storage.
pub const SEQUENCER_DB: &'static str = "sequencer";

/// Database name for mock DA server storage.
pub const MOCK_DA_DB: &'static str = "mock_da";

/// How many characters a password has.
pub const PASSWORD_LENGTH: u8 = 16;

/// How long postgres may take to accept connections.
pub const READY_TIMEOUT_SECS: u64 = 30;

/// The pause between two readiness checks.
pub const READY_POLL_MILLIS: u64 = 1000;

/// Errors that can occur during docker operations. In contracts a text is `Seq<char>`.
#[derive(Debug)]
pub enum DockerError<S = String> {
    Start { name: S, source: S },
    StartFailed { name: S, code: Option<i32>, stderr: S },
    NotReady { name: S, timeout_secs: u64 },
    ReadinessCheck { name: S, source: S },
    Stop { name: S, source: S },
    Remove { name: S, source: S },
    SqlExec { name: S, source: S },
    SqlFailed { name: S, code: Option<i32>, stderr: S },
}

impl DeepView for DockerError {
    type V = DockerError<Seq<char>>;

    open spec fn deep_view(&self) -> DockerError<Seq<char>> {
        match *self {
            DockerError::Start { name, source } => DockerError::Start {
                name: name@,
                source: source@,
            },
            DockerError::StartFailed { name, code, stderr } => DockerError::StartFailed {
                name: name@,
                code,
                stderr: stderr@,
            },
            DockerError::NotReady { name, timeout_secs } => DockerError::NotReady {
                name: name@,
                timeout_secs,
            },
            DockerError::ReadinessCheck { name, source } => DockerError::ReadinessCheck {
                name: name@,
                source: source@,
            },
            DockerError::Stop { name, source } => DockerError::Stop {
                name: name@,
                source: source@,
            },
            DockerError::Remove { name, source } => DockerError::Remove {
                name: name@,
                source: source@,
            },
            DockerError::SqlExec { name, source } => DockerError::SqlExec {
                name: name@,
                source: source@,
            },
            DockerError::SqlFailed { name, code, stderr } => DockerError::SqlFailed {
                name: name@,
                code,
                stderr: stderr@,
            },
        }
    }
}

/// An ASCII letter or digit.
pub open spec fn alphanumeric(c: char) -> bool {
    ('0' <= c && c <= '9') || ('A' <= c && c <= 'Z') || ('a' <= c && c <= 'z')
}

/// Calls `rand::rng` and samples it with `sample_iter` over `rand::distr::Alphanumeric`: as many
/// characters as asked for, each an ASCII letter or digit. Which ones is left to chance.
#[verifier::external_body]
fn random_alphanumeric(length: u8) -> (s: String)
    ensures
        s@.len() == length,
        forall|i: int| 0 <= i < s@.len() ==> alphanumeric(#[trigger] s@[i]),
{
    rand::rng()
        .sample_iter(&rand::distr::Alphanumeric)
        .take(usize::from(length))
        .map(char::from)
        .collect()
}

/// A password for the database, made up afresh.
pub fn generate_password() -> (password: String)
    ensures
        password@.len() == PASSWORD_LENGTH,
        forall|i: int| 0 <= i < password@.len() ==> alphanumeric(#[trigger] password@[i]),
{
    random_alphanumeric(PASSWORD_LENGTH)
}

/// A running postgres container.
#[derive(Debug)]
pub struct PostgresDockerContainer {
    pub container_name: String,
    pub port: u64,
    pub password: String,
    pub cleaned_up: bool,
}

/// The text of a container.
#[verifier::ext_equal]
pub struct ContainerView {
    pub container_name: Seq<char>,
    pub port: u64,
    pub password: Seq<char>,
    pub cleaned_up: bool,
}

impl DeepView for PostgresDockerContainer {
    type V = ContainerView;

    open spec fn deep_view(&self) -> ContainerView {
        ContainerView {
            container_name: self.container_name@,
            port: self.port,
            password: self.password@,
            cleaned_up: self.cleaned_up,
        }
    }
}

/// A docker command line.
pub open spec fn docker(args: Seq<Seq<char>>) -> CommandView {
    CommandView { program: "docker"@, args, current_dir: None }
}

/// The container that is started with a password.
pub open spec fn fresh_container(password: Seq<char>) -> ContainerView {
    ContainerView {
        container_name: CONTAINER_NAME@,
        port: CONTAINER_PORT,
        password,
        cleaned_up: false,
    }
}

impl ContainerView {
    /// Starts the container.
    pub open spec fn run_command(self) -> CommandView {
        docker(
            seq![
                "run"@,
                "-d"@,
                "--name"@,
                self.container_name,
                "-e"@,
                "POSTGRES_PASSWORD="@ + self.password,
                "-p"@,
                decimal(self.port as nat) + ":5432"@,
                "postgres:16"@,
            ],
        )
    }

    /// Asks whether postgres accepts connections.
    pub open spec fn ready_command(self) -> CommandView {
        docker(seq!["exec"@, self.container_name, "pg_isready"@, "-U"@, "postgres"@])
    }

    /// Executes SQL.
    pub open spec fn sql_command(self, sql: Seq<char>) -> CommandView {
        docker(
            seq!["exec"@, self.container_name, "psql"@, "-U"@, "postgres"@, "-c"@, sql],
        )
    }

    /// Stops the container.
    pub open spec fn stop_command(self) -> CommandView {
        docker(seq!["stop"@, self.container_name])
    }

    /// Removes the container.
    pub open spec fn remove_command(self) -> CommandView {
        docker(seq!["rm"@, "-f"@, self.container_name])
    }

    /// The connection string of a database.
    pub open spec fn connection_string(self, database: Seq<char>) -> Seq<char> {
        "postgresql://postgres:"@ + self.password + "@localhost:"@ + decimal(self.port as nat)
            + "/"@ + database
    }

    /// SQL is executed, and has to succeed.
    pub open spec fn sql_executed(self, sql: Seq<char>, replies: Seq<HostReply>, at: nat)
        -> Outcome<(), DockerError<Seq<char>>> {
        let name = self.container_name;
        match command_at(replies, at) {
            None => Outcome::Asks(HostCallView::Run { command: self.sql_command(sql) }, at),
            Some(CommandOutcome::NotStarted(m)) => Outcome::Fails(
                DockerError::SqlExec { name, source: m@ },
                at + 1,
            ),
            Some(CommandOutcome::Finished(output)) => if output.status.succeeded() {
                Outcome::Gives((), at + 1)
            } else {
                Outcome::Fails(
                    DockerError::SqlFailed {
                        name,
                        code: output.status.exit_code(),
                        stderr: output.stderr@,
                    },
                    at + 1,
                )
            },
        }
    }

    /// SQL statements are executed one after the other, and each has to succeed.
    pub open spec fn all_sql_executed(
        self,
        statements: Seq<Seq<char>>,
        replies: Seq<HostReply>,
        at: nat,
    ) -> Outcome<(), DockerError<Seq<char>>>
        decreases statements.len(),
    {
        if statements.len() == 0 {
            Outcome::Gives((), at)
        } else {
            match self.sql_executed(statements[0], replies, at) {
                Outcome::Gives(_, next) => self.all_sql_executed(
                    statements.skip(1),
                    replies,
                    next,
                ),
                stopped => stopped,
            }
        }
    }

    /// Postgres is asked, once a second and for a limited time, until it accepts connections.
    pub open spec fn became_ready(
        self,
        timeout_secs: u64,
        replies: Seq<HostReply>,
        at: nat,
    ) -> Outcome<(), DockerError<Seq<char>>>
        decreases replies.len() - at,
    {
        let name = self.container_name;
        match millis_at(replies, at) {
            None => Outcome::Asks(HostCallView::Elapsed, at),
            Some(elapsed) => if elapsed >= timeout_secs * 1000 {
                Outcome::Fails(DockerError::NotReady { name, timeout_secs }, at + 1)
            } else {
                match command_at(replies, at + 1) {
                    None => Outcome::Asks(HostCallView::Run { command: self.ready_command() }, at + 1),
                    Some(CommandOutcome::NotStarted(m)) => Outcome::Fails(
                        DockerError::ReadinessCheck { name, source: m@ },
                        at + 2,
                    ),
                    Some(CommandOutcome::Finished(output)) => if output.status.succeeded() {
                        Outcome::Gives((), at + 2)
                    } else if !done_at(replies, at + 2) {
                        Outcome::Asks(HostCallView::Sleep { millis: READY_POLL_MILLIS }, at + 2)
                    } else {
                        self.became_ready(timeout_secs, replies, at + 3)
                    },
                }
            },
        }
    }

    /// The container is stopped, whatever comes of that, and removed.
    pub open spec fn cleaned(self, replies: Seq<HostReply>, at: nat) -> Outcome<
        (),
        DockerError<Seq<char>>,
    > {
        if command_at(replies, at) is None {
            Outcome::Asks(HostCallView::Run { command: self.stop_command() }, at)
        } else {
            match command_at(replies, at + 1) {
                None => Outcome::Asks(HostCallView::Run { command: self.remove_command() }, at + 1),
                Some(CommandOutcome::NotStarted(m)) => Outcome::Fails(
                    DockerError::Remove { name: self.container_name, source: m@ },
                    at + 2,
                ),
                Some(CommandOutcome::Finished(_)) => Outcome::Gives((), at + 2),
            }
        }
    }

    /// The container is let go of: unless it has been cleaned up, it is now, whatever comes of
    /// that. Gives the position after the replies to that, or the call that needs one.
    pub open spec fn let_go(self, replies: Seq<HostReply>, at: nat) -> Result<
        nat,
        (HostCallView, nat),
    > {
        if self.cleaned_up {
            Ok(at)
        } else {
            match self.cleaned(replies, at) {
                Outcome::Asks(call, stop) => Err((call, stop)),
                Outcome::Fails(_, next) => Ok(next),
                Outcome::Gives(_, next) => Ok(next),
            }
        }
    }

    /// Whether the last two replies before a position are those to the commands that stop and
    /// remove the container.
    pub open spec fn is_let_go_at_end(self, replies: Seq<HostReply>, next: nat) -> bool {
        2 <= next && self.let_go(replies, (next - 2) as nat) == Ok::<nat, (HostCallView, nat)>(next)
    }

    /// The container has started: postgres accepts connections, and both databases are made.
    pub open spec fn set_up(self, replies: Seq<HostReply>, at: nat) -> Outcome<
        (),
        DockerError<Seq<char>>,
    > {
        if !done_at(replies, at) {
            Outcome::Asks(HostCallView::StartClock, at)
        } else {
            match self.became_ready(READY_TIMEOUT_SECS, replies, at + 1) {
                Outcome::Gives(_, next) => self.all_sql_executed(
                    seq!["CREATE DATABASE "@ + SEQUENCER_DB@, "CREATE DATABASE "@ + MOCK_DA_DB@],
                    replies,
                    next,
                ),
                stopped => stopped,
            }
        }
    }
}

/// The container is started and set up; one that cannot be set up is let go of.
pub open spec fn container_started(password: Seq<char>, replies: Seq<HostReply>, at: nat) -> Outcome<
    ContainerView,
    DockerError<Seq<char>>,
> {
    let container = fresh_container(password);
    let name = container.container_name;
    match command_at(replies, at) {
        None => Outcome::Asks(HostCallView::Run { command: container.run_command() }, at),
        Some(CommandOutcome::NotStarted(m)) => Outcome::Fails(
            DockerError::Start { name, source: m@ },
            at + 1,
        ),
        Some(CommandOutcome::Finished(output)) => if !output.status.succeeded() {
            Outcome::Fails(
                DockerError::StartFailed {
                    name,
                    code: output.status.exit_code(),
                    stderr: output.stderr@,
                },
                at + 1,
            )
        } else {
            match container.set_up(replies, at + 1) {
                Outcome::Asks(call, stop) => Outcome::Asks(call, stop),
                Outcome::Gives(_, next) => Outcome::Gives(container, next),
                Outcome::Fails(e, failed) => match container.let_go(replies, failed) {
                    Err((call, stop)) => Outcome::Asks(call, stop),
                    Ok(next) => Outcome::Fails(e, next),
                },
            }
        },
    }
}

/// A container that has been started but cannot be set up is stopped and removed before the failure
/// is reported.
pub proof fn failed_setup_leaves_no_container(password: Seq<char>, replies: Seq<HostReply>, at: nat)
    requires
        command_at(replies, at) matches Some(CommandOutcome::Finished(output))
            && output.status.succeeded(),
    ensures
        container_started(password, replies, at) matches Outcome::Fails(_, next)
            ==> fresh_container(password).is_let_go_at_end(replies, next),
{
}

fn docker_command(args: Vec<String>) -> (c: CommandSpec)
    ensures
        c@ == docker(args.deep_view()),
{
    let c = command("docker", args, None);
    assert(c@ =~= docker(args.deep_view()));
    c
}

impl PostgresDockerContainer {
    /// Start a postgres container and wait for it to be ready.
    ///
    /// This runs `docker run -d`, polls `pg_isready` until the database
    /// is accepting connections, then creates the `sequencer` and `mock_da` databases.
    pub fn start(password: String, journal: &mut Journal) -> (r: Result<Self, Stop<DockerError>>)
        ensures
            outcome(r, *final(journal)) == container_started(
                password@,
                old(journal).replies@,
                old(journal).next as nat,
            ),
            final(journal).replies == old(journal).replies,
    {
        let container = PostgresDockerContainer {
            container_name: CONTAINER_NAME.to_string(),
            port: CONTAINER_PORT,
            password,
            cleaned_up: false,
        };
        let ghost view = container.deep_view();
        assert(view == fresh_container(password@));
        let postgres_env = concat2("POSTGRES_PASSWORD=", container.password.as_str());
        let port = decimal_text(container.port);
        let port_mapping = concat2(port.as_str(), ":5432");
        let mut args = no_args();
        push_arg(&mut args, "run");
        push_arg(&mut args, "-d");
        push_arg(&mut args, "--name");
        push_arg(&mut args, container.container_name.as_str());
        push_arg(&mut args, "-e");
        push_arg(&mut args, postgres_env.as_str());
        push_arg(&mut args, "-p");
        push_arg(&mut args, port_mapping.as_str());
        push_arg(&mut args, "postgres:16");
        let run = docker_command(args);
        assert(run@ =~= view.run_command());
        match journal.ask_run(run)? {
            CommandOutcome::NotStarted(source) => {
                let name = container.container_name;
                return Err(Stop::Fail(DockerError::Start { name, source }));
            },
            CommandOutcome::Finished(output) => {
                if !output.status.success() {
                    let name = container.container_name;
                    let code: Option<i32> = output.status.code();
                    let stderr = output.stderr;
                    return Err(Stop::Fail(DockerError::StartFailed { name, code, stderr }));
                }
            },
        }
        match container.set_up(journal) {
            Ok(()) => Ok(container),
            Err(Stop::Ask(call)) => Err(Stop::Ask(call)),
            Err(Stop::Fail(e)) => {
                match container.dispose(journal) {
                    Ok(()) => Err(Stop::Fail(e)),
                    Err(call) => Err(Stop::Ask(call)),
                }
            },
        }
    }

    fn set_up(&self, journal: &mut Journal) -> (r: Result<(), Stop<DockerError>>)
        ensures
            outcome(r, *final(journal)) == self.deep_view().set_up(
                old(journal).replies@,
                old(journal).next as nat,
            ),
            final(journal).replies == old(journal).replies,
    {
        journal.ask_done(HostCall::StartClock)?;
        self.wait_for_ready(READY_TIMEOUT_SECS, journal)?;
        self.create_databases(journal)
    }

    /// Connection string for the sequencer database (soft confirmation storage).
    ///
    /// This database is reset between test phases (initial run vs resync).
    pub fn sequencer_connection_string(&self) -> (s: String)
        ensures
            s@ == self.deep_view().connection_string(SEQUENCER_DB@),
    {
        self.connection_string(SEQUENCER_DB)
    }

    /// Connection string for the mock DA database.
    ///
    /// This database persists across test phases to allow resync from DA data.
    pub fn da_connection_string(&self) -> (s: String)
        ensures
            s@ == self.deep_view().connection_string(MOCK_DA_DB@),
    {
        self.connection_string(MOCK_DA_DB)
    }

    fn connection_string(&self, database: &str) -> (s: String)
        ensures
            s@ == self.deep_view().connection_string(database@),
    {
        let port = decimal_text(self.port);
        let head = concat3("postgresql://postgres:", self.password.as_str(), "@localhost:");
        let tail = concat3(port.as_str(), "/", database);
        let s = concat2(head.as_str(), tail.as_str());
        assert(s@ =~= self.deep_view().connection_string(database@));
        s
    }

    /// Create the sequencer and mock_da databases.
    fn create_databases(&self, journal: &mut Journal) -> (r: Result<(), Stop<DockerError>>)
        ensures
            outcome(r, *final(journal)) == self.deep_view().all_sql_executed(
                seq!["CREATE DATABASE "@ + SEQUENCER_DB@, "CREATE DATABASE "@ + MOCK_DA_DB@],
                old(journal).replies@,
                old(journal).next as nat,
            ),
            final(journal).replies == old(journal).replies,
    {
        let ghost statements = seq![
            "CREATE DATABASE "@ + SEQUENCER_DB@,
            "CREATE DATABASE "@ + MOCK_DA_DB@,
        ];
        proof {
            reveal_with_fuel(ContainerView::all_sql_executed, 3);
            assert(statements.skip(1)[0] == statements[1]);
            assert(statements.skip(1).skip(1).len() == 0);
        }
        let first = concat2("CREATE DATABASE ", SEQUENCER_DB);
        self.exec_sql(first.as_str(), journal)?;
        let second = concat2("CREATE DATABASE ", MOCK_DA_DB);
        self.exec_sql(second.as_str(), journal)
    }

    /// Execute a SQL command in the container via psql.
    fn exec_sql(&self, sql: &str, journal: &mut Journal) -> (r: Result<(), Stop<DockerError>>)
        ensures
            outcome(r, *final(journal)) == self.deep_view().sql_executed(
                sql@,
                old(journal).replies@,
                old(journal).next as nat,
            ),
            final(journal).replies == old(journal).replies,
    {
        let mut args = no_args();
        push_arg(&mut args, "exec");
        push_arg(&mut args, self.container_name.as_str());
        push_arg(&mut args, "psql");
        push_arg(&mut args, "-U");
        push_arg(&mut args, "postgres");
        push_arg(&mut args, "-c");
        push_arg(&mut args, sql);
        let psql = docker_command(args);
        assert(psql@ =~= self.deep_view().sql_command(sql@));
        match journal.ask_run(psql)? {
            CommandOutcome::NotStarted(source) => {
                let name = self.container_name.clone();
                Err(Stop::Fail(DockerError::SqlExec { name, source }))
            },
            CommandOutcome::Finished(output) => {
                if output.status.success() {
                    return Ok(());
                }
                let name = self.container_name.clone();
                let code: Option<i32> = output.status.code();
                let stderr = output.stderr;
                Err(Stop::Fail(DockerError::SqlFailed { name, code, stderr }))
            },
        }
    }

    /// Wait for the postgres container to be ready to accept connections.
    fn wait_for_ready(&self, timeout_secs: u64, journal: &mut Journal) -> (r: Result<
        (),
        Stop<DockerError>,
    >)
        ensures
            outcome(r, *final(journal)) == self.deep_view().became_ready(
                timeout_secs,
                old(journal).replies@,
                old(journal).next as nat,
            ),
            final(journal).replies == old(journal).replies,
    {
        let ghost view = self.deep_view();
        let ghost replies = journal.replies@;
        let ghost whole = view.became_ready(timeout_secs, replies, journal.next as nat);
        loop
            invariant
                view == self.deep_view(),
                replies == journal.replies@,
                journal.replies == old(journal).replies,
                whole == view.became_ready(timeout_secs, replies, old(journal).next as nat),
                whole == view.became_ready(timeout_secs, replies, journal.next as nat),
            decreases replies.len() - journal.next,
        {
            let ghost start = journal.next;
            let elapsed: u64 = journal.ask_millis(HostCall::Elapsed)?;
            if elapsed / 1000 >= timeout_secs {
                let name = self.container_name.clone();
                return Err(Stop::Fail(DockerError::NotReady { name, timeout_secs }));
            }
            let mut args = no_args();
            push_arg(&mut args, "exec");
            push_arg(&mut args, self.container_name.as_str());
            push_arg(&mut args, "pg_isready");
            push_arg(&mut args, "-U");
            push_arg(&mut args, "postgres");
            let ready = docker_command(args);
            assert(ready@ =~= view.ready_command());
            match journal.ask_run(ready)? {
                CommandOutcome::NotStarted(source) => {
                    let name = self.container_name.clone();
                    return Err(Stop::Fail(DockerError::ReadinessCheck { name, source }));
                },
                CommandOutcome::Finished(output) => {
                    if output.status.success() {
                        return Ok(());
                    }
                },
            }
            journal.ask_done(HostCall::Sleep { millis: READY_POLL_MILLIS })?;
        }
    }

    /// Stop and remove the container.
    ///
    /// This is idempotent - calling it multiple times is safe.
    pub fn cleanup(&mut self, journal: &mut Journal) -> (r: Result<(), Stop<DockerError>>)
        ensures
            final(journal).replies == old(journal).replies,
            outcome(r, *final(journal)) == if old(self).cleaned_up {
                Outcome::Gives((), old(journal).next as nat)
            } else {
                old(self).deep_view().cleaned(old(journal).replies@, old(journal).next as nat)
            },
            *final(self) == (PostgresDockerContainer {
                cleaned_up: old(self).cleaned_up || r is Ok,
                ..*old(self)
            }),
    {
        if self.cleaned_up {
            return Ok(());
        }
        self.cleanup_sync(journal)?;
        self.cleaned_up = true;
        Ok(())
    }

    /// Lets go of the container: unless it has been cleaned up, it is now, whatever comes of that.
    pub fn dispose(&self, journal: &mut Journal) -> (r: Result<(), HostCall>)
        ensures
            final(journal).replies == old(journal).replies,
            match self.deep_view().let_go(old(journal).replies@, old(journal).next as nat) {
                Ok(next) => r is Ok && final(journal).next == next,
                Err((call, stop)) => r is Err && r->Err_0@ == call && final(journal).next == stop,
            },
    {
        if self.cleaned_up {
            return Ok(());
        }
        match self.cleanup_sync(journal) {
            Err(Stop::Ask(call)) => Err(call),
            Ok(()) => Ok(()),
            Err(Stop::Fail(_)) => Ok(()),
        }
    }

    /// Reset the sequencer database for a fresh resync test.
    ///
    /// This drops and recreates only the sequencer database, preserving
    /// the mock_da database which contains DA data needed for resync.
    pub fn reset_sequencer_db(&self, journal: &mut Journal) -> (r: Result<(), Stop<DockerError>>)
        ensures
            outcome(r, *final(journal)) == self.deep_view().all_sql_executed(
                reset_statements(),
                old(journal).replies@,
                old(journal).next as nat,
            ),
            final(journal).replies == old(journal).replies,
    {
        proof {
            let statements = reset_statements();
            reveal_with_fuel(ContainerView::all_sql_executed, 4);
            assert(statements.skip(1)[0] == statements[1]);
            assert(statements.skip(1).skip(1)[0] == statements[2]);
            assert(statements.skip(1).skip(1).skip(1).len() == 0);
        }
        let disconnect = concat3(
            "SELECT pg_terminate_backend(pid) FROM pg_stat_activity WHERE datname = '",
            SEQUENCER_DB,
            "'",
        );
        self.exec_sql(disconnect.as_str(), journal)?;
        let drop = concat2("DROP DATABASE IF EXISTS ", SEQUENCER_DB);
        self.exec_sql(drop.as_str(), journal)?;
        let create = concat2("CREATE DATABASE ", SEQUENCER_DB);
        self.exec_sql(create.as_str(), journal)
    }

    /// Internal synchronous cleanup implementation.
    fn cleanup_sync(&self, journal: &mut Journal) -> (r: Result<(), Stop<DockerError>>)
        ensures
            outcome(r, *final(journal)) == self.deep_view().cleaned(
                old(journal).replies@,
                old(journal).next as nat,
            ),
            final(journal).replies == old(journal).replies,
    {
        let mut args = no_args();
        push_arg(&mut args, "stop");
        push_arg(&mut args, self.container_name.as_str());
        let stop = docker_command(args);
        assert(stop@ =~= self.deep_view().stop_command());
        let _ = journal.ask_run::<DockerError>(stop)?;

        let mut args = no_args();
        push_arg(&mut args, "rm");
        push_arg(&mut args, "-f");
        push_arg(&mut args, self.container_name.as_str());
        let remove = docker_command(args);
        assert(remove@ =~= self.deep_view().remove_command());
        match journal.ask_run(remove)? {
            CommandOutcome::NotStarted(source) => {
                let name = self.container_name.clone();
                Err(Stop::Fail(DockerError::Remove { name, source }))
            },
            CommandOutcome::Finished(_) => Ok(()),
        }
    }

    /// Get the container name.
    pub fn name(&self) -> (name: &str)
        ensures
            name@ == self.container_name@,
    {
        self.container_name.as_str()
    }
}

/// What resets the sequencer database: its connections are cut, and it is dropped and made again.
pub open spec fn reset_statements() -> Seq<Seq<char>> {
    seq![
        "SELECT pg_terminate_backend(pid) FROM pg_stat_activity WHERE datname = '"@
            + SEQUENCER_DB@ + "'"@,
        "DROP DATABASE IF EXISTS "@ + SEQUENCER_DB@,
        "CREATE DATABASE "@ + SEQUENCER_DB@,
    ]
}

} // verus!

//! Procedures that work through the outside world one call at a time.
//!
//! A procedure of this library performs no input or output itself. It reads what its calls to the
//! host have given so far from a [`Journal`], and where the journal ends it stops with the next
//! call. The host performs that call, adds the reply, and runs the procedure again; so a
//! procedure is a function from the replies to the next call, to a failure or to a result.
use vstd::prelude::*;

use crate::config::{FileRead, ManagerConfig, VersionView};
use crate::process::{CommandOutcome, CommandSpec, CommandView, ExitStatus};
use crate::soak_manager::{SoakManagerConfig, SoakManagerError, SoakManagerView};
use crate::upgrade_simulator::node_config::RollupFields;
use crate::upgrade_simulator::test_case::{TestCaseFile, VersionSpec};
use crate::versioned_setup::{copy_entries, VersionSpecEntry};

verus! {

/// A call that a procedure makes to its host.
#[derive(Debug)]
pub enum HostCall {
    /// Is there anything at this path?
    PathExists { path: String },
    /// Is there a regular file at this path?
    IsFile { path: String },
    /// Create a directory and its parents.
    CreateDirAll { path: String },
    /// Remove a directory and what is in it.
    RemoveDirAll { path: String },
    /// Copy a file.
    CopyFile { from: String, to: String },
    /// The absolute form of a path, free of links and of `.` and `..`.
    Canonicalize { path: String },
    /// Read a text file.
    ReadText { path: String },
    /// Write a text file.
    WriteText { path: String, content: String },
    /// Read a text file as it is at a commit of a repository that is cloned under a cache directory.
    ReadTextAtCommit { cache_dir: String, repo_url: String, commit: String, path: String },
    /// Read and decode a file that lists the versions of a rollup.
    ReadVersionSpec { path: String },
    /// Read and decode a file that holds a version's commit hash.
    ReadVersionVars { path: String },
    /// Read and decode the parts of a rollup's config file that matter to a test case.
    ReadRollupConfig { path: String },
    /// Read and decode the description of a test case.
    ReadTestCase { path: String },
    /// Run a command to its end.
    Run { command: CommandSpec },
    /// Encode and write the configuration of a rollup manager.
    WriteManagerConfig { path: String, config: ManagerConfig },
    /// Start a process and go on. Processes that are still there when the procedure is over are
    /// killed.
    Spawn { name: String, command: CommandSpec },
    /// Wait until one of the nodes' processes exits, of those that have not been reported yet.
    NextExit,
    /// Send processes a request to terminate, one after the other; those that are gone do not
    /// matter.
    Terminate { pids: Vec<u32> },
    /// Give up on the nodes that are still running.
    AbortNodes,
    /// Start soak testing in the background.
    StartSoak { soak: SoakManagerConfig, api_url: String },
    /// Tell the soak test that the nodes are done.
    NotifySoak,
    /// Wait for the end of the soak test, for a limited time.
    AwaitSoak { timeout_millis: u64 },
    /// Build the rollup manager; the path of its binary.
    BuildManager,
    /// Start a clock.
    StartClock,
    /// The milliseconds that have passed since the clock was last started.
    Elapsed,
    /// Pause.
    Sleep { millis: u64 },
}

/// The text of a call.
pub enum HostCallView {
    PathExists { path: Seq<char> },
    IsFile { path: Seq<char> },
    CreateDirAll { path: Seq<char> },
    RemoveDirAll { path: Seq<char> },
    CopyFile { from: Seq<char>, to: Seq<char> },
    Canonicalize { path: Seq<char> },
    ReadText { path: Seq<char> },
    WriteText { path: Seq<char>, content: Seq<char> },
    ReadTextAtCommit {
        cache_dir: Seq<char>,
        repo_url: Seq<char>,
        commit: Seq<char>,
        path: Seq<char>,
    },
    ReadVersionSpec { path: Seq<char> },
    ReadVersionVars { path: Seq<char> },
    ReadRollupConfig { path: Seq<char> },
    ReadTestCase { path: Seq<char> },
    Run { command: CommandView },
    WriteManagerConfig { path: Seq<char>, versions: Seq<VersionView> },
    Spawn { name: Seq<char>, command: CommandView },
    NextExit,
    Terminate { pids: Seq<u32> },
    AbortNodes,
    StartSoak { soak: SoakManagerView, api_url: Seq<char> },
    NotifySoak,
    AwaitSoak { timeout_millis: u64 },
    BuildManager,
    StartClock,
    Elapsed,
    Sleep { millis: u64 },
}

impl View for HostCall {
    type V = HostCallView;

    open spec fn view(&self) -> HostCallView {
        match *self {
            HostCall::PathExists { path } => HostCallView::PathExists { path: path@ },
            HostCall::IsFile { path } => HostCallView::IsFile { path: path@ },
            HostCall::CreateDirAll { path } => HostCallView::CreateDirAll { path: path@ },
            HostCall::RemoveDirAll { path } => HostCallView::RemoveDirAll { path: path@ },
            HostCall::CopyFile { from, to } => HostCallView::CopyFile { from: from@, to: to@ },
            HostCall::Canonicalize { path } => HostCallView::Canonicalize { path: path@ },
            HostCall::ReadText { path } => HostCallView::ReadText { path: path@ },
            HostCall::WriteText { path, content } => HostCallView::WriteText {
                path: path@,
                content: content@,
            },
            HostCall::ReadTextAtCommit { cache_dir, repo_url, commit, path } =>
                HostCallView::ReadTextAtCommit {
                cache_dir: cache_dir@,
                repo_url: repo_url@,
                commit: commit@,
                path: path@,
            },
            HostCall::ReadVersionSpec { path } => HostCallView::ReadVersionSpec { path: path@ },
            HostCall::ReadVersionVars { path } => HostCallView::ReadVersionVars { path: path@ },
            HostCall::ReadRollupConfig { path } => HostCallView::ReadRollupConfig { path: path@ },
            HostCall::ReadTestCase { path } => HostCallView::ReadTestCase { path: path@ },
            HostCall::Run { command } => HostCallView::Run { command: command@ },
            HostCall::WriteManagerConfig { path, config } => HostCallView::WriteManagerConfig {
                path: path@,
                versions: config.versions.deep_view(),
            },
            HostCall::Spawn { name, command } => HostCallView::Spawn {
                name: name@,
                command: command@,
            },
            HostCall::NextExit => HostCallView::NextExit,
            HostCall::Terminate { pids } => HostCallView::Terminate { pids: pids@ },
            HostCall::AbortNodes => HostCallView::AbortNodes,
            HostCall::StartSoak { soak, api_url } => HostCallView::StartSoak {
                soak: soak.deep_view(),
                api_url: api_url@,
            },
            HostCall::NotifySoak => HostCallView::NotifySoak,
            HostCall::AwaitSoak { timeout_millis } => HostCallView::AwaitSoak { timeout_millis },
            HostCall::BuildManager => HostCallView::BuildManager,
            HostCall::StartClock => HostCallView::StartClock,
            HostCall::Elapsed => HostCallView::Elapsed,
            HostCall::Sleep { millis } => HostCallView::Sleep { millis },
        }
    }
}

/// What the host gave back for a call.
#[derive(Debug)]
pub enum HostReply {
    Flag(bool),
    Done,
    Status(Result<(), String>),
    Text(Result<String, String>),
    Command(CommandOutcome),
    VersionSpec(FileRead<Vec<VersionSpecEntry>>),
    VersionVars(FileRead<String>),
    RollupFields(FileRead<RollupFields>),
    TestCase(FileRead<TestCaseFile>),
    ConfigWrite(ConfigWrite),
    Spawned(Result<Option<u32>, String>),
    NodeExit(NodeExit),
    SoakEnd(SoakEnd),
    Millis(u64),
    /// The user interrupted the host while it performed the call.
    Interrupted,
}

/// What came of writing a manager configuration.
#[derive(Debug)]
pub enum ConfigWrite {
    NotSerialized(String),
    NotWritten(String),
    Written,
}

impl Clone for ConfigWrite {
    fn clone(&self) -> (r: Self)
        ensures
            r == *self,
    {
        match self {
            ConfigWrite::NotSerialized(m) => ConfigWrite::NotSerialized(m.clone()),
            ConfigWrite::NotWritten(m) => ConfigWrite::NotWritten(m.clone()),
            ConfigWrite::Written => ConfigWrite::Written,
        }
    }
}

/// How a node came to its end.
#[derive(Debug)]
pub enum NodeExit {
    /// Its process has exited, or could not be waited for.
    Exited { name: String, outcome: Result<ExitStatus, String> },
    /// The task that waits for it has panicked.
    Panicked(String),
    /// There is no node left.
    NoneLeft,
}

impl Clone for NodeExit {
    fn clone(&self) -> (r: Self)
        ensures
            r == *self,
    {
        match self {
            NodeExit::Exited { name, outcome } => NodeExit::Exited {
                name: name.clone(),
                outcome: match outcome {
                    Ok(status) => Ok(*status),
                    Err(m) => Err(m.clone()),
                },
            },
            NodeExit::Panicked(m) => NodeExit::Panicked(m.clone()),
            NodeExit::NoneLeft => NodeExit::NoneLeft,
        }
    }
}

/// How a soak test came to its end.
#[derive(Debug)]
pub enum SoakEnd {
    Completed,
    Failed(SoakManagerError),
    Panicked(String),
    TimedOut,
}

impl Clone for SoakEnd {
    fn clone(&self) -> (r: Self)
        ensures
            r == *self,
    {
        match self {
            SoakEnd::Completed => SoakEnd::Completed,
            SoakEnd::Failed(e) => SoakEnd::Failed(e.clone()),
            SoakEnd::Panicked(m) => SoakEnd::Panicked(m.clone()),
            SoakEnd::TimedOut => SoakEnd::TimedOut,
        }
    }
}

/// The replies so far, and how many of them a procedure has read.
#[derive(Debug)]
pub struct Journal {
    pub replies: Vec<HostReply>,
    pub next: usize,
}

/// Why a procedure has not come to a result.
#[derive(Debug)]
pub enum Stop<E> {
    /// It needs the reply to this call.
    Ask(HostCall),
    /// It has failed.
    Fail(E),
}

/// How far a procedure comes on the replies that there are.
pub enum Outcome<T, E> {
    /// It stops at a call, and has read the replies before this position.
    Asks(HostCallView, nat),
    /// It fails, and has read the replies before this position.
    Fails(E, nat),
    /// It gives a result, and has read the replies before this position.
    Gives(T, nat),
}

/// The outcome that a returned value and the position in the journal amount to.
pub open spec fn outcome<T: DeepView, E: DeepView>(
    r: Result<T, Stop<E>>,
    journal: Journal,
) -> Outcome<T::V, E::V> {
    match r {
        Ok(v) => Outcome::Gives(v.deep_view(), journal.next as nat),
        Err(Stop::Ask(call)) => Outcome::Asks(call@, journal.next as nat),
        Err(Stop::Fail(e)) => Outcome::Fails(e.deep_view(), journal.next as nat),
    }
}

/// The reply at a position, where it is an answer to a question.
pub open spec fn flag_at(replies: Seq<HostReply>, at: nat) -> Option<bool> {
    if at < replies.len() && replies[at as int] is Flag {
        Some(replies[at as int]->Flag_0)
    } else {
        None
    }
}

/// Whether the reply at a position says that a call without a result is done.
pub open spec fn done_at(replies: Seq<HostReply>, at: nat) -> bool {
    at < replies.len() && replies[at as int] is Done
}

/// The reply at a position, where it says whether something worked.
pub open spec fn status_at(replies: Seq<HostReply>, at: nat) -> Option<Result<(), String>> {
    if at < replies.len() && replies[at as int] is Status {
        Some(replies[at as int]->Status_0)
    } else {
        None
    }
}

/// The reply at a position, where it is a text or a reason why there is none.
pub open spec fn text_at(replies: Seq<HostReply>, at: nat) -> Option<Result<String, String>> {
    if at < replies.len() && replies[at as int] is Text {
        Some(replies[at as int]->Text_0)
    } else {
        None
    }
}

/// The reply at a position, where it is what came of a command.
pub open spec fn command_at(replies: Seq<HostReply>, at: nat) -> Option<CommandOutcome> {
    if at < replies.len() && replies[at as int] is Command {
        Some(replies[at as int]->Command_0)
    } else {
        None
    }
}

/// The reply at a position, where it is what was read of a list of versions.
pub open spec fn version_spec_at(replies: Seq<HostReply>, at: nat) -> Option<
    FileRead<Seq<VersionSpecEntry>>,
> {
    if at < replies.len() && replies[at as int] is VersionSpec {
        Some(list_read(replies[at as int]->VersionSpec_0))
    } else {
        None
    }
}

/// The reply at a position, where it is what was read of a version's commit hash.
pub open spec fn version_vars_at(replies: Seq<HostReply>, at: nat) -> Option<FileRead<String>> {
    if at < replies.len() && replies[at as int] is VersionVars {
        Some(replies[at as int]->VersionVars_0)
    } else {
        None
    }
}

/// The reply at a position, where it is what was read of a rollup's config file.
pub open spec fn rollup_fields_at(replies: Seq<HostReply>, at: nat) -> Option<
    FileRead<RollupFields>,
> {
    if at < replies.len() && replies[at as int] is RollupFields {
        Some(replies[at as int]->RollupFields_0)
    } else {
        None
    }
}

/// The reply at a position, where it is what was read of the description of a test case.
pub open spec fn test_case_at(replies: Seq<HostReply>, at: nat) -> Option<
    FileRead<TestCaseFile<Seq<VersionSpec>>>,
> {
    if at < replies.len() && replies[at as int] is TestCase {
        Some(
            match replies[at as int]->TestCase_0 {
                FileRead::Unreadable(m) => FileRead::Unreadable(m),
                FileRead::Malformed(m) => FileRead::Malformed(m),
                FileRead::Parsed(file) => FileRead::Parsed(file@),
            },
        )
    } else {
        None
    }
}

/// The reply at a position, where it is what came of writing a manager configuration.
pub open spec fn config_write_at(replies: Seq<HostReply>, at: nat) -> Option<ConfigWrite> {
    if at < replies.len() && replies[at as int] is ConfigWrite {
        Some(replies[at as int]->ConfigWrite_0)
    } else {
        None
    }
}

/// The reply at a position, where it is what came of starting a process.
pub open spec fn spawned_at(replies: Seq<HostReply>, at: nat) -> Option<Result<Option<u32>, String>> {
    if at < replies.len() && replies[at as int] is Spawned {
        Some(replies[at as int]->Spawned_0)
    } else {
        None
    }
}

/// The reply at a position, where it is how a node came to its end.
pub open spec fn node_exit_at(replies: Seq<HostReply>, at: nat) -> Option<NodeExit> {
    if at < replies.len() && replies[at as int] is NodeExit {
        Some(replies[at as int]->NodeExit_0)
    } else {
        None
    }
}

/// The reply at a position, where it is how a soak test came to its end.
pub open spec fn soak_end_at(replies: Seq<HostReply>, at: nat) -> Option<SoakEnd> {
    if at < replies.len() && replies[at as int] is SoakEnd {
        Some(replies[at as int]->SoakEnd_0)
    } else {
        None
    }
}

/// Whether the user interrupted the host at a position.
pub open spec fn interrupted_at(replies: Seq<HostReply>, at: nat) -> bool {
    at < replies.len() && replies[at as int] is Interrupted
}

/// The reply at a position, where it is a time.
pub open spec fn millis_at(replies: Seq<HostReply>, at: nat) -> Option<u64> {
    if at < replies.len() && replies[at as int] is Millis {
        Some(replies[at as int]->Millis_0)
    } else {
        None
    }
}

/// A list that was read from a file.
pub open spec fn list_read<T>(file: FileRead<Vec<T>>) -> FileRead<Seq<T>> {
    match file {
        FileRead::Unreadable(m) => FileRead::Unreadable(m),
        FileRead::Malformed(m) => FileRead::Malformed(m),
        FileRead::Parsed(list) => FileRead::Parsed(list@),
    }
}

/// What is known after a call: the reply has been read, or the procedure has to stop at the call
/// and nothing has been read.
pub open spec fn asked<T, E>(
    r: Result<T, Stop<E>>,
    reply: Option<T>,
    call: HostCallView,
    before: Journal,
    after: Journal,
) -> bool {
    &&& after.replies == before.replies
    &&& match r {
        Ok(v) => reply == Some(v) && after.next == before.next + 1,
        Err(Stop::Ask(c)) => reply is None && c@ == call && after.next == before.next,
        Err(Stop::Fail(_)) => false,
    }
}

impl Journal {
    /// A journal without replies.
    pub fn new() -> (j: Self)
        ensures
            j.replies@ == Seq::<HostReply>::empty(),
            j.next == 0,
    {
        Journal { replies: Vec::new(), next: 0 }
    }

    /// Adds the reply to the call that the procedure stopped at, and starts over.
    pub fn record(&mut self, reply: HostReply)
        ensures
            final(self).replies@ == old(self).replies@.push(reply),
            final(self).next == 0,
    {
        self.replies.push(reply);
        self.next = 0;
    }

    /// A question that is answered by yes or no.
    pub fn ask_flag<E>(&mut self, call: HostCall) -> (r: Result<bool, Stop<E>>)
        ensures
            asked(
                r,
                flag_at(old(self).replies@, old(self).next as nat),
                call@,
                *old(self),
                *final(self),
            ),
    {
        if self.next < self.replies.len() {
            if let HostReply::Flag(b) = &self.replies[self.next] {
                let b = *b;
                self.next = self.next + 1;
                return Ok(b);
            }
        }
        Err(Stop::Ask(call))
    }

    /// A call that gives nothing back.
    pub fn ask_done<E>(&mut self, call: HostCall) -> (r: Result<(), Stop<E>>)
        ensures
            asked(
                r,
                if done_at(old(self).replies@, old(self).next as nat) {
                    Some(())
                } else {
                    None
                },
                call@,
                *old(self),
                *final(self),
            ),
    {
        if self.next < self.replies.len() {
            if let HostReply::Done = &self.replies[self.next] {
                self.next = self.next + 1;
                return Ok(());
            }
        }
        Err(Stop::Ask(call))
    }

    /// A call that works or does not.
    pub fn ask_status<E>(&mut self, call: HostCall) -> (r: Result<Result<(), String>, Stop<E>>)
        ensures
            asked(
                r,
                status_at(old(self).replies@, old(self).next as nat),
                call@,
                *old(self),
                *final(self),
            ),
    {
        if self.next < self.replies.len() {
            if let HostReply::Status(s) = &self.replies[self.next] {
                let s = match s {
                    Ok(unit) => Ok(*unit),
                    Err(m) => Err(m.clone()),
                };
                self.next = self.next + 1;
                return Ok(s);
            }
        }
        Err(Stop::Ask(call))
    }

    /// A call that gives a text.
    pub fn ask_text<E>(&mut self, call: HostCall) -> (r: Result<Result<String, String>, Stop<E>>)
        ensures
            asked(
                r,
                text_at(old(self).replies@, old(self).next as nat),
                call@,
                *old(self),
                *final(self),
            ),
    {
        if self.next < self.replies.len() {
            if let HostReply::Text(t) = &self.replies[self.next] {
                let t = match t {
                    Ok(s) => Ok(s.clone()),
                    Err(m) => Err(m.clone()),
                };
                self.next = self.next + 1;
                return Ok(t);
            }
        }
        Err(Stop::Ask(call))
    }

    /// A command that is run to its end.
    pub fn ask_run<E>(&mut self, command: CommandSpec) -> (r: Result<CommandOutcome, Stop<E>>)
        ensures
            asked(
                r,
                command_at(old(self).replies@, old(self).next as nat),
                (HostCallView::Run { command: command@ }),
                *old(self),
                *final(self),
            ),
    {
        if self.next < self.replies.len() {
            if let HostReply::Command(outcome) = &self.replies[self.next] {
                let outcome = outcome.clone();
                self.next = self.next + 1;
                return Ok(outcome);
            }
        }
        Err(Stop::Ask(HostCall::Run { command }))
    }

    /// A list of versions that is read from a file.
    pub fn ask_version_spec<E>(&mut self, path: String) -> (r: Result<
        FileRead<Vec<VersionSpecEntry>>,
        Stop<E>,
    >)
        ensures
            final(self).replies == old(self).replies,
            match (r, version_spec_at(old(self).replies@, old(self).next as nat)) {
                (Ok(file), Some(reply)) => list_read(file) == reply && final(self).next == old(
                    self,
                ).next + 1,
                (Err(Stop::Ask(call)), None) => call@ == (HostCallView::ReadVersionSpec {
                    path: path@,
                }) && final(self).next == old(self).next,
                _ => false,
            },
    {
        if self.next < self.replies.len() {
            if let HostReply::VersionSpec(file) = &self.replies[self.next] {
                let file = match file {
                    FileRead::Unreadable(m) => FileRead::Unreadable(m.clone()),
                    FileRead::Malformed(m) => FileRead::Malformed(m.clone()),
                    FileRead::Parsed(list) => FileRead::Parsed(copy_entries(list)),
                };
                self.next = self.next + 1;
                return Ok(file);
            }
        }
        Err(Stop::Ask(HostCall::ReadVersionSpec { path }))
    }

    /// A commit hash that is read from a file.
    pub fn ask_version_vars<E>(&mut self, path: String) -> (r: Result<FileRead<String>, Stop<E>>)
        ensures
            asked(
                r,
                version_vars_at(old(self).replies@, old(self).next as nat),
                (HostCallView::ReadVersionVars { path: path@ }),
                *old(self),
                *final(self),
            ),
    {
        if self.next < self.replies.len() {
            if let HostReply::VersionVars(file) = &self.replies[self.next] {
                let file = match file {
                    FileRead::Unreadable(m) => FileRead::Unreadable(m.clone()),
                    FileRead::Malformed(m) => FileRead::Malformed(m.clone()),
                    FileRead::Parsed(text) => FileRead::Parsed(text.clone()),
                };
                self.next = self.next + 1;
                return Ok(file);
            }
        }
        Err(Stop::Ask(HostCall::ReadVersionVars { path }))
    }

    /// A rollup's config file.
    pub fn ask_rollup_fields<E>(&mut self, path: String) -> (r: Result<
        FileRead<RollupFields>,
        Stop<E>,
    >)
        ensures
            asked(
                r,
                rollup_fields_at(old(self).replies@, old(self).next as nat),
                (HostCallView::ReadRollupConfig { path: path@ }),
                *old(self),
                *final(self),
            ),
    {
        if self.next < self.replies.len() {
            if let HostReply::RollupFields(file) = &self.replies[self.next] {
                let file = match file {
                    FileRead::Unreadable(m) => FileRead::Unreadable(m.clone()),
                    FileRead::Malformed(m) => FileRead::Malformed(m.clone()),
                    FileRead::Parsed(fields) => FileRead::Parsed(fields.clone()),
                };
                self.next = self.next + 1;
                return Ok(file);
            }
        }
        Err(Stop::Ask(HostCall::ReadRollupConfig { path }))
    }

    /// The description of a test case.
    pub fn ask_test_case<E>(&mut self, path: String) -> (r: Result<
        FileRead<TestCaseFile>,
        Stop<E>,
    >)
        ensures
            final(self).replies == old(self).replies,
            match (r, test_case_at(old(self).replies@, old(self).next as nat)) {
                (Ok(FileRead::Unreadable(m)), Some(reply)) => reply == FileRead::<
                    TestCaseFile<Seq<VersionSpec>>,
                >::Unreadable(m) && final(self).next == old(self).next + 1,
                (Ok(FileRead::Malformed(m)), Some(reply)) => reply == FileRead::<
                    TestCaseFile<Seq<VersionSpec>>,
                >::Malformed(m) && final(self).next == old(self).next + 1,
                (Ok(FileRead::Parsed(file)), Some(reply)) => reply == FileRead::Parsed(file@)
                    && final(self).next == old(self).next + 1,
                (Err(Stop::Ask(call)), None) => call@ == (HostCallView::ReadTestCase {
                    path: path@,
                }) && final(self).next == old(self).next,
                _ => false,
            },
    {
        if self.next < self.replies.len() {
            if let HostReply::TestCase(file) = &self.replies[self.next] {
                let file = match file {
                    FileRead::Unreadable(m) => FileRead::Unreadable(m.clone()),
                    FileRead::Malformed(m) => FileRead::Malformed(m.clone()),
                    FileRead::Parsed(file) => FileRead::Parsed(file.clone()),
                };
                self.next = self.next + 1;
                return Ok(file);
            }
        }
        Err(Stop::Ask(HostCall::ReadTestCase { path }))
    }

    /// A manager configuration that is written.
    pub fn ask_config_write<E>(&mut self, call: HostCall) -> (r: Result<ConfigWrite, Stop<E>>)
        ensures
            asked(
                r,
                config_write_at(old(self).replies@, old(self).next as nat),
                call@,
                *old(self),
                *final(self),
            ),
    {
        if self.next < self.replies.len() {
            if let HostReply::ConfigWrite(reply) = &self.replies[self.next] {
                let reply = reply.clone();
                self.next = self.next + 1;
                return Ok(reply);
            }
        }
        Err(Stop::Ask(call))
    }

    /// A process that is started.
    pub fn ask_spawned<E>(&mut self, call: HostCall) -> (r: Result<Result<Option<u32>, String>, Stop<E>>)
        ensures
            asked(
                r,
                spawned_at(old(self).replies@, old(self).next as nat),
                call@,
                *old(self),
                *final(self),
            ),
    {
        if self.next < self.replies.len() {
            if let HostReply::Spawned(reply) = &self.replies[self.next] {
                let reply = match reply {
                    Ok(pid) => Ok(*pid),
                    Err(m) => Err(m.clone()),
                };
                self.next = self.next + 1;
                return Ok(reply);
            }
        }
        Err(Stop::Ask(call))
    }

    /// The end of a node.
    pub fn ask_node_exit<E>(&mut self, call: HostCall) -> (r: Result<NodeExit, Stop<E>>)
        ensures
            asked(
                r,
                node_exit_at(old(self).replies@, old(self).next as nat),
                call@,
                *old(self),
                *final(self),
            ),
    {
        if self.next < self.replies.len() {
            if let HostReply::NodeExit(reply) = &self.replies[self.next] {
                let reply = reply.clone();
                self.next = self.next + 1;
                return Ok(reply);
            }
        }
        Err(Stop::Ask(call))
    }

    /// The end of a soak test.
    pub fn ask_soak_end<E>(&mut self, call: HostCall) -> (r: Result<SoakEnd, Stop<E>>)
        ensures
            asked(
                r,
                soak_end_at(old(self).replies@, old(self).next as nat),
                call@,
                *old(self),
                *final(self),
            ),
    {
        if self.next < self.replies.len() {
            if let HostReply::SoakEnd(reply) = &self.replies[self.next] {
                let reply = reply.clone();
                self.next = self.next + 1;
                return Ok(reply);
            }
        }
        Err(Stop::Ask(call))
    }

    /// Takes note of an interruption, if there was one.
    pub fn take_interruption(&mut self) -> (b: bool)
        ensures
            b == interrupted_at(old(self).replies@, old(self).next as nat),
            final(self).replies == old(self).replies,
            final(self).next == if b {
                old(self).next + 1
            } else {
                old(self).next as int
            },
    {
        if self.next < self.replies.len() {
            if let HostReply::Interrupted = &self.replies[self.next] {
                self.next = self.next + 1;
                return true;
            }
        }
        false
    }

    /// A question about the time that has passed.
    pub fn ask_millis<E>(&mut self, call: HostCall) -> (r: Result<u64, Stop<E>>)
        ensures
            asked(
                r,
                millis_at(old(self).replies@, old(self).next as nat),
                call@,
                *old(self),
                *final(self),
            ),
    {
        if self.next < self.replies.len() {
            if let HostReply::Millis(n) = &self.replies[self.next] {
                let n: u64 = *n;
                self.next = self.next + 1;
                return Ok(n);
            }
        }
        Err(Stop::Ask(call))
    }
}

/// Whether a procedure, told of `k` replies, stops at a call, and the host has replied to it.
pub open spec fn called<T, E>(
    procedure: spec_fn(Seq<HostReply>) -> Outcome<T, E>,
    replies: Seq<HostReply>,
    k: nat,
    call: HostCallView,
) -> bool {
    &&& k < replies.len()
    &&& procedure(replies.take(k as int)) == Outcome::<T, E>::Asks(call, k)
}

/// Whether every call that a procedure has made from a position on has been made by another one:
/// it is a part of that one.
pub open spec fn within<T, E, U, F>(
    inner: spec_fn(Seq<HostReply>) -> Outcome<T, E>,
    outer: spec_fn(Seq<HostReply>) -> Outcome<U, F>,
    replies: Seq<HostReply>,
    at: nat,
) -> bool {
    forall|k: nat, call: HostCallView|
        at <= k && #[trigger] called(inner, replies, k, call) ==> called(outer, replies, k, call)
}

/// Whether a procedure has come to a good end, after that many replies.
pub open spec fn gives_at<T, E>(outcome: Outcome<T, E>, next: nat) -> bool {
    outcome matches Outcome::Gives(_, end) && end == next
}

/// Whether the host has replied at a position that something has worked.
pub open spec fn worked(replies: Seq<HostReply>, k: nat) -> bool {
    status_at(replies, k) matches Some(Ok(_))
}

/// Whether the host has replied at a position that a command has succeeded.
pub open spec fn succeeded(replies: Seq<HostReply>, k: nat) -> bool {
    command_at(replies, k) matches Some(CommandOutcome::Finished(output))
        && output.status == ExitStatus::Exited(0)
}

/// A reply answers a call of its own kind, and no other: what is read at a position is what the
/// reply there holds, and there is nothing to read behind the last reply.
pub proof fn replies_answer_by_kind(replies: Seq<HostReply>, k: nat)
    ensures
        match replies[k as int] {
            HostReply::Flag(b) if k < replies.len() => flag_at(replies, k) == Some(b),
            _ => flag_at(replies, k) is None,
        },
        done_at(replies, k) <==> k < replies.len() && replies[k as int] is Done,
        match replies[k as int] {
            HostReply::Status(s) if k < replies.len() => status_at(replies, k) == Some(s),
            _ => status_at(replies, k) is None,
        },
        match replies[k as int] {
            HostReply::Text(t) if k < replies.len() => text_at(replies, k) == Some(t),
            _ => text_at(replies, k) is None,
        },
        match replies[k as int] {
            HostReply::Command(c) if k < replies.len() => command_at(replies, k) == Some(c),
            _ => command_at(replies, k) is None,
        },
        match replies[k as int] {
            HostReply::VersionVars(f) if k < replies.len() => version_vars_at(replies, k) == Some(f),
            _ => version_vars_at(replies, k) is None,
        },
        match replies[k as int] {
            HostReply::RollupFields(f) if k < replies.len() => rollup_fields_at(replies, k) == Some(
                f,
            ),
            _ => rollup_fields_at(replies, k) is None,
        },
        match replies[k as int] {
            HostReply::ConfigWrite(w) if k < replies.len() => config_write_at(replies, k) == Some(w),
            _ => config_write_at(replies, k) is None,
        },
        match replies[k as int] {
            HostReply::Spawned(r) if k < replies.len() => spawned_at(replies, k) == Some(r),
            _ => spawned_at(replies, k) is None,
        },
        match replies[k as int] {
            HostReply::NodeExit(e) if k < replies.len() => node_exit_at(replies, k) == Some(e),
            _ => node_exit_at(replies, k) is None,
        },
        match replies[k as int] {
            HostReply::SoakEnd(e) if k < replies.len() => soak_end_at(replies, k) == Some(e),
            _ => soak_end_at(replies, k) is None,
        },
        match replies[k as int] {
            HostReply::Millis(n) if k < replies.len() => millis_at(replies, k) == Some(n),
            _ => millis_at(replies, k) is None,
        },
        interrupted_at(replies, k) <==> k < replies.len() && replies[k as int] is Interrupted,
        match replies[k as int] {
            HostReply::VersionSpec(FileRead::Parsed(list)) if k < replies.len() => version_spec_at(
                replies,
                k,
            ) == Some(FileRead::Parsed(list@)),
            HostReply::VersionSpec(FileRead::Unreadable(m)) if k < replies.len() =>
                version_spec_at(replies, k) == Some(
                FileRead::<Seq<VersionSpecEntry>>::Unreadable(m),
            ),
            HostReply::VersionSpec(FileRead::Malformed(m)) if k < replies.len() => version_spec_at(
                replies,
                k,
            ) == Some(FileRead::<Seq<VersionSpecEntry>>::Malformed(m)),
            _ => version_spec_at(replies, k) is None,
        },
        match replies[k as int] {
            HostReply::TestCase(FileRead::Parsed(file)) if k < replies.len() => test_case_at(
                replies,
                k,
            ) == Some(FileRead::Parsed(file@)),
            HostReply::TestCase(_) if k < replies.len() => test_case_at(replies, k) is Some,
            _ => test_case_at(replies, k) is None,
        },
{
}

} // verus!

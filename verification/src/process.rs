//! Processes as the library sees them: commands to run, how they ended, and signals.
use vstd::prelude::*;

verus! {

/// Hang-up.
pub const SIGHUP: i32 = 1;

/// Quit.
pub const SIGQUIT: i32 = 3;

/// Request to terminate.
pub const SIGTERM: i32 = 15;

/// How a process ended.
#[derive(Debug, Clone, Copy, PartialEq, Eq, Structural)]
pub enum ExitStatus {
    /// It exited by itself with this code.
    Exited(i32),
    /// This signal ended it.
    Signaled(i32),
}

impl ExitStatus {
    /// Whether the process ended by itself with code 0.
    pub open spec fn succeeded(self) -> bool {
        self == ExitStatus::Exited(0)
    }

    /// The exit code, where there is one.
    pub open spec fn exit_code(self) -> Option<i32> {
        match self {
            ExitStatus::Exited(code) => Some(code),
            ExitStatus::Signaled(_) => None,
        }
    }

    /// Whether the process ended by itself with code 0.
    pub fn success(&self) -> (b: bool)
        ensures
            b == self.succeeded(),
    {
        match self {
            ExitStatus::Exited(code) => *code == 0,
            ExitStatus::Signaled(_) => false,
        }
    }

    /// The exit code; a process that a signal ended has none.
    pub fn code(&self) -> (c: Option<i32>)
        ensures
            c == self.exit_code(),
    {
        match self {
            ExitStatus::Exited(code) => Some(*code),
            ExitStatus::Signaled(_) => None,
        }
    }
}

/// A program with its arguments and the directory to start it in.
#[derive(Debug)]
pub struct CommandSpec {
    pub program: String,
    pub args: Vec<String>,
    /// `None` is the directory of the process that starts it.
    pub current_dir: Option<String>,
}

/// The text of a command.
#[verifier::ext_equal]
pub struct CommandView {
    pub program: Seq<char>,
    pub args: Seq<Seq<char>>,
    pub current_dir: Option<Seq<char>>,
}

impl View for CommandSpec {
    type V = CommandView;

    open spec fn view(&self) -> CommandView {
        CommandView {
            program: self.program@,
            args: self.args.deep_view(),
            current_dir: self.current_dir.deep_view(),
        }
    }
}

/// What a command that ran to its end left behind.
#[derive(Debug)]
pub struct CommandOutput {
    pub status: ExitStatus,
    pub stdout: String,
    pub stderr: String,
}

/// What came of running a command to its end.
#[derive(Debug)]
pub enum CommandOutcome {
    /// It could not be started; the system's message.
    NotStarted(String),
    Finished(CommandOutput),
}

impl Clone for CommandOutput {
    fn clone(&self) -> (r: Self)
        ensures
            r == *self,
    {
        CommandOutput {
            status: self.status,
            stdout: self.stdout.clone(),
            stderr: self.stderr.clone(),
        }
    }
}

impl Clone for CommandOutcome {
    fn clone(&self) -> (r: Self)
        ensures
            r == *self,
    {
        match self {
            CommandOutcome::NotStarted(m) => CommandOutcome::NotStarted(m.clone()),
            CommandOutcome::Finished(output) => CommandOutcome::Finished(output.clone()),
        }
    }
}

/// Appends a copy of each text in `more`.
pub fn push_all(args: &mut Vec<String>, more: &Vec<String>)
    ensures
        final(args).deep_view() == old(args).deep_view() + more.deep_view(),
{
    let ghost start = args.deep_view();
    let mut i: usize = 0;
    assert(start + more.deep_view().take(0) =~= start);
    while i < more.len()
        invariant
            i <= more.len(),
            args.deep_view() == start + more.deep_view().take(i as int),
        decreases more.len() - i,
    {
        let ghost before = args.deep_view();
        args.push(more[i].clone());
        assert(args.deep_view() =~= before.push(more@[i as int]@));
        assert(more.deep_view().take(i + 1) =~= more.deep_view().take(i as int).push(
            more@[i as int]@,
        ));
        i = i + 1;
    }
    assert(more.deep_view().take(i as int) =~= more.deep_view());
}

/// Appends one text.
pub fn push_arg(args: &mut Vec<String>, arg: &str)
    ensures
        final(args).deep_view() == old(args).deep_view().push(arg@),
{
    let ghost start = args.deep_view();
    args.push(arg.to_string());
    assert(args.deep_view() =~= start.push(arg@));
}

/// A copy of a list of texts.
pub fn copy_texts(texts: &Vec<String>) -> (r: Vec<String>)
    ensures
        r.deep_view() == texts.deep_view(),
{
    let mut r = no_args();
    push_all(&mut r, texts);
    assert(Seq::<Seq<char>>::empty() + texts.deep_view() =~= texts.deep_view());
    r
}

/// An empty argument list.
pub fn no_args() -> (args: Vec<String>)
    ensures
        args.deep_view() == Seq::<Seq<char>>::empty(),
{
    let args: Vec<String> = Vec::new();
    assert(args.deep_view() =~= Seq::<Seq<char>>::empty());
    args
}

/// A process has succeeded exactly where it has exited by itself with 0; one that a signal has
/// ended has no exit code.
pub proof fn only_zero_is_success(code: i32, signal: i32)
    ensures
        ExitStatus::Exited(code).succeeded() <==> code == 0,
        !ExitStatus::Signaled(signal).succeeded(),
        ExitStatus::Exited(code).exit_code() == Some(code),
        ExitStatus::Signaled(signal).exit_code() is None,
{
}

} // verus!

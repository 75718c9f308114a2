use crate::text::{texts, trimmed, trimmed_string};
use vstd::prelude::*;
use vstd::string::*;

verus! {

/// A tool to run, with its arguments.
#[derive(Clone, Debug, PartialEq, Eq)]
pub struct Invocation {
    pub program: String,
    pub args: Vec<String>,
}

pub struct InvocationView {
    pub program: Seq<char>,
    pub args: Seq<Seq<char>>,
}

impl View for Invocation {
    type V = InvocationView;

    open spec fn view(&self) -> InvocationView {
        InvocationView { program: self.program@, args: texts(self.args@) }
    }
}

/// What a process left behind when it ended: whether it ended with success,
/// and all that it wrote to its two output streams.
#[derive(Clone, Debug, PartialEq, Eq)]
pub struct CommandOutcome {
    pub success: bool,
    pub stdout: String,
    pub stderr: String,
}

pub struct CommandOutcomeView {
    pub success: bool,
    pub stdout: Seq<char>,
    pub stderr: Seq<char>,
}

impl View for CommandOutcome {
    type V = CommandOutcomeView;

    open spec fn view(&self) -> CommandOutcomeView {
        CommandOutcomeView { success: self.success, stdout: self.stdout@, stderr: self.stderr@ }
    }
}

/// Why a command gave no output to work with.
#[derive(Clone, Debug, PartialEq, Eq)]
pub enum CommandError {
    /// The program could not be started at all.
    SpawnFailed { program: String, cause: String },
    /// The program ran and ended with a failure.
    CommandFailed { program: String, stderr: String },
}

pub enum CommandErrorView {
    SpawnFailed { program: Seq<char>, cause: Seq<char> },
    CommandFailed { program: Seq<char>, stderr: Seq<char> },
}

impl View for CommandError {
    type V = CommandErrorView;

    open spec fn view(&self) -> CommandErrorView {
        match self {
            CommandError::SpawnFailed { program, cause } => CommandErrorView::SpawnFailed {
                program: program@,
                cause: cause@,
            },
            CommandError::CommandFailed { program, stderr } => CommandErrorView::CommandFailed {
                program: program@,
                stderr: stderr@,
            },
        }
    }
}

/// The sentence that tells the user of the error.
pub open spec fn error_text(error: CommandErrorView) -> Seq<char> {
    match error {
        CommandErrorView::SpawnFailed { program, cause } => "Failed to run "@ + program + ": "@
            + cause,
        CommandErrorView::CommandFailed { program, stderr } => program + " failed: "@ + stderr,
    }
}

impl CommandError {
    /// The sentence that tells the user of the error.
    pub fn message(&self) -> (res: String)
        ensures
            res@ == error_text(self@),
    {
        match self {
            CommandError::SpawnFailed { program, cause } => String::from_str(
                "Failed to run ",
            ).concat(program.as_str()).concat(": ").concat(cause.as_str()),
            CommandError::CommandFailed { program, stderr } => program.clone().concat(
                " failed: ",
            ).concat(stderr.as_str()),
        }
    }
}

/// What the start of a process gave: the ended process, or the cause for
/// which it could not be started.
pub open spec fn spawn_view(spawned: Result<CommandOutcome, String>) -> Result<
    CommandOutcomeView,
    Seq<char>,
> {
    match spawned {
        Ok(outcome) => Ok(outcome@),
        Err(cause) => Err(cause@),
    }
}

/// What a command is worth to its caller: the standard output without the
/// white space at its ends where the process ended with success, and else
/// the error, which names the program and carries the standard error of a
/// failed process or the cause of a failed start.
pub open spec fn command_value(
    program: Seq<char>,
    spawned: Result<CommandOutcomeView, Seq<char>>,
) -> Result<Seq<char>, CommandErrorView> {
    match spawned {
        Err(cause) => Err(CommandErrorView::SpawnFailed { program, cause }),
        Ok(outcome) => if outcome.success {
            Ok(trimmed(outcome.stdout))
        } else {
            Err(CommandErrorView::CommandFailed { program, stderr: outcome.stderr })
        },
    }
}

/// The view of the value of a command.
pub open spec fn value_view(value: Result<String, CommandError>) -> Result<
    Seq<char>,
    CommandErrorView,
> {
    match value {
        Ok(out) => Ok(out@),
        Err(error) => Err(error@),
    }
}

/// Judges a command that was run for `program`.
pub fn command_result(program: &str, spawned: Result<CommandOutcome, String>) -> (res: Result<
    String,
    CommandError,
>)
    ensures
        value_view(res) == command_value(program@, spawn_view(spawned)),
{
    match spawned {
        Err(cause) => Err(CommandError::SpawnFailed { program: String::from_str(program), cause }),
        Ok(outcome) => {
            if outcome.success {
                Ok(trimmed_string(outcome.stdout.as_str()))
            } else {
                Err(
                    CommandError::CommandFailed {
                        program: String::from_str(program),
                        stderr: outcome.stderr,
                    },
                )
            }
        },
    }
}

/// A directory on the way from the working directory up to the root of the
/// file system, and whether it holds the marker of a repository.
#[derive(Clone, Debug, PartialEq, Eq)]
pub struct Candidate {
    pub path: String,
    pub has_marker: bool,
}

/// No directory on the way up holds the marker of a repository.
#[derive(Clone, Copy, Debug, PartialEq, Eq, Structural)]
pub struct NotFound;

/// The sentence that tells the user that no repository was found.
pub open spec fn not_found_text() -> Seq<char> {
    "Git repository not found. Run the desktop app from a git clone."@
}

impl NotFound {
    /// The sentence that tells the user that no repository was found.
    pub fn message(&self) -> (res: String)
        ensures
            res@ == not_found_text(),
    {
        String::from_str("Git repository not found. Run the desktop app from a git clone.")
    }
}

/// Whether `i` is the place of the first directory with the marker.
pub open spec fn first_marked(ancestors: Seq<Candidate>, i: int) -> bool {
    &&& 0 <= i < ancestors.len()
    &&& ancestors[i].has_marker
    &&& forall|j: int| 0 <= j < i ==> !(#[trigger] ancestors[j]).has_marker
}

/// Finds the root of the repository among the directories from the working
/// directory upwards, the working directory first: the first that holds the
/// marker, and `NotFound` where none does.
pub fn find_repo_root(ancestors: &Vec<Candidate>) -> (res: Result<String, NotFound>)
    ensures
        match res {
            Ok(path) => exists|i: int|
                first_marked(ancestors@, i) && path@ == (#[trigger] ancestors@[i]).path@,
            Err(_) => forall|j: int|
                0 <= j < ancestors@.len() ==> !(#[trigger] ancestors@[j]).has_marker,
        },
{
    let mut i: usize = 0;
    while i < ancestors.len()
        invariant
            i <= ancestors.len(),
            forall|j: int| 0 <= j < i ==> !(#[trigger] ancestors@[j]).has_marker,
        decreases ancestors.len() - i,
    {
        if ancestors[i].has_marker {
            assert(first_marked(ancestors@, i as int));
            return Ok(ancestors[i].path.clone());
        }
        i = i + 1;
    }
    Err(NotFound)
}

} // verus!

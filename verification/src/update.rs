use crate::command::{
    error_text, value_view, CommandError, CommandErrorView, Invocation, InvocationView,
};
use crate::text::{blank, is_blank, opt_text, same_text, texts};
use vstd::prelude::*;
use vstd::string::*;

verus! {

/// How an update ended.
#[derive(Clone, Copy, Debug, PartialEq, Eq, Structural)]
pub enum UpdateStatus {
    UpToDate,
    Updated,
    Error,
}

/// The name under which a status is reported.
pub open spec fn update_status_name(status: UpdateStatus) -> Seq<char> {
    match status {
        UpdateStatus::UpToDate => "up-to-date"@,
        UpdateStatus::Updated => "updated"@,
        UpdateStatus::Error => "error"@,
    }
}

impl UpdateStatus {
    /// The name under which the status is reported.
    pub fn as_str(&self) -> (res: &'static str)
        ensures
            res@ == update_status_name(*self),
    {
        match self {
            UpdateStatus::UpToDate => "up-to-date",
            UpdateStatus::Updated => "updated",
            UpdateStatus::Error => "error",
        }
    }
}

/// What an update reports: how it ended, a message for the user, the commit
/// before and the commit after where they could be read, and what the tools
/// wrote.
#[derive(Clone, Debug, PartialEq, Eq)]
pub struct UpdateResult {
    pub status: UpdateStatus,
    pub message: String,
    pub previous_commit: Option<String>,
    pub current_commit: Option<String>,
    pub output: Option<String>,
}

pub struct UpdateResultView {
    pub status: UpdateStatus,
    pub message: Seq<char>,
    pub previous_commit: Option<Seq<char>>,
    pub current_commit: Option<Seq<char>>,
    pub output: Option<Seq<char>>,
}

impl View for UpdateResult {
    type V = UpdateResultView;

    open spec fn view(&self) -> UpdateResultView {
        UpdateResultView {
            status: self.status,
            message: self.message@,
            previous_commit: opt_text(self.previous_commit),
            current_commit: opt_text(self.current_commit),
            output: opt_text(self.output),
        }
    }
}

/// The steps of an update, each of which runs one tool.
#[derive(Clone, Copy, Debug, PartialEq, Eq, Structural)]
pub enum UpdatePhase {
    VerifyTool,
    CheckTree,
    RecordPrevious,
    Fetch,
    ResolveRemote,
    Pull,
    Install,
    Build,
    RecordCurrent,
}

/// An update under way: the step whose tool runs next, and what the steps
/// before it have left.
#[derive(Clone, Debug, PartialEq, Eq)]
pub struct UpdateState {
    pub phase: UpdatePhase,
    pub branch: String,
    pub previous_commit: Option<String>,
    pub fetch_output: String,
    pub pull_output: String,
    pub install_output: String,
    pub build_output: String,
}

pub struct UpdateStateView {
    pub phase: UpdatePhase,
    pub branch: Seq<char>,
    pub previous_commit: Option<Seq<char>>,
    pub fetch_output: Seq<char>,
    pub pull_output: Seq<char>,
    pub install_output: Seq<char>,
    pub build_output: Seq<char>,
}

impl View for UpdateState {
    type V = UpdateStateView;

    open spec fn view(&self) -> UpdateStateView {
        UpdateStateView {
            phase: self.phase,
            branch: self.branch@,
            previous_commit: opt_text(self.previous_commit),
            fetch_output: self.fetch_output@,
            pull_output: self.pull_output@,
            install_output: self.install_output@,
            build_output: self.build_output@,
        }
    }
}

/// What comes after a step: the next step, or the end of the update, with
/// its result or with the error that stopped it.
#[derive(Debug, PartialEq, Eq)]
pub enum UpdateStep {
    Run(UpdateState),
    Done(Result<UpdateResult, CommandError>),
}

pub enum UpdateStepView {
    Run(UpdateStateView),
    Done(Result<UpdateResultView, CommandErrorView>),
}

/// The view of the end of an update.
pub open spec fn end_view(end: Result<UpdateResult, CommandError>) -> Result<
    UpdateResultView,
    CommandErrorView,
> {
    match end {
        Ok(result) => Ok(result@),
        Err(error) => Err(error@),
    }
}

impl View for UpdateStep {
    type V = UpdateStepView;

    open spec fn view(&self) -> UpdateStepView {
        match self {
            UpdateStep::Run(state) => UpdateStepView::Run(state@),
            UpdateStep::Done(end) => UpdateStepView::Done(end_view(*end)),
        }
    }
}

/// The state in which an update of a branch starts.
pub open spec fn initial_state(branch: Seq<char>) -> UpdateStateView {
    UpdateStateView {
        phase: UpdatePhase::VerifyTool,
        branch,
        previous_commit: None,
        fetch_output: Seq::empty(),
        pull_output: Seq::empty(),
        install_output: Seq::empty(),
        build_output: Seq::empty(),
    }
}

/// Starts an update of a branch.
pub fn start_update(branch: String) -> (res: UpdateState)
    ensures
        res@ == initial_state(branch@),
{
    UpdateState {
        phase: UpdatePhase::VerifyTool,
        branch,
        previous_commit: None,
        fetch_output: String::new(),
        pull_output: String::new(),
        install_output: String::new(),
        build_output: String::new(),
    }
}

/// The tool that a step runs.
pub open spec fn phase_command(phase: UpdatePhase, branch: Seq<char>) -> InvocationView {
    match phase {
        UpdatePhase::VerifyTool => InvocationView { program: "git"@, args: seq!["--version"@] },
        UpdatePhase::CheckTree => InvocationView {
            program: "git"@,
            args: seq!["status"@, "--porcelain"@],
        },
        UpdatePhase::RecordPrevious => InvocationView {
            program: "git"@,
            args: seq!["rev-parse"@, "HEAD"@],
        },
        UpdatePhase::Fetch => InvocationView {
            program: "git"@,
            args: seq!["fetch"@, "origin"@, branch],
        },
        UpdatePhase::ResolveRemote => InvocationView {
            program: "git"@,
            args: seq!["rev-parse"@, "origin/"@ + branch],
        },
        UpdatePhase::Pull => InvocationView {
            program: "git"@,
            args: seq!["pull"@, "--ff-only"@, "origin"@, branch],
        },
        UpdatePhase::Install => InvocationView { program: "npm"@, args: seq!["install"@] },
        UpdatePhase::Build => InvocationView {
            program: "npm"@,
            args: seq!["run"@, "build"@, "-ws"@, "--if-present"@],
        },
        UpdatePhase::RecordCurrent => InvocationView {
            program: "git"@,
            args: seq!["rev-parse"@, "HEAD"@],
        },
    }
}

fn invocation(program: &str, a: &str, b: Option<&str>, c: Option<&str>, d: Option<&str>) -> (res:
    Invocation)
    requires
        b.is_none() ==> c.is_none(),
        c.is_none() ==> d.is_none(),
    ensures
        res.program@ == program@,
        b.is_none() ==> texts(res.args@) == seq![a@],
        b.is_some() && c.is_none() ==> texts(res.args@) == seq![a@, b.unwrap()@],
        c.is_some() && d.is_none() ==> texts(res.args@) == seq![a@, b.unwrap()@, c.unwrap()@],
        d.is_some() ==> texts(res.args@) == seq![a@, b.unwrap()@, c.unwrap()@, d.unwrap()@],
{
    let mut args: Vec<String> = Vec::new();
    args.push(String::from_str(a));
    if let Some(b) = b {
        args.push(String::from_str(b));
    }
    if let Some(c) = c {
        args.push(String::from_str(c));
    }
    if let Some(d) = d {
        args.push(String::from_str(d));
    }
    assert(b.is_none() ==> texts(args@) =~= seq![a@]);
    assert(b.is_some() && c.is_none() ==> texts(args@) =~= seq![a@, b.unwrap()@]);
    assert(c.is_some() && d.is_none() ==> texts(args@) =~= seq![a@, b.unwrap()@, c.unwrap()@]);
    assert(d.is_some() ==> texts(args@) =~= seq![a@, b.unwrap()@, c.unwrap()@, d.unwrap()@]);
    Invocation { program: String::from_str(program), args }
}

/// The tool to run in a state.
pub fn next_command(state: &UpdateState) -> (res: Invocation)
    ensures
        res@ == phase_command(state.phase, state.branch@),
{
    let branch = state.branch.as_str();
    match state.phase {
        UpdatePhase::VerifyTool => invocation("git", "--version", None, None, None),
        UpdatePhase::CheckTree => invocation("git", "status", Some("--porcelain"), None, None),
        UpdatePhase::RecordPrevious => invocation("git", "rev-parse", Some("HEAD"), None, None),
        UpdatePhase::Fetch => invocation("git", "fetch", Some("origin"), Some(branch), None),
        UpdatePhase::ResolveRemote => {
            let remote = String::from_str("origin/").concat(branch);
            invocation("git", "rev-parse", Some(remote.as_str()), None, None)
        },
        UpdatePhase::Pull => invocation(
            "git",
            "pull",
            Some("--ff-only"),
            Some("origin"),
            Some(branch),
        ),
        UpdatePhase::Install => invocation("npm", "install", None, None, None),
        UpdatePhase::Build => invocation(
            "npm",
            "run",
            Some("build"),
            Some("-ws"),
            Some("--if-present"),
        ),
        UpdatePhase::RecordCurrent => invocation("git", "rev-parse", Some("HEAD"), None, None),
    }
}

/// The result for a working tree with changes that are not committed: the
/// update stops, and what the tool reported is handed on.
pub open spec fn dirty_tree(report: Seq<char>) -> UpdateResultView {
    UpdateResultView {
        status: UpdateStatus::Error,
        message: "Working tree has uncommitted changes. Commit or stash before updating."@,
        previous_commit: None,
        current_commit: None,
        output: Some(report),
    }
}

/// The result for a tree that is at the remote's commit already.
pub open spec fn up_to_date(
    previous: Option<Seq<char>>,
    remote: Seq<char>,
    fetch_output: Seq<char>,
) -> UpdateResultView {
    UpdateResultView {
        status: UpdateStatus::UpToDate,
        message: "Already up to date."@,
        previous_commit: previous,
        current_commit: Some(remote),
        output: Some(fetch_output),
    }
}

/// What the tools of a full update wrote, one after the other, with a line
/// feed between each two.
pub open spec fn combined_output(state: UpdateStateView) -> Seq<char> {
    state.fetch_output + seq!['\n'] + state.pull_output + seq!['\n'] + state.install_output
        + seq!['\n'] + state.build_output
}

/// The result of a full update.
pub open spec fn updated(state: UpdateStateView, current: Option<Seq<char>>) -> UpdateResultView {
    UpdateResultView {
        status: UpdateStatus::Updated,
        message: "Update completed. Restart the app to use the latest build."@,
        previous_commit: state.previous_commit,
        current_commit: current,
        output: Some(combined_output(state)),
    }
}

/// The state with another step to run next.
pub open spec fn at_phase(state: UpdateStateView, phase: UpdatePhase) -> UpdateStateView {
    UpdateStateView { phase, ..state }
}

/// Whether a step comes before anything is changed: the look at the working
/// tree, the fetch, and the reading of the remote's commit.
pub open spec fn before_changes(phase: UpdatePhase) -> bool {
    phase == UpdatePhase::CheckTree || phase == UpdatePhase::Fetch || phase
        == UpdatePhase::ResolveRemote
}

/// Whether a failure ends the update with a result for the user rather than
/// with an error: a tool that ran and failed, in a step before anything is
/// changed.
pub open spec fn fails_softly(phase: UpdatePhase, error: CommandErrorView) -> bool {
    before_changes(phase) && error is CommandFailed
}

/// The result for a tool that ran and failed before anything was changed:
/// the status error, the sentence that names the tool, and what the tool
/// wrote to standard error.
pub open spec fn tool_failed(state: UpdateStateView, error: CommandErrorView) -> UpdateResultView {
    UpdateResultView {
        status: UpdateStatus::Error,
        message: error_text(error),
        previous_commit: state.previous_commit,
        current_commit: None,
        output: match error {
            CommandErrorView::CommandFailed { program, stderr } => Some(stderr),
            CommandErrorView::SpawnFailed { program, cause } => None,
        },
    }
}

/// What comes after a step whose tool gave `outcome`.
///
/// A failure in one of the two steps that read a commit only leaves the
/// commit unknown. A tool that ran and failed before anything was changed
/// ends the update with `tool_failed`. Any other failure ends it with the
/// error: a tool that could not be started, in whatever step, and a failed
/// check of the tool, pull, install or build. A tree with changes ends the
/// update with `dirty_tree`, a remote commit that is the previous commit
/// with `up_to_date`; the last step ends it with `updated`.
pub open spec fn advanced(
    state: UpdateStateView,
    outcome: Result<Seq<char>, CommandErrorView>,
) -> UpdateStepView {
    match state.phase {
        UpdatePhase::RecordPrevious => UpdateStepView::Run(
            UpdateStateView {
                phase: UpdatePhase::Fetch,
                previous_commit: match outcome {
                    Ok(commit) => Some(commit),
                    Err(_) => None,
                },
                ..state
            },
        ),
        UpdatePhase::RecordCurrent => UpdateStepView::Done(
            Ok(
                updated(
                    state,
                    match outcome {
                        Ok(commit) => Some(commit),
                        Err(_) => None,
                    },
                ),
            ),
        ),
        _ => match outcome {
            Err(error) => if fails_softly(state.phase, error) {
                UpdateStepView::Done(Ok(tool_failed(state, error)))
            } else {
                UpdateStepView::Done(Err(error))
            },
            Ok(out) => match state.phase {
                UpdatePhase::VerifyTool => UpdateStepView::Run(
                    at_phase(state, UpdatePhase::CheckTree),
                ),
                UpdatePhase::CheckTree => if blank(out) {
                    UpdateStepView::Run(at_phase(state, UpdatePhase::RecordPrevious))
                } else {
                    UpdateStepView::Done(Ok(dirty_tree(out)))
                },
                UpdatePhase::Fetch => UpdateStepView::Run(
                    UpdateStateView { phase: UpdatePhase::ResolveRemote, fetch_output: out, ..state },
                ),
                UpdatePhase::ResolveRemote => if state.previous_commit == Some(out) {
                    UpdateStepView::Done(
                        Ok(up_to_date(state.previous_commit, out, state.fetch_output)),
                    )
                } else {
                    UpdateStepView::Run(at_phase(state, UpdatePhase::Pull))
                },
                UpdatePhase::Pull => UpdateStepView::Run(
                    UpdateStateView { phase: UpdatePhase::Install, pull_output: out, ..state },
                ),
                UpdatePhase::Install => UpdateStepView::Run(
                    UpdateStateView { phase: UpdatePhase::Build, install_output: out, ..state },
                ),
                _ => UpdateStepView::Run(
                    UpdateStateView { phase: UpdatePhase::RecordCurrent, build_output: out, ..state },
                ),
            },
        },
    }
}

fn optional_commit(outcome: Result<String, CommandError>) -> (res: Option<String>)
    ensures
        opt_text(res) == match value_view(outcome) {
            Ok(commit) => Some(commit),
            Err(_) => None,
        },
{
    match outcome {
        Ok(commit) => Some(commit),
        Err(_) => None,
    }
}

fn is_previous(previous: &Option<String>, remote: &str) -> (res: bool)
    ensures
        res == (opt_text(*previous) == Some(remote@)),
{
    match previous {
        Some(p) => same_text(p.as_str(), remote),
        None => false,
    }
}

fn is_before_changes(phase: UpdatePhase) -> (res: bool)
    ensures
        res == before_changes(phase),
{
    match phase {
        UpdatePhase::CheckTree => true,
        UpdatePhase::Fetch => true,
        UpdatePhase::ResolveRemote => true,
        _ => false,
    }
}

fn soft_failure(previous_commit: Option<String>, error: CommandError) -> (res: UpdateStep)
    ensures
        match error@ {
            CommandErrorView::CommandFailed { program, stderr } => res@ == UpdateStepView::Done(
                Ok(
                    UpdateResultView {
                        status: UpdateStatus::Error,
                        message: error_text(error@),
                        previous_commit: opt_text(previous_commit),
                        current_commit: None,
                        output: Some(stderr),
                    },
                ),
            ),
            CommandErrorView::SpawnFailed { program, cause } => res@ == UpdateStepView::Done(
                Err(error@),
            ),
        },
{
    match error {
        CommandError::CommandFailed { program, stderr } => {
            let message = program.concat(" failed: ").concat(stderr.as_str());
            UpdateStep::Done(
                Ok(
                    UpdateResult {
                        status: UpdateStatus::Error,
                        message,
                        previous_commit,
                        current_commit: None,
                        output: Some(stderr),
                    },
                ),
            )
        },
        CommandError::SpawnFailed { program, cause } => UpdateStep::Done(
            Err(CommandError::SpawnFailed { program, cause }),
        ),
    }
}

/// Takes what the tool of the current step gave, and says what comes next.
pub fn advance(state: UpdateState, outcome: Result<String, CommandError>) -> (res: UpdateStep)
    ensures
        res@ == advanced(state@, value_view(outcome)),
{
    let mut state = state;
    match state.phase {
        UpdatePhase::RecordPrevious => {
            state.previous_commit = optional_commit(outcome);
            state.phase = UpdatePhase::Fetch;
            UpdateStep::Run(state)
        },
        UpdatePhase::RecordCurrent => {
            let current_commit = optional_commit(outcome);
            proof {
                reveal_strlit("\n");
                assert("\n"@ =~= seq!['\n']);
            }
            let output = state.fetch_output.concat("\n").concat(state.pull_output.as_str()).concat(
                "\n",
            ).concat(state.install_output.as_str()).concat("\n").concat(
                state.build_output.as_str(),
            );
            UpdateStep::Done(
                Ok(
                    UpdateResult {
                        status: UpdateStatus::Updated,
                        message: String::from_str(
                            "Update completed. Restart the app to use the latest build.",
                        ),
                        previous_commit: state.previous_commit,
                        current_commit,
                        output: Some(output),
                    },
                ),
            )
        },
        _ => match outcome {
            Err(error) => {
                if is_before_changes(state.phase) {
                    soft_failure(state.previous_commit, error)
                } else {
                    UpdateStep::Done(Err(error))
                }
            },
            Ok(out) => match state.phase {
                UpdatePhase::VerifyTool => {
                    state.phase = UpdatePhase::CheckTree;
                    UpdateStep::Run(state)
                },
                UpdatePhase::CheckTree => {
                    if is_blank(out.as_str()) {
                        state.phase = UpdatePhase::RecordPrevious;
                        UpdateStep::Run(state)
                    } else {
                        UpdateStep::Done(
                            Ok(
                                UpdateResult {
                                    status: UpdateStatus::Error,
                                    message: String::from_str(
                                        "Working tree has uncommitted changes. Commit or stash before updating.",
                                    ),
                                    previous_commit: None,
                                    current_commit: None,
                                    output: Some(out),
                                },
                            ),
                        )
                    }
                },
                UpdatePhase::Fetch => {
                    state.fetch_output = out;
                    state.phase = UpdatePhase::ResolveRemote;
                    UpdateStep::Run(state)
                },
                UpdatePhase::ResolveRemote => {
                    if is_previous(&state.previous_commit, out.as_str()) {
                        UpdateStep::Done(
                            Ok(
                                UpdateResult {
                                    status: UpdateStatus::UpToDate,
                                    message: String::from_str("Already up to date."),
                                    previous_commit: state.previous_commit,
                                    current_commit: Some(out),
                                    output: Some(state.fetch_output),
                                },
                            ),
                        )
                    } else {
                        state.phase = UpdatePhase::Pull;
                        UpdateStep::Run(state)
                    }
                },
                UpdatePhase::Pull => {
                    state.pull_output = out;
                    state.phase = UpdatePhase::Install;
                    UpdateStep::Run(state)
                },
                UpdatePhase::Install => {
                    state.install_output = out;
                    state.phase = UpdatePhase::Build;
                    UpdateStep::Run(state)
                },
                _ => {
                    state.build_output = out;
                    state.phase = UpdatePhase::RecordCurrent;
                    UpdateStep::Run(state)
                },
            },
        },
    }
}

} // verus!

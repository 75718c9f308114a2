use crate::command::{value_view, CommandError, CommandErrorView, Invocation, InvocationView};
use crate::text::blank;
use crate::update::{
    advance, advanced, before_changes, dirty_tree, end_view, initial_state, next_command,
    phase_command, start_update, tool_failed, up_to_date, UpdatePhase, UpdateResult,
    UpdateResultView, UpdateStateView, UpdateStatus, UpdateStep, UpdateStepView,
};
use vstd::prelude::*;
use vstd::string::*;

verus! {

/// An update as it went: the tools that were run, in order, and how it
/// ended, if it has ended.
#[derive(Debug, PartialEq, Eq)]
pub struct UpdateRun {
    pub commands: Vec<Invocation>,
    pub finished: Option<Result<UpdateResult, CommandError>>,
}

pub struct UpdateRunView {
    pub commands: Seq<InvocationView>,
    pub finished: Option<Result<UpdateResultView, CommandErrorView>>,
}

/// The tools of a sequence, in order.
pub open spec fn invocation_views(commands: Seq<Invocation>) -> Seq<InvocationView> {
    commands.map_values(|c: Invocation| c@)
}

impl View for UpdateRun {
    type V = UpdateRunView;

    open spec fn view(&self) -> UpdateRunView {
        UpdateRunView {
            commands: invocation_views(self.commands@),
            finished: match self.finished {
                Some(end) => Some(end_view(end)),
                None => None,
            },
        }
    }
}

/// What the tools gave, in order.
pub open spec fn outcome_views(outcomes: Seq<Result<String, CommandError>>) -> Seq<
    Result<Seq<char>, CommandErrorView>,
> {
    outcomes.map_values(|o: Result<String, CommandError>| value_view(o))
}

/// The update from a state on, where the tools give the outcomes in order:
/// the tool of each state is run, and each outcome decides what comes next.
/// It has not ended where the outcomes run out first; outcomes behind its
/// end are not looked at.
pub open spec fn run_from(
    state: UpdateStateView,
    outcomes: Seq<Result<Seq<char>, CommandErrorView>>,
) -> UpdateRunView
    decreases outcomes.len(),
{
    let command = phase_command(state.phase, state.branch);
    if outcomes.len() == 0 {
        UpdateRunView { commands: seq![command], finished: None }
    } else {
        match advanced(state, outcomes.first()) {
            UpdateStepView::Done(end) => UpdateRunView {
                commands: seq![command],
                finished: Some(end),
            },
            UpdateStepView::Run(next) => {
                let rest = run_from(next, outcomes.drop_first());
                UpdateRunView { commands: seq![command] + rest.commands, finished: rest.finished }
            },
        }
    }
}

/// The update of a branch from its start.
pub open spec fn update_run(
    branch: Seq<char>,
    outcomes: Seq<Result<Seq<char>, CommandErrorView>>,
) -> UpdateRunView {
    run_from(initial_state(branch), outcomes)
}

fn copy_value(value: &Result<String, CommandError>) -> (res: Result<String, CommandError>)
    ensures
        value_view(res) == value_view(*value),
{
    match value {
        Ok(out) => Ok(out.clone()),
        Err(CommandError::SpawnFailed { program, cause }) => Err(
            CommandError::SpawnFailed { program: program.clone(), cause: cause.clone() },
        ),
        Err(CommandError::CommandFailed { program, stderr }) => Err(
            CommandError::CommandFailed { program: program.clone(), stderr: stderr.clone() },
        ),
    }
}

/// Goes through the update of a branch with outcomes that were recorded:
/// each step takes the next outcome in place of running its tool.
pub fn replay_update(branch: String, outcomes: &Vec<Result<String, CommandError>>) -> (res:
    UpdateRun)
    ensures
        res@ == update_run(branch@, outcome_views(outcomes@)),
{
    let ghost all = outcome_views(outcomes@);
    let ghost whole = update_run(branch@, all);
    let mut state = start_update(branch);
    let mut commands: Vec<Invocation> = Vec::new();
    let mut i: usize = 0;
    assert(all.skip(0) =~= all);
    assert(invocation_views(commands@) + run_from(state@, all).commands =~= whole.commands);
    while i < outcomes.len()
        invariant
            i <= outcomes.len(),
            all == outcome_views(outcomes@),
            whole == update_run(branch@, all),
            whole.commands == invocation_views(commands@) + run_from(
                state@,
                all.skip(i as int),
            ).commands,
            whole.finished == run_from(state@, all.skip(i as int)).finished,
        decreases outcomes.len() - i,
    {
        let ghost sent = invocation_views(commands@);
        let ghost here = state@;
        let command = next_command(&state);
        commands.push(command);
        proof {
            assert(invocation_views(commands@) =~= sent.push(command@));
            assert(all.skip(i as int).first() == value_view(outcomes@[i as int]));
            assert(all.skip(i as int).drop_first() =~= all.skip(i + 1));
        }
        match advance(state, copy_value(&outcomes[i])) {
            UpdateStep::Done(end) => {
                let run = UpdateRun { commands, finished: Some(end) };
                proof {
                    assert(advanced(here, all.skip(i as int).first()) == UpdateStepView::Done(
                        end_view(end),
                    ));
                    assert(run_from(here, all.skip(i as int)).commands =~= seq![command@]);
                    assert(run@.commands =~= whole.commands);
                    assert(run@.finished == whole.finished);
                }
                return run;
            },
            UpdateStep::Run(next) => {
                state = next;
                assert(whole.commands =~= invocation_views(commands@) + run_from(
                    state@,
                    all.skip(i + 1),
                ).commands);
            },
        }
        i = i + 1;
    }
    let ghost sent = invocation_views(commands@);
    let command = next_command(&state);
    commands.push(command);
    proof {
        assert(invocation_views(commands@) =~= sent.push(command@));
        assert(invocation_views(commands@) =~= whole.commands);
    }
    UpdateRun { commands, finished: None }
}

/// Whether a tool changes the working tree or what is built from it: the
/// pull, the install and the build do.
pub open spec fn changes_tree(command: InvocationView, branch: Seq<char>) -> bool {
    ||| command == phase_command(UpdatePhase::Pull, branch)
    ||| command == phase_command(UpdatePhase::Install, branch)
    ||| command == phase_command(UpdatePhase::Build, branch)
}

/// Whether a tool talks to the remote: the fetch and the pull do.
pub open spec fn reaches_remote(command: InvocationView, branch: Seq<char>) -> bool {
    ||| command == phase_command(UpdatePhase::Fetch, branch)
    ||| command == phase_command(UpdatePhase::Pull, branch)
}

/// On a clean tree whose commit is the remote's, the update ends as up to
/// date, with that commit as the previous and as the current one and with
/// what the fetch wrote, after the five tools that lead there; no tool that
/// changes the tree was run.
pub proof fn lemma_clean_tree_at_remote_commit(
    branch: Seq<char>,
    outcomes: Seq<Result<Seq<char>, CommandErrorView>>,
    report: Seq<char>,
    commit: Seq<char>,
    fetched: Seq<char>,
)
    requires
        outcomes.len() >= 5,
        outcomes[0].is_ok(),
        outcomes[1] == Ok::<Seq<char>, CommandErrorView>(report),
        blank(report),
        outcomes[2] == Ok::<Seq<char>, CommandErrorView>(commit),
        outcomes[3] == Ok::<Seq<char>, CommandErrorView>(fetched),
        outcomes[4] == Ok::<Seq<char>, CommandErrorView>(commit),
    ensures
        update_run(branch, outcomes).finished == Some(
            Ok::<UpdateResultView, CommandErrorView>(up_to_date(Some(commit), commit, fetched)),
        ),
        up_to_date(Some(commit), commit, fetched).status == UpdateStatus::UpToDate,
        up_to_date(Some(commit), commit, fetched).previous_commit == up_to_date(
            Some(commit),
            commit,
            fetched,
        ).current_commit,
        update_run(branch, outcomes).commands == seq![
            phase_command(UpdatePhase::VerifyTool, branch),
            phase_command(UpdatePhase::CheckTree, branch),
            phase_command(UpdatePhase::RecordPrevious, branch),
            phase_command(UpdatePhase::Fetch, branch),
            phase_command(UpdatePhase::ResolveRemote, branch),
        ],
        forall|i: int|
            0 <= i < update_run(branch, outcomes).commands.len() ==> !changes_tree(
                #[trigger] update_run(branch, outcomes).commands[i],
                branch,
            ),
{
    reveal_with_fuel(run_from, 6);
    let run = update_run(branch, outcomes);
    let expected = seq![
        phase_command(UpdatePhase::VerifyTool, branch),
        phase_command(UpdatePhase::CheckTree, branch),
        phase_command(UpdatePhase::RecordPrevious, branch),
        phase_command(UpdatePhase::Fetch, branch),
        phase_command(UpdatePhase::ResolveRemote, branch),
    ];
    let o1 = outcomes.drop_first();
    let o2 = o1.drop_first();
    let o3 = o2.drop_first();
    let o4 = o3.drop_first();
    assert(o1.first() == outcomes[1]);
    assert(o2.first() == outcomes[2]);
    assert(o3.first() == outcomes[3]);
    assert(o4.first() == outcomes[4]);
    assert(run.commands =~= expected);
    reveal_strlit("--version");
    reveal_strlit("install");
    assert forall|i: int| 0 <= i < run.commands.len() implies !changes_tree(
        #[trigger] run.commands[i],
        branch,
    ) by {
        let c = run.commands[i];
        assert(phase_command(UpdatePhase::Pull, branch).args.len() == 4);
        assert(phase_command(UpdatePhase::Build, branch).args.len() == 4);
        assert(phase_command(UpdatePhase::Install, branch).args.len() == 1);
        assert(c.args.len() < 4);
        if c.args.len() == 1 {
            assert(i == 0);
            assert(c.args[0] == "--version"@);
            assert(phase_command(UpdatePhase::Install, branch).args[0] == "install"@);
        }
    }
}

/// On a tree with changes that are not committed the update ends with the
/// status error and hands on what the tool reported, after the two tools
/// that lead there; neither fetch nor pull was run.
pub proof fn lemma_dirty_tree_stops(
    branch: Seq<char>,
    outcomes: Seq<Result<Seq<char>, CommandErrorView>>,
    report: Seq<char>,
)
    requires
        outcomes.len() >= 2,
        outcomes[0].is_ok(),
        outcomes[1] == Ok::<Seq<char>, CommandErrorView>(report),
        !blank(report),
    ensures
        update_run(branch, outcomes).finished == Some(
            Ok::<UpdateResultView, CommandErrorView>(dirty_tree(report)),
        ),
        dirty_tree(report).status == UpdateStatus::Error,
        dirty_tree(report).output == Some(report),
        update_run(branch, outcomes).commands == seq![
            phase_command(UpdatePhase::VerifyTool, branch),
            phase_command(UpdatePhase::CheckTree, branch),
        ],
        forall|i: int|
            0 <= i < update_run(branch, outcomes).commands.len() ==> !reaches_remote(
                #[trigger] update_run(branch, outcomes).commands[i],
                branch,
            ),
{
    reveal_with_fuel(run_from, 3);
    let run = update_run(branch, outcomes);
    let o1 = outcomes.drop_first();
    assert(o1.first() == outcomes[1]);
    assert(run.commands =~= seq![
        phase_command(UpdatePhase::VerifyTool, branch),
        phase_command(UpdatePhase::CheckTree, branch),
    ]);
    assert forall|i: int| 0 <= i < run.commands.len() implies !reaches_remote(
        #[trigger] run.commands[i],
        branch,
    ) by {
        assert(phase_command(UpdatePhase::Pull, branch).args.len() == 4);
        assert(phase_command(UpdatePhase::Fetch, branch).args.len() == 3);
        assert(run.commands[i].args.len() < 3);
    }
}

/// The two steps that read a commit never end the update with an error:
/// where the commit cannot be read, it is left unknown.
pub proof fn lemma_commit_reads_never_abort(
    state: UpdateStateView,
    outcome: Result<Seq<char>, CommandErrorView>,
)
    requires
        state.phase == UpdatePhase::RecordPrevious || state.phase == UpdatePhase::RecordCurrent,
    ensures
        match advanced(state, outcome) {
            UpdateStepView::Done(end) => end.is_ok() && state.phase == UpdatePhase::RecordCurrent,
            UpdateStepView::Run(next) => next.phase == UpdatePhase::Fetch,
        },
{
}

/// Whether a failure ends the update with the error itself: a tool that could
/// not be started, in any step but the two that read a commit, and any
/// failure of the check of the tool, the pull, the install or the build.
pub open spec fn is_fatal(phase: UpdatePhase, error: CommandErrorView) -> bool {
    &&& phase != UpdatePhase::RecordPrevious
    &&& phase != UpdatePhase::RecordCurrent
    &&& (error is SpawnFailed || !before_changes(phase))
}

/// A fatal failure ends the update there with that error, and no further
/// tool is run.
pub proof fn lemma_failure_is_fatal(
    state: UpdateStateView,
    error: CommandErrorView,
    later: Seq<Result<Seq<char>, CommandErrorView>>,
)
    requires
        is_fatal(state.phase, error),
    ensures
        run_from(state, seq![Err::<Seq<char>, CommandErrorView>(error)] + later).finished == Some(
            Err::<UpdateResultView, CommandErrorView>(error),
        ),
        run_from(state, seq![Err::<Seq<char>, CommandErrorView>(error)] + later).commands
            == seq![phase_command(state.phase, state.branch)],
{
    let outcomes = seq![Err::<Seq<char>, CommandErrorView>(error)] + later;
    assert(outcomes.first() == Err::<Seq<char>, CommandErrorView>(error));
}

/// A tool that runs and fails before anything is changed, in the look at the
/// working tree, the fetch or the reading of the remote's commit, ends the
/// update there with a result for the user: the status error, no current
/// commit, a message that names the tool, and what the tool wrote to
/// standard error. No further tool is run.
pub proof fn lemma_failure_before_changes_is_soft(
    state: UpdateStateView,
    program: Seq<char>,
    stderr: Seq<char>,
    later: Seq<Result<Seq<char>, CommandErrorView>>,
)
    requires
        before_changes(state.phase),
    ensures
        ({
            let error = CommandErrorView::CommandFailed { program, stderr };
            let run = run_from(state, seq![Err::<Seq<char>, CommandErrorView>(error)] + later);
            &&& run.finished == Some(
                Ok::<UpdateResultView, CommandErrorView>(tool_failed(state, error)),
            )
            &&& run.commands == seq![phase_command(state.phase, state.branch)]
            &&& tool_failed(state, error).status == UpdateStatus::Error
            &&& tool_failed(state, error).current_commit.is_none()
            &&& tool_failed(state, error).output == Some(stderr)
            &&& tool_failed(state, error).message == program + " failed: "@ + stderr
        }),
{
    let error = CommandErrorView::CommandFailed { program, stderr };
    let outcomes = seq![Err::<Seq<char>, CommandErrorView>(error)] + later;
    assert(outcomes.first() == Err::<Seq<char>, CommandErrorView>(error));
}

/// On a clean tree, a fetch that fails ends the update with a result for the
/// user that holds what the fetch wrote to standard error, after the four
/// tools that lead there; neither pull nor install nor build was run.
pub proof fn lemma_failed_fetch_is_soft(
    branch: Seq<char>,
    outcomes: Seq<Result<Seq<char>, CommandErrorView>>,
    report: Seq<char>,
    program: Seq<char>,
    stderr: Seq<char>,
)
    requires
        outcomes.len() >= 4,
        outcomes[0].is_ok(),
        outcomes[1] == Ok::<Seq<char>, CommandErrorView>(report),
        blank(report),
        outcomes[3] == Err::<Seq<char>, CommandErrorView>(
            CommandErrorView::CommandFailed { program, stderr },
        ),
    ensures
        update_run(branch, outcomes).finished.is_some(),
        update_run(branch, outcomes).finished.unwrap() is Ok,
        update_run(branch, outcomes).finished.unwrap()->Ok_0.status == UpdateStatus::Error,
        update_run(branch, outcomes).finished.unwrap()->Ok_0.output == Some(stderr),
        update_run(branch, outcomes).finished.unwrap()->Ok_0.current_commit.is_none(),
        update_run(branch, outcomes).commands == seq![
            phase_command(UpdatePhase::VerifyTool, branch),
            phase_command(UpdatePhase::CheckTree, branch),
            phase_command(UpdatePhase::RecordPrevious, branch),
            phase_command(UpdatePhase::Fetch, branch),
        ],
        forall|i: int|
            0 <= i < update_run(branch, outcomes).commands.len() ==> !changes_tree(
                #[trigger] update_run(branch, outcomes).commands[i],
                branch,
            ),
{
    reveal_with_fuel(run_from, 5);
    let run = update_run(branch, outcomes);
    let o1 = outcomes.drop_first();
    let o2 = o1.drop_first();
    let o3 = o2.drop_first();
    assert(o1.first() == outcomes[1]);
    assert(o2.first() == outcomes[2]);
    assert(o3.first() == outcomes[3]);
    assert(run.commands =~= seq![
        phase_command(UpdatePhase::VerifyTool, branch),
        phase_command(UpdatePhase::CheckTree, branch),
        phase_command(UpdatePhase::RecordPrevious, branch),
        phase_command(UpdatePhase::Fetch, branch),
    ]);
    reveal_strlit("--version");
    reveal_strlit("install");
    assert forall|i: int| 0 <= i < run.commands.len() implies !changes_tree(
        #[trigger] run.commands[i],
        branch,
    ) by {
        let c = run.commands[i];
        assert(phase_command(UpdatePhase::Pull, branch).args.len() == 4);
        assert(phase_command(UpdatePhase::Build, branch).args.len() == 4);
        assert(phase_command(UpdatePhase::Install, branch).args.len() == 1);
        assert(c.args.len() < 4);
        if c.args.len() == 1 {
            assert(i == 0);
            assert(c.args[0] == "--version"@);
            assert(phase_command(UpdatePhase::Install, branch).args[0] == "install"@);
        }
    }
}

/// On a clean tree that is not at the remote's commit, with every tool
/// succeeding but for the two that read a commit, which may fail, the
/// update runs its nine tools in their fixed order, the pull before the
/// install and the install before the build, and ends as updated with the
/// commits that could be read and with what fetch, pull, install and build
/// wrote.
pub proof fn lemma_full_update_order(
    branch: Seq<char>,
    outcomes: Seq<Result<Seq<char>, CommandErrorView>>,
    report: Seq<char>,
    previous: Option<Seq<char>>,
    fetched: Seq<char>,
    remote: Seq<char>,
    pulled: Seq<char>,
    installed: Seq<char>,
    built: Seq<char>,
    current: Option<Seq<char>>,
)
    requires
        outcomes.len() >= 9,
        outcomes[0].is_ok(),
        outcomes[1] == Ok::<Seq<char>, CommandErrorView>(report),
        blank(report),
        match previous {
            Some(commit) => outcomes[2] == Ok::<Seq<char>, CommandErrorView>(commit),
            None => outcomes[2].is_err(),
        },
        outcomes[3] == Ok::<Seq<char>, CommandErrorView>(fetched),
        outcomes[4] == Ok::<Seq<char>, CommandErrorView>(remote),
        previous != Some(remote),
        outcomes[5] == Ok::<Seq<char>, CommandErrorView>(pulled),
        outcomes[6] == Ok::<Seq<char>, CommandErrorView>(installed),
        outcomes[7] == Ok::<Seq<char>, CommandErrorView>(built),
        match current {
            Some(commit) => outcomes[8] == Ok::<Seq<char>, CommandErrorView>(commit),
            None => outcomes[8].is_err(),
        },
    ensures
        update_run(branch, outcomes).commands == seq![
            phase_command(UpdatePhase::VerifyTool, branch),
            phase_command(UpdatePhase::CheckTree, branch),
            phase_command(UpdatePhase::RecordPrevious, branch),
            phase_command(UpdatePhase::Fetch, branch),
            phase_command(UpdatePhase::ResolveRemote, branch),
            phase_command(UpdatePhase::Pull, branch),
            phase_command(UpdatePhase::Install, branch),
            phase_command(UpdatePhase::Build, branch),
            phase_command(UpdatePhase::RecordCurrent, branch),
        ],
        update_run(branch, outcomes).finished == Some(
            Ok::<UpdateResultView, CommandErrorView>(
                UpdateResultView {
                    status: UpdateStatus::Updated,
                    message: "Update completed. Restart the app to use the latest build."@,
                    previous_commit: previous,
                    current_commit: current,
                    output: Some(
                        fetched + seq!['\n'] + pulled + seq!['\n'] + installed + seq!['\n']
                            + built,
                    ),
                },
            ),
        ),
{
    reveal_with_fuel(run_from, 10);
    let o1 = outcomes.drop_first();
    let o2 = o1.drop_first();
    let o3 = o2.drop_first();
    let o4 = o3.drop_first();
    let o5 = o4.drop_first();
    let o6 = o5.drop_first();
    let o7 = o6.drop_first();
    let o8 = o7.drop_first();
    assert(o1.first() == outcomes[1]);
    assert(o2.first() == outcomes[2]);
    assert(o3.first() == outcomes[3]);
    assert(o4.first() == outcomes[4]);
    assert(o5.first() == outcomes[5]);
    assert(o6.first() == outcomes[6]);
    assert(o7.first() == outcomes[7]);
    assert(o8.first() == outcomes[8]);
    assert(update_run(branch, outcomes).commands =~= seq![
        phase_command(UpdatePhase::VerifyTool, branch),
        phase_command(UpdatePhase::CheckTree, branch),
        phase_command(UpdatePhase::RecordPrevious, branch),
        phase_command(UpdatePhase::Fetch, branch),
        phase_command(UpdatePhase::ResolveRemote, branch),
        phase_command(UpdatePhase::Pull, branch),
        phase_command(UpdatePhase::Install, branch),
        phase_command(UpdatePhase::Build, branch),
        phase_command(UpdatePhase::RecordCurrent, branch),
    ]);
}

} // verus!

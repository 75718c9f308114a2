use console_backend::command::{
    command_result, find_repo_root, Candidate, CommandError, CommandOutcome, Invocation, NotFound,
};
use console_backend::update::{
    advance, next_command, start_update, UpdatePhase, UpdateResult, UpdateStatus, UpdateStep,
};
use console_backend::update_run::replay_update;

fn ok(s: &str) -> Result<String, CommandError> {
    Ok(s.to_string())
}

fn failed(program: &str, stderr: &str) -> Result<String, CommandError> {
    Err(CommandError::CommandFailed { program: program.to_string(), stderr: stderr.to_string() })
}

fn call(program: &str, args: &[&str]) -> Invocation {
    Invocation { program: program.to_string(), args: args.iter().map(|s| s.to_string()).collect() }
}

#[test]
fn clean_tree_at_remote_commit_is_up_to_date() {
    let outcomes = vec![ok("git version 2.43.0"), ok(""), ok("abc123"), ok("From origin"), ok("abc123")];
    let run = replay_update("main".to_string(), &outcomes);
    let result = run.finished.unwrap().unwrap();
    assert_eq!(result.status, UpdateStatus::UpToDate);
    assert_eq!(result.status.as_str(), "up-to-date");
    assert_eq!(result.message, "Already up to date.");
    assert_eq!(result.previous_commit, Some("abc123".to_string()));
    assert_eq!(result.current_commit, result.previous_commit);
    assert_eq!(result.output, Some("From origin".to_string()));
    assert_eq!(
        run.commands,
        vec![
            call("git", &["--version"]),
            call("git", &["status", "--porcelain"]),
            call("git", &["rev-parse", "HEAD"]),
            call("git", &["fetch", "origin", "main"]),
            call("git", &["rev-parse", "origin/main"]),
        ]
    );
    assert!(run.commands.iter().all(|c| c.program != "npm" && c.args[0] != "pull"));
}

#[test]
fn dirty_tree_stops_before_any_fetch() {
    let outcomes = vec![ok("git version 2.43.0"), ok("M src/main.rs\n?? notes.txt"), ok("abc"), ok("x"), ok("y")];
    let run = replay_update("main".to_string(), &outcomes);
    let result = run.finished.unwrap().unwrap();
    assert_eq!(result.status, UpdateStatus::Error);
    assert_eq!(result.status.as_str(), "error");
    assert_eq!(result.message, "Working tree has uncommitted changes. Commit or stash before updating.");
    assert_eq!(result.previous_commit, None);
    assert_eq!(result.current_commit, None);
    assert_eq!(result.output, Some("M src/main.rs\n?? notes.txt".to_string()));
    assert_eq!(run.commands, vec![call("git", &["--version"]), call("git", &["status", "--porcelain"])]);
}

#[test]
fn full_update_runs_every_step_in_order() {
    let outcomes = vec![
        ok("git version 2.43.0"),
        ok(" "),
        ok("old111"),
        ok("fetched"),
        ok("new222"),
        ok("pulled"),
        ok("installed"),
        ok("built"),
        ok("new222"),
    ];
    let run = replay_update("release".to_string(), &outcomes);
    assert_eq!(
        run.commands,
        vec![
            call("git", &["--version"]),
            call("git", &["status", "--porcelain"]),
            call("git", &["rev-parse", "HEAD"]),
            call("git", &["fetch", "origin", "release"]),
            call("git", &["rev-parse", "origin/release"]),
            call("git", &["pull", "--ff-only", "origin", "release"]),
            call("npm", &["install"]),
            call("npm", &["run", "build", "-ws", "--if-present"]),
            call("git", &["rev-parse", "HEAD"]),
        ]
    );
    assert_eq!(
        run.finished,
        Some(Ok(UpdateResult {
            status: UpdateStatus::Updated,
            message: "Update completed. Restart the app to use the latest build.".to_string(),
            previous_commit: Some("old111".to_string()),
            current_commit: Some("new222".to_string()),
            output: Some("fetched\npulled\ninstalled\nbuilt".to_string()),
        }))
    );
    assert_eq!(UpdateStatus::Updated.as_str(), "updated");
}

#[test]
fn missing_tool_is_fatal() {
    let error = CommandError::SpawnFailed { program: "git".to_string(), cause: "No such file or directory".to_string() };
    let run = replay_update("main".to_string(), &vec![Err(error.clone()), ok("")]);
    assert_eq!(run.finished, Some(Err(error)));
    assert_eq!(run.commands, vec![call("git", &["--version"])]);
}

#[test]
fn failure_after_the_pull_is_fatal_and_not_rolled_back() {
    let outcomes = vec![ok("v"), ok(""), ok("old"), ok("f"), ok("new"), ok("pulled"), failed("npm", "ERESOLVE"), ok("b"), ok("c")];
    let run = replay_update("main".to_string(), &outcomes);
    assert_eq!(run.finished, Some(failed("npm", "ERESOLVE").map(|_| unreachable!())));
    assert_eq!(run.commands.len(), 7);
    assert_eq!(run.commands[6], call("npm", &["install"]));
}

#[test]
fn failures_of_pull_and_build_are_fatal() {
    for at in [5usize, 7] {
        let mut outcomes = vec![ok("v"), ok(""), ok("old"), ok("f"), ok("new"), ok("p"), ok("i"), ok("b"), ok("new")];
        outcomes[at] = failed("tool", "broken");
        let run = replay_update("main".to_string(), &outcomes);
        assert_eq!(run.commands.len(), at + 1);
        match run.finished {
            Some(Err(CommandError::CommandFailed { program, stderr })) => {
                assert_eq!(program, "tool");
                assert_eq!(stderr, "broken");
            }
            other => panic!("expected a fatal error, got {:?}", other),
        }
    }
}

#[test]
fn failed_version_check_is_fatal() {
    let run = replay_update("main".to_string(), &vec![failed("git", "broken"), ok("")]);
    assert_eq!(run.finished, Some(Err(CommandError::CommandFailed { program: "git".to_string(), stderr: "broken".to_string() })));
    assert_eq!(run.commands.len(), 1);
}

#[test]
fn failed_fetch_is_a_soft_error_with_the_tool_output() {
    let outcomes = vec![ok("v"), ok(""), ok("old"), failed("git", "fatal: unable to access remote"), ok("new"), ok("p")];
    let run = replay_update("main".to_string(), &outcomes);
    assert_eq!(
        run.finished,
        Some(Ok(UpdateResult {
            status: UpdateStatus::Error,
            message: "git failed: fatal: unable to access remote".to_string(),
            previous_commit: Some("old".to_string()),
            current_commit: None,
            output: Some("fatal: unable to access remote".to_string()),
        }))
    );
    assert_eq!(run.commands.len(), 4);
    assert_eq!(run.commands[3], call("git", &["fetch", "origin", "main"]));
    assert!(run.commands.iter().all(|c| c.program != "npm" && c.args[0] != "pull"));
}

#[test]
fn failures_of_status_and_resolve_are_soft_errors() {
    for at in [1usize, 4] {
        let mut outcomes = vec![ok("v"), ok(""), ok("old"), ok("f"), ok("new"), ok("p"), ok("i"), ok("b"), ok("new")];
        outcomes[at] = failed("git", "broken");
        let run = replay_update("main".to_string(), &outcomes);
        assert_eq!(run.commands.len(), at + 1);
        let result = run.finished.unwrap().unwrap();
        assert_eq!(result.status, UpdateStatus::Error);
        assert_eq!(result.message, "git failed: broken");
        assert_eq!(result.current_commit, None);
        assert_eq!(result.output, Some("broken".to_string()));
        assert_eq!(result.previous_commit, if at == 1 { None } else { Some("old".to_string()) });
    }
}

#[test]
fn a_tool_that_cannot_start_is_fatal_in_every_step() {
    for at in [0usize, 1, 3, 4, 5, 6, 7] {
        let mut outcomes = vec![ok("v"), ok(""), ok("old"), ok("f"), ok("new"), ok("p"), ok("i"), ok("b"), ok("new")];
        let error = CommandError::SpawnFailed { program: "git".to_string(), cause: "not found".to_string() };
        outcomes[at] = Err(error.clone());
        let run = replay_update("main".to_string(), &outcomes);
        assert_eq!(run.commands.len(), at + 1);
        assert_eq!(run.finished, Some(Err(error)));
    }
}

#[test]
fn unknown_previous_commit_does_not_stop_the_update() {
    let outcomes = vec![ok("v"), ok(""), failed("git", "no HEAD"), ok("f"), ok("new"), ok("p"), ok("i"), ok("b"), failed("git", "gone")];
    let run = replay_update("main".to_string(), &outcomes);
    let result = run.finished.unwrap().unwrap();
    assert_eq!(result.status, UpdateStatus::Updated);
    assert_eq!(result.previous_commit, None);
    assert_eq!(result.current_commit, None);
    assert_eq!(result.output, Some("f\np\ni\nb".to_string()));
    assert_eq!(run.commands.len(), 9);
}

#[test]
fn update_without_outcomes_has_only_asked_for_the_first_tool() {
    let run = replay_update("main".to_string(), &Vec::new());
    assert_eq!(run.finished, None);
    assert_eq!(run.commands, vec![call("git", &["--version"])]);
    let run = replay_update("main".to_string(), &vec![ok("v"), ok("")]);
    assert_eq!(run.finished, None);
    assert_eq!(run.commands.len(), 3);
}

#[test]
fn steps_can_be_driven_one_by_one() {
    let state = start_update("main".to_string());
    assert_eq!(state.phase, UpdatePhase::VerifyTool);
    assert_eq!(next_command(&state), call("git", &["--version"]));
    let state = match advance(state, ok("git version 2")) {
        UpdateStep::Run(s) => s,
        other => panic!("unexpected {:?}", other),
    };
    assert_eq!(state.phase, UpdatePhase::CheckTree);
    assert_eq!(state.branch, "main");
    match advance(state, ok(" M file")) {
        UpdateStep::Done(Ok(result)) => assert_eq!(result.output, Some(" M file".to_string())),
        other => panic!("unexpected {:?}", other),
    }
}

#[test]
fn command_result_trims_the_output_of_a_success() {
    let outcome = CommandOutcome { success: true, stdout: "  abc123\n".to_string(), stderr: "warning".to_string() };
    assert_eq!(command_result("git", Ok(outcome)), Ok("abc123".to_string()));
}

#[test]
fn command_result_reports_a_failed_process() {
    let outcome = CommandOutcome { success: false, stdout: "partial".to_string(), stderr: "fatal: bad\n".to_string() };
    let error = command_result("git", Ok(outcome)).unwrap_err();
    assert_eq!(error, CommandError::CommandFailed { program: "git".to_string(), stderr: "fatal: bad\n".to_string() });
    assert_eq!(error.message(), "git failed: fatal: bad\n");
}

#[test]
fn command_result_reports_a_failed_start() {
    let error = command_result("npm", Err("No such file or directory (os error 2)".to_string())).unwrap_err();
    assert_eq!(
        error,
        CommandError::SpawnFailed { program: "npm".to_string(), cause: "No such file or directory (os error 2)".to_string() }
    );
    assert_eq!(error.message(), "Failed to run npm: No such file or directory (os error 2)");
}

fn candidate(path: &str, has_marker: bool) -> Candidate {
    Candidate { path: path.to_string(), has_marker }
}

#[test]
fn repo_root_is_the_first_ancestor_with_the_marker() {
    let ancestors = vec![candidate("/a/b/c", false), candidate("/a/b", true), candidate("/a", true), candidate("/", false)];
    assert_eq!(find_repo_root(&ancestors), Ok("/a/b".to_string()));
    let ancestors = vec![candidate("/a/b/c", true), candidate("/a/b", true)];
    assert_eq!(find_repo_root(&ancestors), Ok("/a/b/c".to_string()));
    let ancestors = vec![candidate("/a", false), candidate("/", true)];
    assert_eq!(find_repo_root(&ancestors), Ok("/".to_string()));
}

#[test]
fn repo_root_is_not_found_without_a_marker() {
    let ancestors = vec![candidate("/a/b", false), candidate("/a", false), candidate("/", false)];
    assert_eq!(find_repo_root(&ancestors), Err(NotFound));
    assert_eq!(find_repo_root(&Vec::new()), Err(NotFound));
    assert_eq!(NotFound.message(), "Git repository not found. Run the desktop app from a git clone.");
}

use gi::command::commit::CommitFlow;
use gi::flow::{Action, Event, Prompt};
use gi::{Commit, GiError};

#[test]
fn normalize_message_keeps_non_empty_message() {
    assert_eq!(
        Commit::normalize_message("commit message".to_string()),
        Some("commit message".to_string())
    );
}

#[test]
fn normalize_message_rejects_blank_message() {
    assert_eq!(Commit::normalize_message("   ".to_string()), None);
}

#[test]
fn normalize_message_rejects_empty_and_unicode_blank_message() {
    assert_eq!(Commit::normalize_message(String::new()), None);
    assert_eq!(Commit::normalize_message("\t\n\u{3000}\u{00A0}".to_string()), None);
    assert_eq!(Commit::normalize_message(" x ".to_string()), Some(" x ".to_string()));
}

#[test]
fn hook_runs_and_missing_hooks() {
    assert_eq!(Commit::hook_args("pre-commit"), words(&["hook", "run", "pre-commit"]));
    assert_eq!(Commit::hook_result("pre-commit", "", true), Ok(()));
    assert_eq!(Commit::hook_result("pre-commit", "error: cannot find a hook named pre-commit\n", false), Ok(()));
    assert_eq!(
        Commit::hook_result("pre-commit", "error: cannot find a hook named post-commit", false),
        Err(GiError::Other("pre-commit hook failed:\nerror: cannot find a hook named post-commit".to_string()))
    );
}

#[test]
fn hook_result_failing_hook_is_an_error_whatever_it_prints() {
    assert_eq!(
        Commit::hook_result("pre-commit", "lint: command not found\n", false),
        Err(GiError::Other("pre-commit hook failed:\nlint: command not found".to_string()))
    );
    assert_eq!(
        Commit::hook_result("pre-commit", "error: cannot find config", false),
        Err(GiError::Other("pre-commit hook failed:\nerror: cannot find config".to_string()))
    );
}

#[test]
fn hook_result_failed_hook_reports_trimmed_output() {
    assert_eq!(
        Commit::hook_result("pre-commit", "  lint failed\n", false),
        Err(GiError::Other("pre-commit hook failed:\nlint failed".to_string()))
    );
    assert_eq!(Commit::hook_result("pre-commit", "warnings", true), Ok(()));
}

fn words(ws: &[&str]) -> Vec<String> {
    ws.iter().map(|w| w.to_string()).collect()
}

fn run(mut flow: CommitFlow, replies: Vec<Event>) -> Vec<Action> {
    let mut actions = Vec::new();
    let mut replies = replies.into_iter();
    let mut event = Event::Start;
    loop {
        assert!(flow.accepts(&event));
        let (next, action) = flow.step(event);
        flow = next;
        let finished = matches!(action, Action::Finish(_));
        actions.push(action);
        if finished {
            return actions;
        }
        event = replies.next().expect("a reply");
    }
}

#[test]
fn commit_without_staged_changes_does_nothing() {
    let actions = run(Commit::start(None), vec![Event::Answer(false), Event::Done]);
    assert_eq!(
        actions,
        vec![
            Action::CheckStaged,
            Action::Print { line: "No staged changes to commit".to_string() },
            Action::Finish(Ok(())),
        ]
    );
}

#[test]
fn commit_with_typed_message_runs_hooks_and_commits() {
    let actions = run(
        Commit::start(None),
        vec![
            Event::Answer(true),
            Event::Chosen("fix bug".to_string()),
            Event::HookExited { success: false, stderr: "error: cannot find a hook named pre-commit".to_string() },
            Event::Done,
            Event::Failed(GiError::Other("spawn failed".to_string())),
            Event::Done,
        ],
    );
    assert_eq!(
        actions,
        vec![
            Action::CheckStaged,
            Action::Ask(Prompt::Text {
                message: "Commit message:".to_string(),
                help: Some("Enter a descriptive commit message".to_string()),
            }),
            Action::RunHook { args: words(&["hook", "run", "pre-commit"]) },
            Action::CreateCommit { message: "fix bug".to_string() },
            Action::RunHook { args: words(&["hook", "run", "post-commit"]) },
            Action::Print { line: "Committed: fix bug".to_string() },
            Action::Finish(Ok(())),
        ]
    );
}

#[test]
fn commit_with_blank_message_aborts() {
    let actions = run(Commit::start(Some("  ".to_string())), vec![Event::Answer(true), Event::Done]);
    assert_eq!(
        actions,
        vec![
            Action::CheckStaged,
            Action::Print { line: "Aborting commit due to empty commit message".to_string() },
            Action::Finish(Ok(())),
        ]
    );
}

#[test]
fn commit_stops_when_pre_commit_hook_fails() {
    let actions = run(
        Commit::start(Some("msg".to_string())),
        vec![Event::Answer(true), Event::HookExited { success: false, stderr: "bad\n".to_string() }],
    );
    assert_eq!(
        actions.last(),
        Some(&Action::Finish(Err(GiError::Other("pre-commit hook failed:\nbad".to_string()))))
    );
    assert!(!actions.iter().any(|a| matches!(a, Action::CreateCommit { .. })));
}

#[test]
fn commit_prompt_cancel_is_passed_on() {
    let actions = run(Commit::start(None), vec![Event::Answer(true), Event::Failed(GiError::Cancelled)]);
    assert_eq!(actions.last(), Some(&Action::Finish(Err(GiError::Cancelled))));
}

#[test]
fn commit_stops_when_pre_commit_hook_fails_saying_not_found() {
    let actions = run(
        Commit::start(Some("msg".to_string())),
        vec![Event::Answer(true), Event::HookExited { success: false, stderr: "lint: command not found".to_string() }],
    );
    assert_eq!(
        actions.last(),
        Some(&Action::Finish(Err(GiError::Other("pre-commit hook failed:\nlint: command not found".to_string()))))
    );
    assert!(!actions.iter().any(|a| matches!(a, Action::CreateCommit { .. })));
}

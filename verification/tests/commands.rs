use gi::command::add::AddFlow;
use gi::command::delete::DeleteFlow;
use gi::command::fetch::FetchFlow;
use gi::command::merge::MergeFlow;
use gi::command::push::PushFlow;
use gi::command::switch::SwitchFlow;
use gi::flow::{Action, Event, Prompt};
use gi::{Add, Delete, Fetch, GiError, Merge, MergeOptions, Push, PushOptions, Switch};

fn words(ws: &[&str]) -> Vec<String> {
    ws.iter().map(|w| w.to_string()).collect()
}

fn run_add(mut flow: AddFlow, replies: Vec<Event>) -> Vec<Action> {
    let mut actions = Vec::new();
    let mut replies = replies.into_iter();
    let mut event = Event::Start;
    loop {
        assert!(flow.accepts(&event));
        let (next, action) = flow.step(event);
        flow = next;
        let finished = matches!(action, Action::Finish(_));
        actions.push(action);
        if finished {
            return actions;
        }
        event = replies.next().expect("a reply");
    }
}

fn run_delete(mut flow: DeleteFlow, replies: Vec<Event>) -> Vec<Action> {
    let mut actions = Vec::new();
    let mut replies = replies.into_iter();
    let mut event = Event::Start;
    loop {
        assert!(flow.accepts(&event));
        let (next, action) = flow.step(event);
        flow = next;
        let finished = matches!(action, Action::Finish(_));
        actions.push(action);
        if finished {
            return actions;
        }
        event = replies.next().expect("a reply");
    }
}

fn run_switch(mut flow: SwitchFlow, replies: Vec<Event>) -> Vec<Action> {
    let mut actions = Vec::new();
    let mut replies = replies.into_iter();
    let mut event = Event::Start;
    loop {
        assert!(flow.accepts(&event));
        let (next, action) = flow.step(event);
        flow = next;
        let finished = matches!(action, Action::Finish(_));
        actions.push(action);
        if finished {
            return actions;
        }
        event = replies.next().expect("a reply");
    }
}

fn run_fetch(mut flow: FetchFlow, replies: Vec<Event>) -> Vec<Action> {
    let mut actions = Vec::new();
    let mut replies = replies.into_iter();
    let mut event = Event::Start;
    loop {
        assert!(flow.accepts(&event));
        let (next, action) = flow.step(event);
        flow = next;
        let finished = matches!(action, Action::Finish(_));
        actions.push(action);
        if finished {
            return actions;
        }
        event = replies.next().expect("a reply");
    }
}

fn run_merge(mut flow: MergeFlow, replies: Vec<Event>) -> Vec<Action> {
    let mut actions = Vec::new();
    let mut replies = replies.into_iter();
    let mut event = Event::Start;
    loop {
        assert!(flow.accepts(&event));
        let (next, action) = flow.step(event);
        flow = next;
        let finished = matches!(action, Action::Finish(_));
        actions.push(action);
        if finished {
            return actions;
        }
        event = replies.next().expect("a reply");
    }
}

fn run_push(mut flow: PushFlow, replies: Vec<Event>) -> Vec<Action> {
    let mut actions = Vec::new();
    let mut replies = replies.into_iter();
    let mut event = Event::Start;
    loop {
        assert!(flow.accepts(&event));
        let (next, action) = flow.step(event);
        flow = next;
        let finished = matches!(action, Action::Finish(_));
        actions.push(action);
        if finished {
            return actions;
        }
        event = replies.next().expect("a reply");
    }
}


#[test]
fn add_without_files_reports_it() {
    let actions = run_add(Add::start(), vec![Event::Items(vec![]), Event::Done]);
    assert_eq!(
        actions,
        vec![
            Action::ListUnstaged,
            Action::Print { line: "No files to add".to_string() },
            Action::Finish(Ok(())),
        ]
    );
}

#[test]
fn add_stages_the_chosen_files() {
    let actions = run_add(
        Add::start(),
        vec![Event::Items(words(&["a.rs", "b.rs", "c.rs"])), Event::Items(words(&["a.rs", "c.rs"])), Event::Done, Event::Done],
    );
    assert_eq!(
        actions,
        vec![
            Action::ListUnstaged,
            Action::Ask(Prompt::MultiSelect { message: "Select files to add".to_string(), options: words(&["a.rs", "b.rs", "c.rs"]) }),
            Action::Stage { paths: words(&["a.rs", "c.rs"]) },
            Action::Print { line: "Added 2 file(s) to stage".to_string() },
            Action::Finish(Ok(())),
        ]
    );
}

#[test]
fn add_with_nothing_chosen_is_an_error() {
    let actions = run_add(Add::start(), vec![Event::Items(words(&["a.rs"])), Event::Items(vec![])]);
    assert_eq!(actions.last(), Some(&Action::Finish(Err(GiError::Empty { context: "No files selected" }))));
}

#[test]
fn add_counts_in_decimal() {
    let many: Vec<String> = (0..12).map(|i| format!("f{}", i)).collect();
    let actions = run_add(Add::start(), vec![Event::Items(many.clone()), Event::Items(many), Event::Done, Event::Done]);
    assert_eq!(actions[3], Action::Print { line: "Added 12 file(s) to stage".to_string() });
}

#[test]
fn add_failure_of_listing_ends_command() {
    let actions = run_add(Add::start(), vec![Event::Failed(GiError::Other("boom".to_string()))]);
    assert_eq!(actions.last(), Some(&Action::Finish(Err(GiError::Other("boom".to_string())))));
}

#[test]
fn delete_without_branches_is_an_error() {
    let actions = run_delete(Delete::start(), vec![Event::Items(vec![])]);
    assert_eq!(
        actions,
        vec![
            Action::ListBranches { include_remote: false },
            Action::Finish(Err(GiError::Empty { context: "No branches to delete" })),
        ]
    );
}

#[test]
fn delete_deletes_each_chosen_branch_in_order() {
    let actions = run_delete(
        Delete::start(),
        vec![
            Event::Items(words(&["main", "feat", "old"])),
            Event::Items(words(&["feat", "old"])),
            Event::Done,
            Event::Done,
            Event::Done,
            Event::Done,
        ],
    );
    assert_eq!(
        actions,
        vec![
            Action::ListBranches { include_remote: false },
            Action::Ask(Prompt::MultiSelect { message: "Select branches to delete".to_string(), options: words(&["main", "feat", "old"]) }),
            Action::DeleteBranch { name: "feat".to_string() },
            Action::Print { line: "Deleted branch: feat".to_string() },
            Action::DeleteBranch { name: "old".to_string() },
            Action::Print { line: "Deleted branch: old".to_string() },
            Action::Finish(Ok(())),
        ]
    );
}

#[test]
fn delete_stops_at_first_failure() {
    let actions = run_delete(
        Delete::start(),
        vec![Event::Items(words(&["a", "b"])), Event::Items(words(&["a", "b"])), Event::Failed(GiError::Other("locked".to_string()))],
    );
    assert_eq!(actions.len(), 4);
    assert_eq!(actions[3], Action::Finish(Err(GiError::Other("locked".to_string()))));
}

#[test]
fn delete_with_nothing_chosen_succeeds() {
    let actions = run_delete(Delete::start(), vec![Event::Items(words(&["a"])), Event::Items(vec![])]);
    assert_eq!(actions.last(), Some(&Action::Finish(Ok(()))));
}

#[test]
fn switch_switches_to_the_chosen_branch() {
    let actions = run_switch(
        Switch::start(),
        vec![Event::Items(words(&["feat/mv", "main", "origin/main"])), Event::Chosen("main".to_string()), Event::Done, Event::Done],
    );
    assert_eq!(
        actions,
        vec![
            Action::ListBranches { include_remote: true },
            Action::Ask(Prompt::Select {
                message: "Select a branch to switch to".to_string(),
                options: words(&["feat/mv", "main", "origin/main"]),
            }),
            Action::SwitchTo { branch: "main".to_string() },
            Action::Print { line: "Switched to branch: main".to_string() },
            Action::Finish(Ok(())),
        ]
    );
}

#[test]
fn switch_without_branches_is_an_error() {
    let actions = run_switch(Switch::start(), vec![Event::Items(vec![])]);
    assert_eq!(actions.last(), Some(&Action::Finish(Err(GiError::Empty { context: "No branches available" }))));
}

#[test]
fn fetch_runs_fetch_all_prune() {
    let actions = run_fetch(Fetch::start(), vec![Event::GitExited { success: true, code: Some(0) }]);
    assert_eq!(
        actions,
        vec![Action::RunGit { args: words(&["fetch", "--all", "--prune"]) }, Action::Finish(Ok(()))]
    );
}

#[test]
fn fetch_failure_reports_exit_code() {
    let actions = run_fetch(Fetch::start(), vec![Event::GitExited { success: false, code: Some(128) }]);
    assert_eq!(
        actions.last(),
        Some(&Action::Finish(Err(GiError::Other("git fetch failed (exit code: Some(128))".to_string()))))
    );
    let actions = run_fetch(Fetch::start(), vec![Event::GitExited { success: false, code: None }]);
    assert_eq!(
        actions.last(),
        Some(&Action::Finish(Err(GiError::Other("git fetch failed (exit code: None)".to_string()))))
    );
    let actions = run_fetch(Fetch::start(), vec![Event::GitExited { success: false, code: Some(-3) }]);
    assert_eq!(
        actions.last(),
        Some(&Action::Finish(Err(GiError::Other("git fetch failed (exit code: Some(-3))".to_string()))))
    );
}

#[test]
fn merge_offers_other_branches_and_merges_local_one() {
    let actions = run_merge(
        Merge::start(MergeOptions { no_ff: true, squash: false }),
        vec![
            Event::Head(Some("main".to_string())),
            Event::Answer(false),
            Event::Items(words(&["feat", "main", "origin/main"])),
            Event::Chosen("feat".to_string()),
            Event::GitExited { success: true, code: Some(0) },
        ],
    );
    assert_eq!(
        actions,
        vec![
            Action::ReadHead,
            Action::CheckMergeInProgress,
            Action::ListBranches { include_remote: true },
            Action::Ask(Prompt::Select {
                message: "Select branch to merge into 'main'".to_string(),
                options: words(&["feat", "origin/main"]),
            }),
            Action::RunGit { args: words(&["merge", "--no-ff", "feat"]) },
            Action::Finish(Ok(())),
        ]
    );
}

#[test]
fn merge_fetches_remote_branch_first_and_squashes() {
    let actions = run_merge(
        Merge::start(MergeOptions { no_ff: false, squash: true }),
        vec![
            Event::Head(Some("main".to_string())),
            Event::Answer(false),
            Event::Items(words(&["main", "origin/feat/x"])),
            Event::Chosen("origin/feat/x".to_string()),
            Event::Done,
            Event::GitExited { success: true, code: Some(0) },
            Event::GitExited { success: true, code: Some(0) },
            Event::Done,
            Event::Done,
        ],
    );
    assert_eq!(
        &actions[4..],
        vec![
            Action::Print { line: "Fetching 'origin/feat/x'...".to_string() },
            Action::RunGit { args: words(&["fetch", "origin", "feat/x"]) },
            Action::RunGit { args: words(&["merge", "--squash", "origin/feat/x"]) },
            Action::Print { line: "Squash merge completed. Changes are staged but not committed.".to_string() },
            Action::Print { line: "Run 'gi c' to commit.".to_string() },
            Action::Finish(Ok(())),
        ]
    );
}

#[test]
fn merge_failure_names_the_git_command() {
    let actions = run_merge(
        Merge::start(MergeOptions::default()),
        vec![
            Event::Head(Some("main".to_string())),
            Event::Answer(false),
            Event::Items(words(&["feat", "main"])),
            Event::Chosen("feat".to_string()),
            Event::GitExited { success: false, code: Some(1) },
        ],
    );
    assert_eq!(
        actions.last(),
        Some(&Action::Finish(Err(GiError::Other("git merge feat failed (exit code: Some(1))".to_string()))))
    );
}

#[test]
fn merge_in_progress_can_be_aborted_or_continued() {
    let abort = run_merge(
        Merge::start(MergeOptions::default()),
        vec![
            Event::Head(Some("main".to_string())),
            Event::Answer(true),
            Event::Chosen("Abort merge".to_string()),
            Event::GitExited { success: true, code: Some(0) },
        ],
    );
    assert_eq!(
        &abort[2..],
        vec![
            Action::Ask(Prompt::Select {
                message: "Merge in progress. What do you want to do?".to_string(),
                options: words(&["Continue (commit)", "Abort merge"]),
            }),
            Action::RunGit { args: words(&["merge", "--abort"]) },
            Action::Finish(Ok(())),
        ]
    );
    let resume = run_merge(
        Merge::start(MergeOptions::default()),
        vec![
            Event::Head(Some("main".to_string())),
            Event::Answer(true),
            Event::Chosen("Continue (commit)".to_string()),
            Event::GitExited { success: false, code: Some(1) },
        ],
    );
    assert_eq!(resume[3], Action::RunGit { args: words(&["commit", "--no-edit"]) });
    assert_eq!(
        resume[4],
        Action::Finish(Err(GiError::Other("git commit --no-edit failed (exit code: Some(1))".to_string())))
    );
}

#[test]
fn merge_on_detached_head_is_an_error() {
    let actions = run_merge(Merge::start(MergeOptions::default()), vec![Event::Head(None)]);
    assert_eq!(actions.last(), Some(&Action::Finish(Err(GiError::Other("HEAD is not a branch".to_string())))));
}

#[test]
fn merge_with_only_current_branch_is_an_error() {
    let actions = run_merge(
        Merge::start(MergeOptions::default()),
        vec![Event::Head(Some("main".to_string())), Event::Answer(false), Event::Items(words(&["main"]))],
    );
    assert_eq!(actions.last(), Some(&Action::Finish(Err(GiError::Empty { context: "No branches to merge" }))));
}

#[test]
fn merge_candidates_and_args() {
    assert_eq!(Merge::candidates(words(&["a", "main", "b", "main"]), &"main".to_string()), words(&["a", "b"]));
    assert_eq!(
        Merge::merge_args(MergeOptions { no_ff: true, squash: true }, "x"),
        words(&["merge", "--no-ff", "--squash", "x"])
    );
    assert_eq!(Merge::merge_args(MergeOptions::default(), "x"), words(&["merge", "x"]));
}

#[test]
fn push_with_upstream_pushes_plainly() {
    let actions = run_push(
        Push::start(PushOptions::default()),
        vec![Event::Head(Some("main".to_string())), Event::Answer(true), Event::GitExited { success: true, code: Some(0) }],
    );
    assert_eq!(
        actions,
        vec![
            Action::ReadHead,
            Action::CheckUpstream { branch: "main".to_string() },
            Action::RunGit { args: words(&["push"]) },
            Action::Finish(Ok(())),
        ]
    );
}

#[test]
fn push_forced_without_upstream_asks_twice() {
    let actions = run_push(
        Push::start(PushOptions { force: true }),
        vec![
            Event::Head(Some("feat".to_string())),
            Event::Answer(false),
            Event::Chosen("Yes".to_string()),
            Event::Chosen("Yes".to_string()),
            Event::GitExited { success: false, code: Some(1) },
        ],
    );
    assert_eq!(
        &actions[2..],
        vec![
            Action::Ask(Prompt::Select {
                message: "Force push 'feat'? This may overwrite remote changes.".to_string(),
                options: words(&["Yes", "No"]),
            }),
            Action::Ask(Prompt::Select {
                message: "No upstream set. Push and set upstream to 'origin/feat'?".to_string(),
                options: words(&["Yes", "No"]),
            }),
            Action::RunGit {
                args: words(&["push", "--force-with-lease", "--force-if-includes", "-u", "origin", "feat"]),
            },
            Action::Finish(Err(GiError::Other("git push failed (exit code: Some(1))".to_string()))),
        ]
    );
}

#[test]
fn push_refused_is_cancelled() {
    let actions = run_push(
        Push::start(PushOptions { force: true }),
        vec![Event::Head(Some("feat".to_string())), Event::Answer(true), Event::Chosen("No".to_string()), Event::Done],
    );
    assert_eq!(
        &actions[3..],
        vec![Action::Print { line: "Push cancelled".to_string() }, Action::Finish(Ok(()))]
    );
    let actions = run_push(
        Push::start(PushOptions::default()),
        vec![Event::Head(Some("feat".to_string())), Event::Answer(false), Event::Chosen("No".to_string()), Event::Done],
    );
    assert!(!actions.iter().any(|a| matches!(a, Action::RunGit { .. })));
}

#[test]
fn options_default_to_off() {
    assert_eq!(MergeOptions::default(), MergeOptions { no_ff: false, squash: false });
    assert_eq!(PushOptions::default(), PushOptions { force: false });
}

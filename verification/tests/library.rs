use gi::command::branch::get_branch_names_from_repository;
use gi::command::repo_utils::{get_repo_root_recursive, RootSearch};
use gi::flow::{counted, framed, git_result, owned_words, Action, Event};
use gi::repo::{branch_names, sort_texts, text_leq, unstaged_files, Discovery, StatusEntry};
use gi::text::{blank, is_whitespace, join_words, push_decimal, push_signed_decimal, split_once, trim};
use gi::{required_text, GiError, PromptFailure};

fn words(ws: &[&str]) -> Vec<String> {
    ws.iter().map(|w| w.to_string()).collect()
}

#[test]
fn trim_drops_unicode_white_space_at_both_ends() {
    assert_eq!(trim("  lint failed\n"), "lint failed");
    assert_eq!(trim("\u{3000}a b\t"), "a b");
    assert_eq!(trim(" \n\t "), "");
    assert_eq!(trim("x"), "x");
}

#[test]
fn blank_and_whitespace() {
    assert!(blank(""));
    assert!(blank(" \u{00A0}\u{2028}\r\n"));
    assert!(!blank(" a "));
    assert!(is_whitespace(' '));
    assert!(is_whitespace('\u{0085}'));
    assert!(!is_whitespace('x'));
    assert!(!is_whitespace('\u{200B}'));
}

#[test]
fn split_once_splits_at_first_occurrence() {
    assert_eq!(split_once("origin/feat/x", '/'), Some(("origin".to_string(), "feat/x".to_string())));
    assert_eq!(split_once("/a", '/'), Some((String::new(), "a".to_string())));
    assert_eq!(split_once("main", '/'), None);
}

#[test]
fn decimals_are_written_as_display_does() {
    let mut s = String::from("n=");
    push_decimal(&mut s, 0);
    assert_eq!(s, "n=0");
    let mut s = String::new();
    push_decimal(&mut s, 18446744073709551615);
    assert_eq!(s, "18446744073709551615");
    let mut s = String::new();
    push_signed_decimal(&mut s, -2147483648);
    assert_eq!(s, "-2147483648");
    let mut s = String::new();
    push_signed_decimal(&mut s, 42);
    assert_eq!(s, "42");
}

#[test]
fn join_words_separates_with_spaces() {
    assert_eq!(join_words(&words(&["merge", "--no-ff", "x"])), "merge --no-ff x");
    assert_eq!(join_words(&words(&["push"])), "push");
    assert_eq!(join_words(&vec![]), "");
}

#[test]
fn text_helpers() {
    assert_eq!(framed("Deleted branch: ", "feat", ""), "Deleted branch: feat");
    assert_eq!(counted("Added ", 3, " file(s) to stage"), "Added 3 file(s) to stage");
    assert_eq!(owned_words(&["a", "b"]), words(&["a", "b"]));
}

#[test]
fn texts_are_sorted_as_strings_are() {
    assert!(text_leq("a", "ab"));
    assert!(text_leq("B", "a"));
    assert!(!text_leq("b", "ab"));
    assert!(text_leq("", ""));
    let mut expected = words(&["b", "a", "B", "ab", "a", "\u{e9}", "z"]);
    expected.sort();
    assert_eq!(sort_texts(words(&["b", "a", "B", "ab", "a", "\u{e9}", "z"])), expected);
    assert_eq!(sort_texts(vec![]), Vec::<String>::new());
}

#[test]
fn unstaged_files_are_modified_and_untracked_sorted() {
    let modified = vec![Some("z.rs".to_string()), None, Some("a.rs".to_string())];
    let statuses = vec![
        StatusEntry { path: Some("new.txt".to_string()), untracked: true },
        StatusEntry { path: Some("mod.rs".to_string()), untracked: false },
        StatusEntry { path: None, untracked: true },
    ];
    assert_eq!(unstaged_files(modified, statuses), words(&["a.rs", "new.txt", "z.rs"]));
    assert_eq!(unstaged_files(vec![], vec![]), Vec::<String>::new());
}

#[test]
fn branch_names_skip_unreadable_entries() {
    let entries = vec![
        Ok(Some("main".to_string())),
        Ok(None),
        Err(git2::Error::from_str("bad ref")),
        Ok(Some("dev".to_string())),
    ];
    assert_eq!(branch_names(entries), words(&["main", "dev"]));
}

#[test]
fn branch_listing_stops_at_first_error() {
    let entries = vec![
        Ok(Some("main".to_string())),
        Err(git2::Error::from_str("first")),
        Err(git2::Error::from_str("second")),
    ];
    assert_eq!(get_branch_names_from_repository(entries), Err(git2::Error::from_str("first")));
    let entries = vec![Ok(Some("main".to_string())), Ok(None), Ok(Some("dev".to_string()))];
    assert_eq!(get_branch_names_from_repository(entries), Ok(words(&["main", "dev"])));
}

fn run_discovery(mut d: Discovery, replies: Vec<Event>) -> Vec<Action> {
    let mut actions = Vec::new();
    let mut replies = replies.into_iter();
    let mut event = Event::Start;
    loop {
        assert!(d.accepts(&event));
        let (next, action) = d.step(event);
        d = next;
        let finished = matches!(action, Action::Finish(_));
        actions.push(action);
        if finished {
            return actions;
        }
        event = replies.next().expect("a reply");
    }
}

fn run_root_search(mut d: RootSearch, replies: Vec<Event>) -> Vec<Action> {
    let mut actions = Vec::new();
    let mut replies = replies.into_iter();
    let mut event = Event::Start;
    loop {
        assert!(d.accepts(&event));
        let (next, action) = d.step(event);
        d = next;
        let finished = matches!(action, Action::Finish(_));
        actions.push(action);
        if finished {
            return actions;
        }
        event = replies.next().expect("a reply");
    }
}

#[test]
fn discovery_opens_the_first_repository_found() {
    let actions = run_discovery(
        Discovery::start(5),
        vec![Event::Done, Event::Answer(false), Event::Answer(true), Event::Answer(true)],
    );
    assert_eq!(
        actions,
        vec![
            Action::ReadWorkingDir,
            Action::OpenRepository,
            Action::MoveToParent,
            Action::OpenRepository,
            Action::Finish(Ok(())),
        ]
    );
}

#[test]
fn discovery_tries_current_directory_and_max_depth_parents() {
    let mut replies = vec![Event::Done];
    for _ in 0..3 {
        replies.push(Event::Answer(false));
        replies.push(Event::Answer(true));
    }
    replies.push(Event::Answer(false));
    let actions = run_discovery(Discovery::start(3), replies);
    assert_eq!(actions.iter().filter(|a| **a == Action::OpenRepository).count(), 4);
    assert_eq!(actions.iter().filter(|a| **a == Action::MoveToParent).count(), 3);
    assert_eq!(actions.last(), Some(&Action::Finish(Err(GiError::NotARepository { depth: 3 }))));
}

#[test]
fn discovery_finds_repository_three_levels_up_with_depth_three() {
    let replies = vec![
        Event::Done,
        Event::Answer(false),
        Event::Answer(true),
        Event::Answer(false),
        Event::Answer(true),
        Event::Answer(false),
        Event::Answer(true),
        Event::Answer(true),
    ];
    let actions = run_discovery(Discovery::start(3), replies);
    assert_eq!(actions.last(), Some(&Action::Finish(Ok(()))));
}

#[test]
fn discovery_stops_at_the_filesystem_root() {
    let actions = run_discovery(Discovery::start(5), vec![Event::Done, Event::Answer(false), Event::Answer(false)]);
    assert_eq!(actions.last(), Some(&Action::Finish(Err(GiError::NotARepository { depth: 5 }))));
    let actions = run_discovery(Discovery::start(2), vec![Event::Failed(GiError::Other("no cwd".to_string()))]);
    assert_eq!(actions.last(), Some(&Action::Finish(Err(GiError::Other("no cwd".to_string())))));
}

#[test]
fn discovery_at_depth_zero_tries_the_current_directory() {
    let actions = run_discovery(Discovery::start(0), vec![Event::Done, Event::Answer(true)]);
    assert_eq!(actions, vec![Action::ReadWorkingDir, Action::OpenRepository, Action::Finish(Ok(()))]);
    let actions = run_discovery(Discovery::start(0), vec![Event::Done, Event::Answer(false)]);
    assert_eq!(actions.last(), Some(&Action::Finish(Err(GiError::NotARepository { depth: 0 }))));
    assert!(!actions.contains(&Action::MoveToParent));
}

#[test]
fn test_discover_repository() {
    let actions = run_discovery(Discovery::start(5), vec![Event::Done, Event::Answer(true)]);
    assert_eq!(actions.last(), Some(&Action::Finish(Ok(()))));
}

#[test]
fn test_branch_names() {
    let entries = vec![Ok(Some("feat/mv".to_string())), Ok(Some("main".to_string()))];
    let branches = branch_names(entries);
    assert!(branches.contains(&"main".to_string()));
}

#[test]
fn test_get_branch_names_from_repository() {
    let entries = vec![
        Ok(Some("main".to_string())),
        Ok(Some("origin/main".to_string())),
        Ok(Some("feat/mv".to_string())),
    ];
    let branches = get_branch_names_from_repository(entries);
    assert!(branches.unwrap().contains(&"main".to_string()));
}

#[test]
fn root_search_at_depth_zero_is_an_error() {
    let actions = run_root_search(get_repo_root_recursive(0), vec![]);
    assert_eq!(
        actions,
        vec![Action::Finish(Err(GiError::Other("Seems like not a git repository".to_string())))]
    );
}

#[test]
fn root_search_reports_depth_searched() {
    let actions = run_root_search(
        get_repo_root_recursive(2),
        vec![Event::Done, Event::Answer(false), Event::Answer(true), Event::Answer(false), Event::Answer(true)],
    );
    assert_eq!(actions.iter().filter(|a| **a == Action::OpenRepository).count(), 2);
    assert_eq!(
        actions.last(),
        Some(&Action::Finish(Err(GiError::Other("No git repository found within 2 levels".to_string()))))
    );
    let found = run_root_search(get_repo_root_recursive(4), vec![Event::Done, Event::Answer(true)]);
    assert_eq!(found.last(), Some(&Action::Finish(Ok(()))));
}

#[test]
fn required_text_is_none_when_blank() {
    assert_eq!(required_text(Ok("fix: typo".to_string())), Ok(Some("fix: typo".to_string())));
    assert_eq!(required_text(Ok(" \t ".to_string())), Ok(None));
    assert_eq!(required_text(Err(GiError::Cancelled)), Err(GiError::Cancelled));
}

#[test]
fn prompt_failures_become_errors() {
    assert_eq!(GiError::from(PromptFailure::Canceled), GiError::Cancelled);
    assert_eq!(GiError::from(PromptFailure::Interrupted), GiError::Cancelled);
    assert_eq!(GiError::from(PromptFailure::Other("not a tty".to_string())), GiError::Other("not a tty".to_string()));
}

#[test]
fn git_results_name_the_command_and_exit_code() {
    assert_eq!(git_result("push", true, Some(1)), Ok(()));
    assert_eq!(git_result("push", false, Some(1)), Err(GiError::Other("git push failed (exit code: Some(1))".to_string())));
    assert_eq!(git_result("fetch", false, None), Err(GiError::Other("git fetch failed (exit code: None)".to_string())));
}

#[test]
fn deeper_searches_find_the_same_repository() {
    let replies = || vec![Event::Done, Event::Answer(false), Event::Answer(true), Event::Answer(true)];
    let shallow = run_discovery(Discovery::start(1), replies());
    let deep = run_discovery(Discovery::start(4), replies());
    assert_eq!(shallow, deep);
    assert_eq!(deep.last(), Some(&Action::Finish(Ok(()))));
    let root_replies = || vec![Event::Done, Event::Answer(false), Event::Answer(true), Event::Answer(true)];
    assert_eq!(run_root_search(get_repo_root_recursive(2), root_replies()).last(), Some(&Action::Finish(Ok(()))));
    assert_eq!(run_root_search(get_repo_root_recursive(7), root_replies()).last(), Some(&Action::Finish(Ok(()))));
}

#[test]
fn missing_signature_asks_for_configuration() {
    assert_eq!(gi::repo::signature_result(Ok::<u8, git2::Error>(7)), Ok(7));
    assert_eq!(
        gi::repo::signature_result(Err::<u8, git2::Error>(git2::Error::from_str("config value 'user.name' was not found"))),
        Err(GiError::Other("Failed to get signature. Please configure user.name and user.email".to_string()))
    );
}

#[test]
fn contains_finds_substrings() {
    assert!(gi::text::contains("error: cannot find a hook named pre-commit", "cannot find a hook"));
    assert!(gi::text::contains("abc", ""));
    assert!(!gi::text::contains("hook failed", "not found"));
    assert!(!gi::text::contains("ab", "abc"));
}

use crate::error::GiError;
use crate::flow::{before_in_progress, fails_with, prints, Action, Event, Prompt};
use crate::flow::{framed, owned_words};
use crate::text::{blank, contains, has_substring, lemma_trimmed_empty_iff_blank, trim, trimmed};
use vstd::prelude::*;
use vstd::string::*;

verus! {

/// Commit staged changes.
#[derive(Debug, PartialEq)]
pub struct Commit;

/// The arguments of the `git` run of the hook.
pub open spec fn hook_args(name: Seq<char>) -> Seq<Seq<char>> {
    seq!["hook"@, "run"@, name]
}

/// What `git hook run` writes to its error output when there is no hook of that name.
pub open spec fn missing_hook_text(name: Seq<char>) -> Seq<char> {
    "cannot find a hook named "@ + name
}

/// The error output of the hook run says that `git` found no hook of that name.
pub open spec fn hook_not_found(stderr: Seq<char>, name: Seq<char>) -> bool {
    has_substring(stderr, missing_hook_text(name))
}

/// The message of a hook that failed.
pub open spec fn hook_failure_text(name: Seq<char>, stderr: Seq<char>) -> Seq<char> {
    name + " hook failed:\n"@ + trimmed(stderr)
}

/// `r` is the result of a hook run: a missing hook and a hook that succeeded are fine, a hook
/// that failed is an error with its trimmed error output.
pub open spec fn is_hook_result(
    r: Result<(), GiError>,
    name: Seq<char>,
    stderr: Seq<char>,
    success: bool,
) -> bool {
    if success || hook_not_found(stderr, name) {
        r is Ok
    } else {
        r matches Err(GiError::Other(m)) && m@ == hook_failure_text(name, stderr)
    }
}

/// A commit message that is kept: a blank one is dropped.
pub open spec fn kept_message(message: String) -> Option<String> {
    if trimmed(message@).len() == 0 {
        None
    } else {
        Some(message)
    }
}

impl Commit {
    /// The message, or `None` when it holds whitespace only.
    pub fn normalize_message(message: String) -> (r: Option<String>)
        ensures
            r == kept_message(message),
    {
        proof {
            lemma_trimmed_empty_iff_blank(message@);
        }
        if blank(message.as_str()) {
            None
        } else {
            Some(message)
        }
    }

    /// The arguments of the `git` run of the hook `hook_name`.
    pub fn hook_args(hook_name: &str) -> (r: Vec<String>)
        ensures
            r.deep_view() == hook_args(hook_name@),
    {
        let r = owned_words(&["hook", "run", hook_name]);
        proof {
            let w: Seq<&str> = seq!["hook", "run", hook_name];
            assert(w.map_values(|x: &str| x@) =~= hook_args(hook_name@));
        }
        r
    }

    /// The result of running the hook `hook_name`, from whether the run succeeded and what it
    /// wrote to its error output: a hook that does not exist is fine.
    pub fn hook_result(hook_name: &str, stderr: &str, success: bool) -> (r: Result<(), GiError>)
        ensures
            is_hook_result(r, hook_name@, stderr@, success),
            success || has_substring(stderr@, "cannot find a hook named "@ + hook_name@) ==> r
                == Ok::<(), GiError>(()),
            !success && !has_substring(stderr@, "cannot find a hook named "@ + hook_name@) ==> {
                &&& r matches Err(GiError::Other(m))
                &&& m@ == hook_name@ + " hook failed:\n"@ + trimmed(stderr@)
            },
    {
        let missing = framed("cannot find a hook named ", hook_name, "");
        proof {
            reveal_strlit("");
        }
        assert(missing@ =~= missing_hook_text(hook_name@));
        if !success && !contains(stderr, missing.as_str()) {
            let mut m = String::new();
            m.append(hook_name);
            m.append(" hook failed:\n");
            let t = trim(stderr);
            m.append(t.as_str());
            assert(m@ =~= hook_failure_text(hook_name@, stderr@));
            return Err(GiError::Other(m));
        }
        Ok(())
    }

    /// The commit command, with the message given, or `None` to ask the user for one.
    pub fn start(message: Option<String>) -> (f: CommitFlow)
        ensures
            f == (CommitFlow::Begin { given: message }),
    {
        CommitFlow::Begin { given: message }
    }
}

/// Where the commit command stands.
#[derive(Debug, PartialEq)]
pub enum CommitFlow {
    /// `given` is the commit message given, if any.
    Begin { given: Option<String> },
    /// Waiting to know whether changes are staged.
    CheckingStaged { given: Option<String> },
    /// Waiting for the message that the user types.
    Asking,
    /// Waiting for the pre-commit hook.
    PreHook { message: String },
    /// Waiting for the commit to be made.
    Committing { message: String },
    /// Waiting for the post-commit hook.
    PostHook { message: String },
    /// Waiting for the last line to be printed.
    Closing,
    Done,
}

/// `a` runs the hook.
pub open spec fn runs_hook(a: Action, name: Seq<char>) -> bool {
    a matches Action::RunHook { args } && args.deep_view() == hook_args(name)
}

impl CommitFlow {
    /// The replies that the command waits for.
    pub open spec fn expects(self, e: Event) -> bool {
        match self {
            CommitFlow::Begin { .. } => e is Start,
            CommitFlow::CheckingStaged { .. } => e is Answer || e is Failed,
            CommitFlow::Asking => e is Chosen || e is Failed,
            CommitFlow::PreHook { .. } => e is HookExited || e is Failed,
            CommitFlow::Committing { .. } => e is Done || e is Failed,
            CommitFlow::PostHook { .. } => e is HookExited || e is Failed,
            CommitFlow::Closing => e is Done,
            CommitFlow::Done => false,
        }
    }

    /// What follows once the message is known: a blank one aborts the commit, a kept one
    /// goes to the pre-commit hook.
    pub open spec fn settles(message: String, next: CommitFlow, a: Action) -> bool {
        match kept_message(message) {
            Some(m) => next == (CommitFlow::PreHook { message: m }) && runs_hook(
                a,
                "pre-commit"@,
            ),
            None => next == CommitFlow::Closing && prints(
                a,
                "Aborting commit due to empty commit message"@,
            ),
        }
    }

    /// The step from `self` on the reply `e` leads to `next` and asks for `a`.
    pub open spec fn moves(self, e: Event, next: CommitFlow, a: Action) -> bool {
        match self {
            CommitFlow::Begin { given } => e is Start && next == (CommitFlow::CheckingStaged {
                given,
            }) && a == Action::CheckStaged,
            CommitFlow::CheckingStaged { given } => match e {
                Event::Answer(false) => next == CommitFlow::Closing && prints(
                    a,
                    "No staged changes to commit"@,
                ),
                Event::Answer(true) => match given {
                    Some(m) => Self::settles(m, next, a),
                    None => {
                        &&& next == CommitFlow::Asking
                        &&& a matches Action::Ask(Prompt::Text { message: q, help: Some(h) })
                        &&& q@ == "Commit message:"@
                        &&& h@ == "Enter a descriptive commit message"@
                    },
                },
                Event::Failed(err) => next == CommitFlow::Done && a == Action::Finish(Err(err)),
                _ => false,
            },
            CommitFlow::Asking => match e {
                Event::Chosen(text) => Self::settles(text, next, a),
                Event::Failed(err) => next == CommitFlow::Done && a == Action::Finish(Err(err)),
                _ => false,
            },
            CommitFlow::PreHook { message } => match e {
                Event::HookExited { success, stderr } => if success || hook_not_found(
                    stderr@,
                    "pre-commit"@,
                ) {
                    &&& next == (CommitFlow::Committing { message })
                    &&& a matches Action::CreateCommit { message: m }
                    &&& m@ == message@
                } else {
                    next == CommitFlow::Done && fails_with(
                        a,
                        hook_failure_text("pre-commit"@, stderr@),
                    )
                },
                Event::Failed(err) => next == CommitFlow::Done && a == Action::Finish(Err(err)),
                _ => false,
            },
            CommitFlow::Committing { message } => match e {
                Event::Done => next == (CommitFlow::PostHook { message }) && runs_hook(
                    a,
                    "post-commit"@,
                ),
                Event::Failed(err) => next == CommitFlow::Done && a == Action::Finish(Err(err)),
                _ => false,
            },
            CommitFlow::PostHook { message } => (e is HookExited || e is Failed) && next
                == CommitFlow::Closing && prints(a, "Committed: "@ + message@),
            CommitFlow::Closing => e is Done && next == CommitFlow::Done && a == Action::Finish(
                Ok(()),
            ),
            CommitFlow::Done => false,
        }
    }

    /// How far the command is from its end.
    pub open spec fn progress(self) -> (nat, nat) {
        match self {
            CommitFlow::Begin { .. } => (7, 0),
            CommitFlow::CheckingStaged { .. } => (6, 0),
            CommitFlow::Asking => (5, 0),
            CommitFlow::PreHook { .. } => (4, 0),
            CommitFlow::Committing { .. } => (3, 0),
            CommitFlow::PostHook { .. } => (2, 0),
            CommitFlow::Closing => (1, 0),
            CommitFlow::Done => (0, 0),
        }
    }

    /// The messages held are not blank.
    pub open spec fn well_formed(self) -> bool {
        match self {
            CommitFlow::PreHook { message } => trimmed(message@).len() > 0,
            CommitFlow::Committing { message } => trimmed(message@).len() > 0,
            CommitFlow::PostHook { message } => trimmed(message@).len() > 0,
            _ => true,
        }
    }

    /// Whether the command waits for the reply `e`.
    pub fn accepts(&self, e: &Event) -> (r: bool)
        ensures
            r == self.expects(*e),
    {
        match self {
            CommitFlow::Begin { .. } => matches!(e, Event::Start),
            CommitFlow::CheckingStaged { .. } => matches!(e, Event::Answer { .. }) || matches!(e, Event::Failed { .. }),
            CommitFlow::Asking => matches!(e, Event::Chosen { .. }) || matches!(e, Event::Failed { .. }),
            CommitFlow::PreHook { .. } => matches!(e, Event::HookExited { .. }) || matches!(e, Event::Failed { .. }),
            CommitFlow::Committing { .. } => matches!(e, Event::Done) || matches!(e, Event::Failed { .. }),
            CommitFlow::PostHook { .. } => matches!(e, Event::HookExited { .. }) || matches!(e, Event::Failed { .. }),
            CommitFlow::Closing => matches!(e, Event::Done),
            CommitFlow::Done => false,
        }
    }

    fn settle(message: String) -> (r: (CommitFlow, Action))
        ensures
            Self::settles(message, r.0, r.1),
    {
        match Commit::normalize_message(message) {
            Some(m) => (CommitFlow::PreHook { message: m }, Action::RunHook { args: Commit::hook_args("pre-commit") }),
            None => (
                CommitFlow::Closing,
                Action::Print { line: "Aborting commit due to empty commit message".to_owned() },
            ),
        }
    }

    /// Takes the reply to the last step and gives the next one.
    pub fn step(self, e: Event) -> (r: (CommitFlow, Action))
        requires
            self.expects(e),
        ensures
            self.moves(e, r.0, r.1),
    {
        match self {
            CommitFlow::Begin { given } => (
                CommitFlow::CheckingStaged { given },
                Action::CheckStaged,
            ),
            CommitFlow::CheckingStaged { given } => match e {
                Event::Answer(staged) => {
                    if !staged {
                        (
                            CommitFlow::Closing,
                            Action::Print { line: "No staged changes to commit".to_owned() },
                        )
                    } else {
                        match given {
                            Some(m) => Self::settle(m),
                            None => (
                                CommitFlow::Asking,
                                Action::Ask(
                                    Prompt::Text {
                                        message: "Commit message:".to_owned(),
                                        help: Some(
                                            "Enter a descriptive commit message".to_owned(),
                                        ),
                                    },
                                ),
                            ),
                        }
                    }
                },
                Event::Failed(err) => (CommitFlow::Done, Action::Finish(Err(err))),
                _ => {
                    proof {
                        assert(false);
                    }
                    (CommitFlow::Done, Action::Finish(Ok(())))
                },
            },
            CommitFlow::Asking => match e {
                Event::Chosen(text) => Self::settle(text),
                Event::Failed(err) => (CommitFlow::Done, Action::Finish(Err(err))),
                _ => {
                    proof {
                        assert(false);
                    }
                    (CommitFlow::Done, Action::Finish(Ok(())))
                },
            },
            CommitFlow::PreHook { message } => match e {
                Event::HookExited { success, stderr } => {
                    match Commit::hook_result("pre-commit", stderr.as_str(), success) {
                        Ok(()) => {
                            let m = message.clone();
                            (CommitFlow::Committing { message }, Action::CreateCommit { message: m })
                        },
                        Err(err) => (CommitFlow::Done, Action::Finish(Err(err))),
                    }
                },
                Event::Failed(err) => (CommitFlow::Done, Action::Finish(Err(err))),
                _ => {
                    proof {
                        assert(false);
                    }
                    (CommitFlow::Done, Action::Finish(Ok(())))
                },
            },
            CommitFlow::Committing { message } => match e {
                Event::Done => (
                    CommitFlow::PostHook { message },
                    Action::RunHook { args: Commit::hook_args("post-commit") },
                ),
                Event::Failed(err) => (CommitFlow::Done, Action::Finish(Err(err))),
                _ => {
                    proof {
                        assert(false);
                    }
                    (CommitFlow::Done, Action::Finish(Ok(())))
                },
            },
            CommitFlow::PostHook { message } => {
                let mut line = String::new();
                line.append("Committed: ");
                line.append(message.as_str());
                (CommitFlow::Closing, Action::Print { line })
            },
            CommitFlow::Closing => (CommitFlow::Done, Action::Finish(Ok(()))),
            CommitFlow::Done => {
                proof {
                    assert(false);
                }
                (CommitFlow::Done, Action::Finish(Ok(())))
            },
        }
    }
}

/// A failed step ends the commit command with its error, except the post-commit hook,
/// whose failure is ignored since the commit is already made.
pub proof fn commit_failure_ends(s: CommitFlow, err: GiError, t: CommitFlow, a: Action)
    requires
        !(s is PostHook),
        s.moves(Event::Failed(err), t, a),
    ensures
        t is Done,
        a == Action::Finish(Err(err)),
{
}

/// Every step of the commit command brings it closer to its end.
pub proof fn commit_progresses(s: CommitFlow, e: Event, t: CommitFlow, a: Action)
    requires
        s.moves(e, t, a),
    ensures
        before_in_progress(t.progress(), s.progress()),
{
}

/// A commit is made only once the pre-commit hook has passed (or does not exist), and only
/// with the message held, which is never blank.
pub proof fn commit_made_after_hook(s: CommitFlow, e: Event, t: CommitFlow, a: Action)
    requires
        s.well_formed(),
        s.moves(e, t, a),
    ensures
        t.well_formed(),
        a is CreateCommit ==> made_after_hook(s, e, a),
{
}

/// `a` commits the non-blank message that `s` holds, once `e` tells that the pre-commit hook
/// passed.
pub open spec fn made_after_hook(s: CommitFlow, e: Event, a: Action) -> bool {
    match (s, e, a) {
        (
            CommitFlow::PreHook { message },
            Event::HookExited { success, stderr },
            Action::CreateCommit { message: m },
        ) => (success || hook_not_found(stderr@, "pre-commit"@)) && m@ == message@ && trimmed(message@).len() > 0,
        _ => false,
    }
}

/// A hook run is fine exactly when it succeeded or `git` wrote that it cannot find a hook of
/// that name; any other failing run is an error that names the hook and gives its trimmed
/// error output, whatever else that output holds.
pub proof fn hook_fails_unless_missing(r: Result<(), GiError>, name: Seq<char>, stderr: Seq<char>, success: bool)
    requires
        is_hook_result(r, name, stderr, success),
    ensures
        (r is Ok) <==> (success || has_substring(stderr, "cannot find a hook named "@ + name)),
        !success && !has_substring(stderr, "cannot find a hook named "@ + name) ==> {
            &&& r matches Err(GiError::Other(m))
            &&& m@ == name + " hook failed:\n"@ + trimmed(stderr)
        },
{
}

/// A pre-commit hook that fails without `git` saying that it cannot find it stops the commit:
/// the command ends with the hook's error and no commit is made.
pub proof fn failing_pre_commit_hook_blocks(s: CommitFlow, e: Event, t: CommitFlow, a: Action)
    requires
        s.moves(e, t, a),
        s is PreHook,
        e matches Event::HookExited { success, stderr } && !success && !has_substring(
            stderr@,
            "cannot find a hook named pre-commit"@,
        ),
    ensures
        t is Done,
        a matches Action::Finish(Err(GiError::Other(m))),
        !(a is CreateCommit),
{
    reveal_strlit("pre-commit");
    reveal_strlit("cannot find a hook named ");
    reveal_strlit("cannot find a hook named pre-commit");
    assert("cannot find a hook named "@ + "pre-commit"@ =~= "cannot find a hook named pre-commit"@);
}

} // verus!

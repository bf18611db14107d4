use crate::error::GiError;
use crate::flow::{
    asks_one, before_in_progress, fails_with, framed, git_result, is_git_result, owned_words,
    prints, runs_git, Action, Event, Prompt,
};
use vstd::prelude::*;
use vstd::string::*;

verus! {

/// Push options.
#[derive(Clone, Copy, Debug, PartialEq, Eq)]
pub struct PushOptions {
    /// Force the push (with `--force-with-lease --force-if-includes`).
    pub force: bool,
}

impl Default for PushOptions {
    fn default() -> (r: PushOptions)
        ensures
            !r.force,
    {
        PushOptions { force: false }
    }
}

/// Push current branch to remote.
#[derive(Debug, PartialEq)]
pub struct Push;

/// The answers of a yes-or-no prompt.
pub open spec fn yes_no() -> Seq<Seq<char>> {
    seq!["Yes"@, "No"@]
}

/// The arguments of `git push`: forced with lease and includes when `force`, and setting the
/// upstream to `origin/<branch>` when `upstream` holds the branch.
pub open spec fn push_args(force: bool, upstream: Option<Seq<char>>) -> Seq<Seq<char>> {
    seq!["push"@] + (if force {
        seq!["--force-with-lease"@, "--force-if-includes"@]
    } else {
        seq![]
    }) + match upstream {
        Some(branch) => seq!["-u"@, "origin"@, branch],
        None => seq![],
    }
}

impl Push {
    /// The push command with the options.
    pub fn start(options: PushOptions) -> (f: PushFlow)
        ensures
            f == (PushFlow::Begin { options }),
    {
        PushFlow::Begin { options }
    }

    /// The arguments of `git push`, forced or not, setting the upstream to the branch given.
    pub fn push_args(force: bool, upstream: Option<&str>) -> (r: Vec<String>)
        ensures
            r.deep_view() == push_args(
                force,
                match upstream {
                    Some(b) => Some(b@),
                    None => None,
                },
            ),
            r.deep_view() == (if force {
                seq!["push"@, "--force-with-lease"@, "--force-if-includes"@]
            } else {
                seq!["push"@]
            }) + match upstream {
                Some(b) => seq!["-u"@, "origin"@, b@],
                None => seq![],
            },
    {
        let mut r: Vec<String> = Vec::new();
        r.push("push".to_owned());
        if force {
            r.push("--force-with-lease".to_owned());
            r.push("--force-if-includes".to_owned());
        }
        match upstream {
            Some(b) => {
                r.push("-u".to_owned());
                r.push("origin".to_owned());
                r.push(b.to_owned());
            },
            None => {},
        }
        assert(r.deep_view() =~= push_args(
            force,
            match upstream {
                Some(b) => Some(b@),
                None => None,
            },
        ));
        proof {
            push_args_set_upstream(
                force,
                match upstream {
                    Some(b) => b@,
                    None => seq![],
                },
            );
        }
        r
    }
}

/// Where the push command stands.
#[derive(Debug, PartialEq)]
pub enum PushFlow {
    Begin { options: PushOptions },
    /// Waiting for the name of the current branch.
    ReadingHead { options: PushOptions },
    /// Waiting to know whether the branch has an upstream.
    CheckingUpstream { options: PushOptions, branch: String },
    /// Waiting for the user to confirm the forced push.
    ConfirmingForce { branch: String, has_upstream: bool },
    /// Waiting for the user to confirm setting the upstream.
    ConfirmingUpstream { branch: String, force: bool },
    /// Waiting for `git push`.
    Pushing,
    /// Waiting for the last line to be printed.
    Closing,
    Done,
}

impl PushFlow {
    /// The replies that the command waits for.
    pub open spec fn expects(self, e: Event) -> bool {
        match self {
            PushFlow::Begin { .. } => e is Start,
            PushFlow::ReadingHead { .. } => e is Head || e is Failed,
            PushFlow::CheckingUpstream { .. } => e is Answer,
            PushFlow::ConfirmingForce { .. } => e is Chosen || e is Failed,
            PushFlow::ConfirmingUpstream { .. } => e is Chosen || e is Failed,
            PushFlow::Pushing => e is GitExited || e is Failed,
            PushFlow::Closing => e is Done,
            PushFlow::Done => false,
        }
    }

    /// Whether the push asked for is forced.
    pub open spec fn forced(self) -> bool {
        match self {
            PushFlow::Begin { options } => options.force,
            PushFlow::ReadingHead { options } => options.force,
            PushFlow::CheckingUpstream { options, .. } => options.force,
            PushFlow::ConfirmingForce { .. } => true,
            PushFlow::ConfirmingUpstream { force, .. } => force,
            _ => false,
        }
    }

    /// Once the forced push is confirmed (or not asked for): a branch without upstream needs
    /// the user's consent to set it, else the push runs.
    pub open spec fn pushes_or_asks(
        branch: String,
        force: bool,
        has_upstream: bool,
        next: PushFlow,
        a: Action,
    ) -> bool {
        if !has_upstream {
            next == (PushFlow::ConfirmingUpstream { branch, force }) && asks_one(
                a,
                "No upstream set. Push and set upstream to 'origin/"@ + branch@ + "'?"@,
                yes_no(),
            )
        } else {
            next == PushFlow::Pushing && runs_git(a, push_args(force, None))
        }
    }

    /// The step from `self` on the reply `e` leads to `next` and asks for `a`.
    pub open spec fn moves(self, e: Event, next: PushFlow, a: Action) -> bool {
        match (self, e) {
            (PushFlow::Begin { options }, Event::Start) => next == (PushFlow::ReadingHead {
                options,
            }) && a == Action::ReadHead,
            (PushFlow::ReadingHead { options }, Event::Head(head)) => match head {
                Some(branch) => {
                    &&& next == (PushFlow::CheckingUpstream { options, branch })
                    &&& a matches Action::CheckUpstream { branch: b }
                    &&& b@ == branch@
                },
                None => next == PushFlow::Done && fails_with(a, "HEAD is not a branch"@),
            },
            (PushFlow::CheckingUpstream { options, branch }, Event::Answer(has_upstream)) =>
                if options.force {
                next == (PushFlow::ConfirmingForce { branch, has_upstream }) && asks_one(
                    a,
                    "Force push '"@ + branch@ + "'? This may overwrite remote changes."@,
                    yes_no(),
                )
            } else {
                Self::pushes_or_asks(branch, false, has_upstream, next, a)
            },
            (PushFlow::ConfirmingForce { branch, has_upstream }, Event::Chosen(answer)) =>
                if answer@ == "No"@ {
                next == PushFlow::Closing && prints(a, "Push cancelled"@)
            } else {
                Self::pushes_or_asks(branch, true, has_upstream, next, a)
            },
            (PushFlow::ConfirmingUpstream { branch, force }, Event::Chosen(answer)) =>
                if answer@ == "No"@ {
                next == PushFlow::Closing && prints(a, "Push cancelled"@)
            } else {
                next == PushFlow::Pushing && runs_git(a, push_args(force, Some(branch@)))
            },
            (PushFlow::Pushing, Event::GitExited { success, code }) => {
                &&& next == PushFlow::Done
                &&& a matches Action::Finish(r)
                &&& is_git_result(r, "push"@, success, code)
            },
            (PushFlow::Closing, Event::Done) => next == PushFlow::Done && a == Action::Finish(
                Ok(()),
            ),
            (_, Event::Failed(err)) => self.expects(Event::Failed(err)) && next == PushFlow::Done
                && a == Action::Finish(Err(err)),
            _ => false,
        }
    }

    /// How far the command is from its end.
    pub open spec fn progress(self) -> (nat, nat) {
        match self {
            PushFlow::Begin { .. } => (7, 0),
            PushFlow::ReadingHead { .. } => (6, 0),
            PushFlow::CheckingUpstream { .. } => (5, 0),
            PushFlow::ConfirmingForce { .. } => (4, 0),
            PushFlow::ConfirmingUpstream { .. } => (3, 0),
            PushFlow::Pushing => (2, 0),
            PushFlow::Closing => (1, 0),
            PushFlow::Done => (0, 0),
        }
    }

    /// Whether the command waits for the reply `e`.
    pub fn accepts(&self, e: &Event) -> (r: bool)
        ensures
            r == self.expects(*e),
    {
        match self {
            PushFlow::Begin { .. } => matches!(e, Event::Start),
            PushFlow::ReadingHead { .. } => matches!(e, Event::Head { .. }) || matches!(e, Event::Failed { .. }),
            PushFlow::CheckingUpstream { .. } => matches!(e, Event::Answer { .. }),
            PushFlow::ConfirmingForce { .. } => matches!(e, Event::Chosen { .. }) || matches!(e, Event::Failed { .. }),
            PushFlow::ConfirmingUpstream { .. } => matches!(e, Event::Chosen { .. }) || matches!(e, Event::Failed { .. }),
            PushFlow::Pushing => matches!(e, Event::GitExited { .. }) || matches!(e, Event::Failed { .. }),
            PushFlow::Closing => matches!(e, Event::Done),
            PushFlow::Done => false,
        }
    }

    fn push_or_ask(branch: String, force: bool, has_upstream: bool) -> (r: (PushFlow, Action))
        ensures
            Self::pushes_or_asks(branch, force, has_upstream, r.0, r.1),
    {
        if !has_upstream {
            let message = framed(
                "No upstream set. Push and set upstream to 'origin/",
                branch.as_str(),
                "'?",
            );
            let options = owned_words(&["Yes", "No"]);
            assert(options.deep_view() =~= yes_no());
            (
                PushFlow::ConfirmingUpstream { branch, force },
                Action::Ask(Prompt::Select { message, options }),
            )
        } else {
            (PushFlow::Pushing, Action::RunGit { args: Push::push_args(force, None) })
        }
    }

    /// Takes the reply to the last step and gives the next one.
    pub fn step(self, e: Event) -> (r: (PushFlow, Action))
        requires
            self.expects(e),
        ensures
            self.moves(e, r.0, r.1),
    {
        match (self, e) {
            (PushFlow::Begin { options }, Event::Start) => (
                PushFlow::ReadingHead { options },
                Action::ReadHead,
            ),
            (PushFlow::ReadingHead { options }, Event::Head(head)) => match head {
                Some(branch) => {
                    let b = branch.clone();
                    (PushFlow::CheckingUpstream { options, branch }, Action::CheckUpstream { branch: b })
                },
                None => (
                    PushFlow::Done,
                    Action::Finish(Err(GiError::Other("HEAD is not a branch".to_owned()))),
                ),
            },
            (PushFlow::CheckingUpstream { options, branch }, Event::Answer(has_upstream)) => {
                if options.force {
                    let message = framed(
                        "Force push '",
                        branch.as_str(),
                        "'? This may overwrite remote changes.",
                    );
                    let options = owned_words(&["Yes", "No"]);
                    assert(options.deep_view() =~= yes_no());
                    (
                        PushFlow::ConfirmingForce { branch, has_upstream },
                        Action::Ask(Prompt::Select { message, options }),
                    )
                } else {
                    Self::push_or_ask(branch, false, has_upstream)
                }
            },
            (PushFlow::ConfirmingForce { branch, has_upstream }, Event::Chosen(answer)) => {
                if answer == "No".to_owned() {
                    (PushFlow::Closing, Action::Print { line: "Push cancelled".to_owned() })
                } else {
                    Self::push_or_ask(branch, true, has_upstream)
                }
            },
            (PushFlow::ConfirmingUpstream { branch, force }, Event::Chosen(answer)) => {
                if answer == "No".to_owned() {
                    (PushFlow::Closing, Action::Print { line: "Push cancelled".to_owned() })
                } else {
                    (
                        PushFlow::Pushing,
                        Action::RunGit { args: Push::push_args(force, Some(branch.as_str())) },
                    )
                }
            },
            (PushFlow::Pushing, Event::GitExited { success, code }) => (
                PushFlow::Done,
                Action::Finish(git_result("push", success, code)),
            ),
            (PushFlow::Closing, Event::Done) => (PushFlow::Done, Action::Finish(Ok(()))),
            (_, Event::Failed(err)) => (PushFlow::Done, Action::Finish(Err(err))),
            _ => {
                proof {
                    assert(false);
                }
                (PushFlow::Done, Action::Finish(Ok(())))
            },
        }
    }
}

/// A failed step ends the push command with its error.
pub proof fn push_failure_ends(s: PushFlow, err: GiError, t: PushFlow, a: Action)
    requires
        s.moves(Event::Failed(err), t, a),
    ensures
        t is Done,
        a == Action::Finish(Err(err)),
{
}

/// Every step of the push command brings it closer to its end.
pub proof fn push_progresses(s: PushFlow, e: Event, t: PushFlow, a: Action)
    requires
        s.moves(e, t, a),
    ensures
        before_in_progress(t.progress(), s.progress()),
{
}

/// Answering "No" to a confirmation cancels the push: nothing is pushed.
pub proof fn push_refused_is_cancelled(s: PushFlow, answer: String, t: PushFlow, a: Action)
    requires
        s.moves(Event::Chosen(answer), t, a),
        answer@ == "No"@,
    ensures
        t == PushFlow::Closing,
        prints(a, "Push cancelled"@),
{
}

/// `git push` runs forced with lease and includes exactly when a forced push was asked for
/// (and confirmed), and sets the upstream to `origin/<branch>` exactly when the branch has none.
pub proof fn push_follows_options(s: PushFlow, e: Event, t: PushFlow, a: Action)
    requires
        s.moves(e, t, a),
        a is RunGit,
    ensures
        match s {
            PushFlow::CheckingUpstream { branch, .. } => runs_git(a, push_args(s.forced(), None)),
            PushFlow::ConfirmingForce { branch, .. } => runs_git(a, push_args(s.forced(), None)),
            PushFlow::ConfirmingUpstream { branch, .. } => runs_git(
                a,
                push_args(s.forced(), Some(branch@)),
            ),
            _ => false,
        },
{
}

/// The arguments of a forced push hold `--force-with-lease` and `--force-if-includes`
/// right after `push`; those of a push that is not forced do not.
pub proof fn forced_push_args(force: bool, upstream: Option<Seq<char>>)
    ensures
        push_args(force, upstream)[0] == "push"@,
        force ==> push_args(force, upstream)[1] == "--force-with-lease"@ && push_args(
            force,
            upstream,
        )[2] == "--force-if-includes"@,
        !force ==> !push_args(force, upstream).contains("--force-with-lease"@) || upstream
            == Some("--force-with-lease"@),
{
    reveal_strlit("push");
    reveal_strlit("--force-with-lease");
    reveal_strlit("-u");
    reveal_strlit("origin");
    let args = push_args(force, upstream);
    if !force && args.contains("--force-with-lease"@) {
        let k = choose|k: int| 0 <= k < args.len() && args[k] == "--force-with-lease"@;
        if k == 0 {
            assert(args[k][0] != "--force-with-lease"@[0]);
        } else if k == 1 {
            assert(args[k].len() != "--force-with-lease"@.len());
        } else if k == 2 {
            assert(args[k].len() != "--force-with-lease"@.len());
        }
    }
}

/// The arguments of `git push` are `push`, then `--force-with-lease --force-if-includes`
/// when the push is forced, and setting the upstream appends exactly `-u origin <branch>`
/// to those of the same push without it, the branch whatever its name.
pub proof fn push_args_set_upstream(force: bool, branch: Seq<char>)
    ensures
        push_args(force, None) == if force {
            seq!["push"@, "--force-with-lease"@, "--force-if-includes"@]
        } else {
            seq!["push"@]
        },
        push_args(force, Some(branch)) == push_args(force, None) + seq!["-u"@, "origin"@, branch],
        push_args(force, Some(branch)).len() == push_args(force, None).len() + 3,
        push_args(force, Some(branch)).last() == branch,
{
    assert(push_args(force, None) =~= if force {
        seq!["push"@, "--force-with-lease"@, "--force-if-includes"@]
    } else {
        seq!["push"@]
    });
    assert(push_args(force, Some(branch)) =~= push_args(force, None) + seq!["-u"@, "origin"@, branch]);
}

} // verus!

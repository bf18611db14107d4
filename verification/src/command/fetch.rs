use crate::error::GiError;
use crate::flow::{before_in_progress, git_result, is_git_result, owned_words, runs_git, Action, Event};
use vstd::prelude::*;

verus! {

/// Fetch all remotes with pruning.
#[derive(Debug, PartialEq)]
pub struct Fetch;

/// The arguments of `git fetch --all --prune`.
pub open spec fn fetch_args() -> Seq<Seq<char>> {
    seq!["fetch"@, "--all"@, "--prune"@]
}

impl Fetch {
    /// The fetch command.
    pub fn start() -> (f: FetchFlow)
        ensures
            f == FetchFlow::Begin,
    {
        FetchFlow::Begin
    }
}

/// Where the fetch command stands.
#[derive(Debug, PartialEq)]
pub enum FetchFlow {
    Begin,
    /// Waiting for `git fetch` to exit.
    Fetching,
    Done,
}

impl FetchFlow {
    /// The replies that the command waits for.
    pub open spec fn expects(self, e: Event) -> bool {
        match self {
            FetchFlow::Begin => e is Start,
            FetchFlow::Fetching => e is GitExited || e is Failed,
            FetchFlow::Done => false,
        }
    }

    /// The step from `self` on the reply `e` leads to `next` and asks for `a`.
    pub open spec fn moves(self, e: Event, next: FetchFlow, a: Action) -> bool {
        match (self, e) {
            (FetchFlow::Begin, Event::Start) => next == FetchFlow::Fetching && runs_git(
                a,
                fetch_args(),
            ),
            (FetchFlow::Fetching, Event::GitExited { success, code }) => {
                &&& next == FetchFlow::Done
                &&& a matches Action::Finish(r)
                &&& is_git_result(r, "fetch"@, success, code)
            },
            (FetchFlow::Fetching, Event::Failed(err)) => next == FetchFlow::Done && a
                == Action::Finish(Err(err)),
            _ => false,
        }
    }

    /// How far the command is from its end.
    pub open spec fn progress(self) -> (nat, nat) {
        match self {
            FetchFlow::Begin => (2, 0),
            FetchFlow::Fetching => (1, 0),
            FetchFlow::Done => (0, 0),
        }
    }

    /// Whether the command waits for the reply `e`.
    pub fn accepts(&self, e: &Event) -> (r: bool)
        ensures
            r == self.expects(*e),
    {
        match self {
            FetchFlow::Begin => matches!(e, Event::Start),
            FetchFlow::Fetching => matches!(e, Event::GitExited { .. }) || matches!(e, Event::Failed { .. }),
            FetchFlow::Done => false,
        }
    }

    /// Takes the reply to the last step and gives the next one.
    pub fn step(self, e: Event) -> (r: (FetchFlow, Action))
        requires
            self.expects(e),
        ensures
            self.moves(e, r.0, r.1),
    {
        match (self, e) {
            (FetchFlow::Begin, Event::Start) => {
                let args = owned_words(&["fetch", "--all", "--prune"]);
                assert(args.deep_view() =~= fetch_args());
                (FetchFlow::Fetching, Action::RunGit { args })
            },
            (FetchFlow::Fetching, Event::GitExited { success, code }) => (
                FetchFlow::Done,
                Action::Finish(git_result("fetch", success, code)),
            ),
            (_, Event::Failed(err)) => (FetchFlow::Done, Action::Finish(Err(err))),
            _ => {
                proof {
                    assert(false);
                }
                (FetchFlow::Done, Action::Finish(Ok(())))
            },
        }
    }
}

/// A failed step ends the fetch command with its error.
pub proof fn fetch_failure_ends(s: FetchFlow, err: GiError, t: FetchFlow, a: Action)
    requires
        s.moves(Event::Failed(err), t, a),
    ensures
        t is Done,
        a == Action::Finish(Err(err)),
{
}

/// Every step of the fetch command brings it closer to its end.
pub proof fn fetch_progresses(s: FetchFlow, e: Event, t: FetchFlow, a: Action)
    requires
        s.moves(e, t, a),
    ensures
        before_in_progress(t.progress(), s.progress()),
{
}

} // verus!

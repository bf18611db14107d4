use crate::error::GiError;
use crate::flow::{asks_one, before_in_progress, framed, prints, Action, Event, Prompt};
use vstd::prelude::*;
use vstd::string::*;

verus! {

/// Switch to a different branch.
#[derive(Debug, PartialEq)]
pub struct Switch;

impl Switch {
    /// The switch command.
    pub fn start() -> (f: SwitchFlow)
        ensures
            f == SwitchFlow::Begin,
    {
        SwitchFlow::Begin
    }
}

/// Where the switch command stands.
#[derive(Debug, PartialEq)]
pub enum SwitchFlow {
    Begin,
    /// Waiting for the branch names, remote ones included.
    Listing,
    /// Waiting for the branch that the user chose.
    Choosing,
    /// Waiting for the branch to be checked out.
    Switching { branch: String },
    /// Waiting for the last line to be printed.
    Closing,
    Done,
}

impl SwitchFlow {
    /// The replies that the command waits for.
    pub open spec fn expects(self, e: Event) -> bool {
        match self {
            SwitchFlow::Begin => e is Start,
            SwitchFlow::Listing => e is Items || e is Failed,
            SwitchFlow::Choosing => e is Chosen || e is Failed,
            SwitchFlow::Switching { .. } => e is Done || e is Failed,
            SwitchFlow::Closing => e is Done,
            SwitchFlow::Done => false,
        }
    }

    /// The step from `self` on the reply `e` leads to `next` and asks for `a`.
    pub open spec fn moves(self, e: Event, next: SwitchFlow, a: Action) -> bool {
        match (self, e) {
            (SwitchFlow::Begin, Event::Start) => next == SwitchFlow::Listing && a
                == Action::ListBranches { include_remote: true },
            (SwitchFlow::Listing, Event::Items(branches)) => if branches@.len() == 0 {
                next == SwitchFlow::Done && a == Action::Finish(
                    Err(GiError::Empty { context: "No branches available" }),
                )
            } else {
                next == SwitchFlow::Choosing && asks_one(
                    a,
                    "Select a branch to switch to"@,
                    branches.deep_view(),
                )
            },
            (SwitchFlow::Choosing, Event::Chosen(branch)) => {
                &&& next == (SwitchFlow::Switching { branch })
                &&& a matches Action::SwitchTo { branch: b }
                &&& b@ == branch@
            },
            (SwitchFlow::Switching { branch }, Event::Done) => next == SwitchFlow::Closing
                && prints(a, "Switched to branch: "@ + branch@),
            (SwitchFlow::Closing, Event::Done) => next == SwitchFlow::Done && a == Action::Finish(
                Ok(()),
            ),
            (SwitchFlow::Listing, Event::Failed(err)) => next == SwitchFlow::Done && a
                == Action::Finish(Err(err)),
            (SwitchFlow::Choosing, Event::Failed(err)) => next == SwitchFlow::Done && a
                == Action::Finish(Err(err)),
            (SwitchFlow::Switching { .. }, Event::Failed(err)) => next == SwitchFlow::Done && a
                == Action::Finish(Err(err)),
            _ => false,
        }
    }

    /// How far the command is from its end.
    pub open spec fn progress(self) -> (nat, nat) {
        match self {
            SwitchFlow::Begin => (5, 0),
            SwitchFlow::Listing => (4, 0),
            SwitchFlow::Choosing => (3, 0),
            SwitchFlow::Switching { .. } => (2, 0),
            SwitchFlow::Closing => (1, 0),
            SwitchFlow::Done => (0, 0),
        }
    }

    /// Whether the command waits for the reply `e`.
    pub fn accepts(&self, e: &Event) -> (r: bool)
        ensures
            r == self.expects(*e),
    {
        match self {
            SwitchFlow::Begin => matches!(e, Event::Start),
            SwitchFlow::Listing => matches!(e, Event::Items { .. }) || matches!(e, Event::Failed { .. }),
            SwitchFlow::Choosing => matches!(e, Event::Chosen { .. }) || matches!(e, Event::Failed { .. }),
            SwitchFlow::Switching { .. } => matches!(e, Event::Done) || matches!(e, Event::Failed { .. }),
            SwitchFlow::Closing => matches!(e, Event::Done),
            SwitchFlow::Done => false,
        }
    }

    /// Takes the reply to the last step and gives the next one.
    pub fn step(self, e: Event) -> (r: (SwitchFlow, Action))
        requires
            self.expects(e),
        ensures
            self.moves(e, r.0, r.1),
    {
        match (self, e) {
            (SwitchFlow::Begin, Event::Start) => (
                SwitchFlow::Listing,
                Action::ListBranches { include_remote: true },
            ),
            (SwitchFlow::Listing, Event::Items(branches)) => {
                if branches.len() == 0 {
                    (
                        SwitchFlow::Done,
                        Action::Finish(Err(GiError::Empty { context: "No branches available" })),
                    )
                } else {
                    (
                        SwitchFlow::Choosing,
                        Action::Ask(
                            Prompt::Select {
                                message: "Select a branch to switch to".to_owned(),
                                options: branches,
                            },
                        ),
                    )
                }
            },
            (SwitchFlow::Choosing, Event::Chosen(branch)) => {
                let b = branch.clone();
                (SwitchFlow::Switching { branch }, Action::SwitchTo { branch: b })
            },
            (SwitchFlow::Switching { branch }, Event::Done) => {
                let line = framed("Switched to branch: ", branch.as_str(), "");
                proof {
                    assert(line@ =~= "Switched to branch: "@ + branch@) by {
                        reveal_strlit("");
                    }
                }
                (SwitchFlow::Closing, Action::Print { line })
            },
            (SwitchFlow::Closing, Event::Done) => (SwitchFlow::Done, Action::Finish(Ok(()))),
            (_, Event::Failed(err)) => (SwitchFlow::Done, Action::Finish(Err(err))),
            _ => {
                proof {
                    assert(false);
                }
                (SwitchFlow::Done, Action::Finish(Ok(())))
            },
        }
    }
}

/// A failed step ends the switch command with its error.
pub proof fn switch_failure_ends(s: SwitchFlow, err: GiError, t: SwitchFlow, a: Action)
    requires
        s.moves(Event::Failed(err), t, a),
    ensures
        t is Done,
        a == Action::Finish(Err(err)),
{
}

/// Every step of the switch command brings it closer to its end.
pub proof fn switch_progresses(s: SwitchFlow, e: Event, t: SwitchFlow, a: Action)
    requires
        s.moves(e, t, a),
    ensures
        before_in_progress(t.progress(), s.progress()),
{
}

/// The switch command checks out only the branch that the user chose, and announces the
/// switch only once it is done.
pub proof fn switch_checks_out_choice(s: SwitchFlow, e: Event, t: SwitchFlow, a: Action, branch: String)
    requires
        s.moves(e, t, a),
    ensures
        a == (Action::SwitchTo { branch }) ==> {
            &&& s == SwitchFlow::Choosing
            &&& e matches Event::Chosen(c)
            &&& c@ == branch@
        },
        prints(a, "Switched to branch: "@ + branch@) ==> {
            &&& s matches SwitchFlow::Switching { branch: b }
            &&& b@ == branch@
            &&& e == Event::Done
        },
{
    if let (SwitchFlow::Switching { branch: b }, Event::Done) = (s, e) {
        let p = "Switched to branch: "@;
        if prints(a, p + branch@) {
            assert((p + b@).skip(p.len() as int) =~= b@);
            assert((p + branch@).skip(p.len() as int) =~= branch@);
        }
    }
}

} // verus!

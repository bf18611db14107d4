use crate::error::GiError;
use crate::flow::{valid_event, asks_many, before_in_progress, framed, prints, Action, Event, Prompt};
use vstd::prelude::*;
use vstd::string::*;

verus! {

/// Delete local branches.
#[derive(Debug, PartialEq)]
pub struct Delete;

impl Delete {
    /// The delete command.
    pub fn start() -> (f: DeleteFlow)
        ensures
            f == DeleteFlow::Begin,
    {
        DeleteFlow::Begin
    }
}

/// Where the delete command stands.
#[derive(Debug, PartialEq)]
pub enum DeleteFlow {
    Begin,
    /// Waiting for the local branch names.
    Listing,
    /// Waiting for the branches that the user chose.
    Choosing,
    /// Waiting for the branch `names[at]` to be deleted.
    Deleting { names: Vec<String>, at: usize },
    /// Waiting for the deletion of `names[at]` to be reported.
    Reporting { names: Vec<String>, at: usize },
    Done,
}

/// `a` deletes the branch.
pub open spec fn deletes(a: Action, name: String) -> bool {
    a matches Action::DeleteBranch { name: n } && n@ == name@
}

impl DeleteFlow {
    /// The replies that the command waits for.
    pub open spec fn expects(self, e: Event) -> bool {
        match self {
            DeleteFlow::Begin => e is Start,
            DeleteFlow::Listing => e is Items || e is Failed,
            DeleteFlow::Choosing => e is Items || e is Failed,
            DeleteFlow::Deleting { .. } => e is Done || e is Failed,
            DeleteFlow::Reporting { .. } => e is Done,
            DeleteFlow::Done => false,
        }
    }

    /// The position in the list of chosen branches is within it.
    pub open spec fn well_formed(self) -> bool {
        match self {
            DeleteFlow::Deleting { names, at } => at < names@.len() <= usize::MAX,
            DeleteFlow::Reporting { names, at } => at < names@.len() <= usize::MAX,
            _ => true,
        }
    }

    /// The step from `self` on the reply `e` leads to `next` and asks for `a`.
    pub open spec fn moves(self, e: Event, next: DeleteFlow, a: Action) -> bool {
        match (self, e) {
            (DeleteFlow::Begin, Event::Start) => next == DeleteFlow::Listing && a
                == Action::ListBranches { include_remote: false },
            (DeleteFlow::Listing, Event::Items(branches)) => if branches@.len() == 0 {
                next == DeleteFlow::Done && a == Action::Finish(
                    Err(GiError::Empty { context: "No branches to delete" }),
                )
            } else {
                next == DeleteFlow::Choosing && asks_many(
                    a,
                    "Select branches to delete"@,
                    branches.deep_view(),
                )
            },
            (DeleteFlow::Choosing, Event::Items(chosen)) => if chosen@.len() == 0 {
                next == DeleteFlow::Done && a == Action::Finish(Ok(()))
            } else {
                next == (DeleteFlow::Deleting { names: chosen, at: 0 }) && deletes(a, chosen@[0])
            },
            (DeleteFlow::Deleting { names, at }, Event::Done) => next == (DeleteFlow::Reporting {
                names,
                at,
            }) && prints(a, "Deleted branch: "@ + names@[at as int]@),
            (DeleteFlow::Reporting { names, at }, Event::Done) => if at + 1 < names@.len() {
                next == (DeleteFlow::Deleting { names, at: (at + 1) as usize }) && deletes(
                    a,
                    names@[at + 1],
                )
            } else {
                next == DeleteFlow::Done && a == Action::Finish(Ok(()))
            },
            (DeleteFlow::Listing, Event::Failed(err)) => next == DeleteFlow::Done && a
                == Action::Finish(Err(err)),
            (DeleteFlow::Choosing, Event::Failed(err)) => next == DeleteFlow::Done && a
                == Action::Finish(Err(err)),
            (DeleteFlow::Deleting { .. }, Event::Failed(err)) => next == DeleteFlow::Done && a
                == Action::Finish(Err(err)),
            _ => false,
        }
    }

    /// How far the command is from its end.
    pub open spec fn progress(self) -> (nat, nat) {
        match self {
            DeleteFlow::Begin => (5, 0),
            DeleteFlow::Listing => (4, 0),
            DeleteFlow::Choosing => (3, 0),
            DeleteFlow::Deleting { names, at } => (2, (2 * (names@.len() - at)) as nat),
            DeleteFlow::Reporting { names, at } => (2, (2 * (names@.len() - at) - 1) as nat),
            DeleteFlow::Done => (0, 0),
        }
    }

    /// Whether the command waits for the reply `e`.
    pub fn accepts(&self, e: &Event) -> (r: bool)
        ensures
            r == self.expects(*e),
    {
        match self {
            DeleteFlow::Begin => matches!(e, Event::Start),
            DeleteFlow::Listing => matches!(e, Event::Items { .. }) || matches!(e, Event::Failed { .. }),
            DeleteFlow::Choosing => matches!(e, Event::Items { .. }) || matches!(e, Event::Failed { .. }),
            DeleteFlow::Deleting { .. } => matches!(e, Event::Done) || matches!(e, Event::Failed { .. }),
            DeleteFlow::Reporting { .. } => matches!(e, Event::Done),
            DeleteFlow::Done => false,
        }
    }

    /// Takes the reply to the last step and gives the next one.
    pub fn step(self, e: Event) -> (r: (DeleteFlow, Action))
        requires
            self.expects(e),
            self.well_formed(),
        ensures
            self.moves(e, r.0, r.1),
            r.0.well_formed(),
    {
        match (self, e) {
            (DeleteFlow::Begin, Event::Start) => (
                DeleteFlow::Listing,
                Action::ListBranches { include_remote: false },
            ),
            (DeleteFlow::Listing, Event::Items(branches)) => {
                if branches.len() == 0 {
                    (
                        DeleteFlow::Done,
                        Action::Finish(Err(GiError::Empty { context: "No branches to delete" })),
                    )
                } else {
                    (
                        DeleteFlow::Choosing,
                        Action::Ask(
                            Prompt::MultiSelect {
                                message: "Select branches to delete".to_owned(),
                                options: branches,
                            },
                        ),
                    )
                }
            },
            (DeleteFlow::Choosing, Event::Items(chosen)) => {
                if chosen.len() == 0 {
                    (DeleteFlow::Done, Action::Finish(Ok(())))
                } else {
                    let name = chosen[0].clone();
                    (DeleteFlow::Deleting { names: chosen, at: 0 }, Action::DeleteBranch { name })
                }
            },
            (DeleteFlow::Deleting { names, at }, Event::Done) => {
                let line = framed("Deleted branch: ", names[at].as_str(), "");
                proof {
                    assert(line@ =~= "Deleted branch: "@ + names@[at as int]@) by {
                        reveal_strlit("");
                    }
                }
                (DeleteFlow::Reporting { names, at }, Action::Print { line })
            },
            (DeleteFlow::Reporting { names, at }, Event::Done) => {
                let n = names.len();
                if n - at > 1 {
                    let name = names[at + 1].clone();
                    (DeleteFlow::Deleting { names, at: at + 1 }, Action::DeleteBranch { name })
                } else {
                    (DeleteFlow::Done, Action::Finish(Ok(())))
                }
            },
            (_, Event::Failed(err)) => (DeleteFlow::Done, Action::Finish(Err(err))),
            _ => {
                proof {
                    assert(false);
                }
                (DeleteFlow::Done, Action::Finish(Ok(())))
            },
        }
    }
}

/// A failed step ends the delete command with its error: no later branch is deleted.
pub proof fn delete_failure_ends(s: DeleteFlow, err: GiError, t: DeleteFlow, a: Action)
    requires
        s.moves(Event::Failed(err), t, a),
    ensures
        t is Done,
        a == Action::Finish(Err(err)),
{
}

/// Every step of the delete command brings it closer to its end.
pub proof fn delete_progresses(s: DeleteFlow, e: Event, t: DeleteFlow, a: Action)
    requires
        s.well_formed(),
        valid_event(e),
        s.moves(e, t, a),
    ensures
        t.well_formed(),
        before_in_progress(t.progress(), s.progress()),
{
}

/// The branches deleted are the chosen ones, one after the other: each deletion is that of
/// the branch at the position reached in the list chosen.
pub proof fn delete_follows_choice(s: DeleteFlow, e: Event, t: DeleteFlow, a: Action)
    requires
        s.well_formed(),
        valid_event(e),
        s.moves(e, t, a),
        a is DeleteBranch,
    ensures
        t matches DeleteFlow::Deleting { names, at } && deletes(a, names@[at as int]) && (at == 0
            || (s matches DeleteFlow::Reporting { names: previous, at: done } && previous == names
            && done + 1 == at)),
{
}

} // verus!

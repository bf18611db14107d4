use crate::error::GiError;
use crate::flow::{asks_many, before_in_progress, counted, prints, Action, Event, Prompt};
use crate::text::decimal;
use vstd::prelude::*;
use vstd::string::*;

verus! {

/// Add files to staging area.
#[derive(Debug, PartialEq)]
pub struct Add;

impl Add {
    /// The add command.
    pub fn start() -> (f: AddFlow)
        ensures
            f == AddFlow::Begin,
    {
        AddFlow::Begin
    }
}

/// Where the add command stands.
#[derive(Debug, PartialEq)]
pub enum AddFlow {
    Begin,
    /// Waiting for the files with unstaged changes.
    Listing,
    /// Waiting for the files that the user chose.
    Choosing,
    /// Waiting for the chosen files to be staged.
    Staging { count: usize },
    /// Waiting for the last line to be printed.
    Closing,
    Done,
}

impl AddFlow {
    /// The replies that the command waits for.
    pub open spec fn expects(self, e: Event) -> bool {
        match self {
            AddFlow::Begin => e is Start,
            AddFlow::Listing => e is Items || e is Failed,
            AddFlow::Choosing => e is Items || e is Failed,
            AddFlow::Staging { .. } => e is Done || e is Failed,
            AddFlow::Closing => e is Done,
            AddFlow::Done => false,
        }
    }

    /// The step from `self` on the reply `e` leads to `next` and asks for `a`.
    pub open spec fn moves(self, e: Event, next: AddFlow, a: Action) -> bool {
        match (self, e) {
            (AddFlow::Begin, Event::Start) => next == AddFlow::Listing && a == Action::ListUnstaged,
            (AddFlow::Listing, Event::Items(files)) => if files@.len() == 0 {
                next == AddFlow::Closing && prints(a, "No files to add"@)
            } else {
                next == AddFlow::Choosing && asks_many(
                    a,
                    "Select files to add"@,
                    files.deep_view(),
                )
            },
            (AddFlow::Choosing, Event::Items(chosen)) => if chosen@.len() == 0 {
                next == AddFlow::Done && a == Action::Finish(
                    Err(GiError::Empty { context: "No files selected" }),
                )
            } else {
                &&& next == (AddFlow::Staging { count: chosen@.len() as usize })
                &&& a matches Action::Stage { paths }
                &&& paths@ == chosen@
            },
            (AddFlow::Staging { count }, Event::Done) => next == AddFlow::Closing && prints(
                a,
                "Added "@ + decimal(count as nat) + " file(s) to stage"@,
            ),
            (AddFlow::Closing, Event::Done) => next == AddFlow::Done && a == Action::Finish(Ok(())),
            (AddFlow::Listing, Event::Failed(err)) => next == AddFlow::Done && a == Action::Finish(
                Err(err),
            ),
            (AddFlow::Choosing, Event::Failed(err)) => next == AddFlow::Done && a == Action::Finish(
                Err(err),
            ),
            (AddFlow::Staging { .. }, Event::Failed(err)) => next == AddFlow::Done && a
                == Action::Finish(Err(err)),
            _ => false,
        }
    }

    /// How far the command is from its end.
    pub open spec fn progress(self) -> (nat, nat) {
        match self {
            AddFlow::Begin => (5, 0),
            AddFlow::Listing => (4, 0),
            AddFlow::Choosing => (3, 0),
            AddFlow::Staging { .. } => (2, 0),
            AddFlow::Closing => (1, 0),
            AddFlow::Done => (0, 0),
        }
    }

    /// Whether the command waits for the reply `e`.
    pub fn accepts(&self, e: &Event) -> (r: bool)
        ensures
            r == self.expects(*e),
    {
        match self {
            AddFlow::Begin => matches!(e, Event::Start),
            AddFlow::Listing => matches!(e, Event::Items { .. }) || matches!(e, Event::Failed { .. }),
            AddFlow::Choosing => matches!(e, Event::Items { .. }) || matches!(e, Event::Failed { .. }),
            AddFlow::Staging { .. } => matches!(e, Event::Done) || matches!(e, Event::Failed { .. }),
            AddFlow::Closing => matches!(e, Event::Done),
            AddFlow::Done => false,
        }
    }

    /// Takes the reply to the last step and gives the next one.
    pub fn step(self, e: Event) -> (r: (AddFlow, Action))
        requires
            self.expects(e),
        ensures
            self.moves(e, r.0, r.1),
    {
        match (self, e) {
            (AddFlow::Begin, Event::Start) => (AddFlow::Listing, Action::ListUnstaged),
            (AddFlow::Listing, Event::Items(files)) => {
                if files.len() == 0 {
                    (AddFlow::Closing, Action::Print { line: "No files to add".to_owned() })
                } else {
                    (
                        AddFlow::Choosing,
                        Action::Ask(
                            Prompt::MultiSelect {
                                message: "Select files to add".to_owned(),
                                options: files,
                            },
                        ),
                    )
                }
            },
            (AddFlow::Choosing, Event::Items(chosen)) => {
                if chosen.len() == 0 {
                    (AddFlow::Done, Action::Finish(Err(GiError::Empty { context: "No files selected" })))
                } else {
                    let count = chosen.len();
                    (AddFlow::Staging { count }, Action::Stage { paths: chosen })
                }
            },
            (AddFlow::Staging { count }, Event::Done) => (
                AddFlow::Closing,
                Action::Print { line: counted("Added ", count, " file(s) to stage") },
            ),
            (AddFlow::Closing, Event::Done) => (AddFlow::Done, Action::Finish(Ok(()))),
            (_, Event::Failed(err)) => (AddFlow::Done, Action::Finish(Err(err))),
            _ => {
                proof {
                    assert(false);
                }
                (AddFlow::Done, Action::Finish(Ok(())))
            },
        }
    }
}

/// A failed step ends the add command with its error.
pub proof fn add_failure_ends(s: AddFlow, err: GiError, t: AddFlow, a: Action)
    requires
        s.moves(Event::Failed(err), t, a),
    ensures
        t is Done,
        a == Action::Finish(Err(err)),
{
}

/// Every step of the add command brings it closer to its end.
pub proof fn add_progresses(s: AddFlow, e: Event, t: AddFlow, a: Action)
    requires
        s.moves(e, t, a),
    ensures
        before_in_progress(t.progress(), s.progress()),
{
}

/// Files are staged only when the user chose some, and exactly those.
pub proof fn add_stages_chosen(s: AddFlow, e: Event, t: AddFlow, a: Action)
    requires
        s.moves(e, t, a),
        a is Stage,
    ensures
        s is Choosing,
        e matches Event::Items(chosen) && chosen@.len() > 0 && a->paths@ == chosen@,
{
}

} // verus!

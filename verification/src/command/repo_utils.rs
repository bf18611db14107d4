use crate::error::GiError;
use crate::flow::{before_in_progress, counted, fails_with, Action, Event};
use crate::repo::{discovery_finds_nearest, discovery_tries_within_depth, lemma_nearest_grows, nearest_repository, walk_reply, Discovery};
use crate::text::decimal;
use vstd::prelude::*;
use vstd::string::*;

verus! {

/// The message of a search that found no repository within `depth` directories.
pub open spec fn not_found_text(depth: usize) -> Seq<char> {
    "No git repository found within "@ + decimal(depth as nat) + " levels"@
}

/// The search for the repository root that `get_repo_root_recursive` makes: the current
/// directory and its ancestors, at most `depth` directories, stopping at the filesystem root.
/// It walks as the [`Discovery`] of `depth - 1` parent directories does, and gives up with
/// its own message.
#[derive(Debug, PartialEq)]
pub enum RootSearch {
    Begin { depth: usize },
    /// Walking up the directories, with the search of `depth - 1` parent directories.
    Searching { depth: usize, search: Discovery },
    Done,
}

/// The search for the root of the repository within `depth` directories.
pub fn get_repo_root_recursive(depth: usize) -> (s: RootSearch)
    ensures
        s == (RootSearch::Begin { depth }),
{
    RootSearch::Begin { depth }
}

impl RootSearch {
    /// The replies that the search waits for.
    pub open spec fn expects(self, e: Event) -> bool {
        match self {
            RootSearch::Begin { .. } => e is Start,
            RootSearch::Searching { search, .. } => search.expects(e),
            RootSearch::Done => false,
        }
    }

    /// The search held walks `depth - 1` parent directories.
    pub open spec fn well_formed(self) -> bool {
        match self {
            RootSearch::Searching { depth, search } => depth >= 1 && search.well_formed()
                && search.searches((depth - 1) as usize),
            _ => true,
        }
    }

    /// The step from `self` on the reply `e` leads to `next` and asks for `a`.
    pub open spec fn moves(self, e: Event, next: RootSearch, a: Action) -> bool {
        match self {
            RootSearch::Begin { depth } => e is Start && if depth == 0 {
                next == RootSearch::Done && fails_with(a, "Seems like not a git repository"@)
            } else {
                next == (RootSearch::Searching {
                    depth,
                    search: Discovery::ReadingDir { max_depth: (depth - 1) as usize },
                }) && a == Action::ReadWorkingDir
            },
            RootSearch::Searching { depth, search } => {
                let (t, b) = search.transition(e);
                &&& search.expects(e)
                &&& if b is Finish {
                    &&& next == RootSearch::Done
                    &&& if !(search is ReadingDir) && Discovery::gives_up(b, (depth - 1) as usize) {
                        fails_with(a, not_found_text(depth))
                    } else {
                        a == b
                    }
                } else {
                    next == (RootSearch::Searching { depth, search: t }) && a == b
                }
            },
            RootSearch::Done => false,
        }
    }

    /// How many more repositories the search may try to open.
    pub open spec fn budget(self) -> nat {
        match self {
            RootSearch::Begin { depth } => depth as nat,
            RootSearch::Searching { search, .. } => search.budget(),
            RootSearch::Done => 0,
        }
    }

    /// How far the search is from its end.
    pub open spec fn progress(self) -> (nat, nat) {
        match self {
            RootSearch::Begin { .. } => (4, 0),
            RootSearch::Searching { search, .. } => search.progress(),
            RootSearch::Done => (0, 0),
        }
    }

    /// Whether the search waits for the reply `e`.
    pub fn accepts(&self, e: &Event) -> (r: bool)
        ensures
            r == self.expects(*e),
    {
        match self {
            RootSearch::Begin { .. } => matches!(e, Event::Start),
            RootSearch::Searching { search, .. } => search.accepts(e),
            RootSearch::Done => false,
        }
    }

    /// Takes the reply to the last step and gives the next one.
    pub fn step(self, e: Event) -> (r: (RootSearch, Action))
        requires
            self.expects(e),
            self.well_formed(),
        ensures
            self.moves(e, r.0, r.1),
            r.0.well_formed(),
    {
        match self {
            RootSearch::Begin { depth } => {
                if depth == 0 {
                    (
                        RootSearch::Done,
                        Action::Finish(
                            Err(GiError::Other("Seems like not a git repository".to_owned())),
                        ),
                    )
                } else {
                    (
                        RootSearch::Searching {
                            depth,
                            search: Discovery::ReadingDir { max_depth: depth - 1 },
                        },
                        Action::ReadWorkingDir,
                    )
                }
            },
            RootSearch::Searching { depth, search } => {
                let reading = matches!(search, Discovery::ReadingDir { .. });
                let (t, b) = search.step(e);
                match b {
                    Action::Finish(result) => {
                        let gave_up = !reading && matches!(
                            result,
                            Err(GiError::NotARepository { .. })
                        );
                        if gave_up {
                            let message = counted(
                                "No git repository found within ",
                                depth,
                                " levels",
                            );
                            (RootSearch::Done, Action::Finish(Err(GiError::Other(message))))
                        } else {
                            (RootSearch::Done, Action::Finish(result))
                        }
                    },
                    b => (RootSearch::Searching { depth, search: t }, b),
                }
            },
            RootSearch::Done => {
                proof {
                    assert(false);
                }
                (RootSearch::Done, Action::Finish(Ok(())))
            },
        }
    }

    /// How the search ends, from the reply `e` at the directory `pos` of a walk up the
    /// directories `opens` (see [`walk_reply`]): whether it found a repository, and the
    /// directory it stopped at; `None` when it does not wait for `e`.
    pub open spec fn run(self, e: Event, pos: nat, opens: Seq<bool>) -> Option<(bool, nat)>
        decreases self.progress().0, self.progress().1,
    {
        if !self.expects(e) || !self.well_formed() {
            None
        } else {
            match self {
                RootSearch::Begin { depth } => if depth == 0 {
                    Some((false, pos))
                } else {
                    let t = RootSearch::Searching {
                        depth,
                        search: Discovery::ReadingDir { max_depth: (depth - 1) as usize },
                    };
                    let (e2, p2) = walk_reply(Action::ReadWorkingDir, pos, opens);
                    t.run(e2, p2, opens)
                },
                RootSearch::Searching { depth, search } => {
                    let (t, b) = search.transition(e);
                    match b {
                        Action::Finish(r) => Some((r is Ok, pos)),
                        _ => {
                            proof {
                                discovery_tries_within_depth(search, e, t, b);
                            }
                            let (e2, p2) = walk_reply(b, pos, opens);
                            (RootSearch::Searching { depth, search: t }).run(e2, p2, opens)
                        },
                    }
                },
                RootSearch::Done => None,
            }
        }
    }
}

/// The search tries at most `depth` directories, none when `depth` is zero.
pub proof fn root_search_within_depth(s: RootSearch, e: Event, t: RootSearch, a: Action)
    requires
        s.well_formed(),
        s.moves(e, t, a),
    ensures
        t.well_formed(),
        a == Action::OpenRepository ==> s.budget() >= 1 && t.budget() == s.budget() - 1,
        a != Action::OpenRepository ==> t.budget() <= s.budget(),
        before_in_progress(t.progress(), s.progress()),
        s == (RootSearch::Begin { depth: 0 }) ==> t is Done && fails_with(
            a,
            "Seems like not a git repository"@,
        ),
{
    if let RootSearch::Searching { search, .. } = s {
        let (u, b) = search.transition(e);
        discovery_tries_within_depth(search, e, u, b);
    }
}

proof fn root_search_follows_discovery(depth: usize, search: Discovery, e: Event, pos: nat, opens: Seq<bool>)
    requires
        (RootSearch::Searching { depth, search }).well_formed(),
    ensures
        (RootSearch::Searching { depth, search }).run(e, pos, opens) == match search.run(e, pos, opens) {
            Some((r, k)) => Some((r is Ok, k)),
            None => None::<(bool, nat)>,
        },
    decreases search.progress().0, search.progress().1,
{
    if search.expects(e) {
        let (t, b) = search.transition(e);
        discovery_tries_within_depth(search, e, t, b);
        if !(b is Finish) {
            let (e2, p2) = walk_reply(b, pos, opens);
            root_search_follows_discovery(depth, t, e2, p2, opens);
        }
    }
}

/// In a walk up directories `opens` from a current directory that can be read, the search of
/// `depth` directories finds the nearest repository among the first `depth` directories, and
/// fails when there is none (at once when `depth` is zero).
pub proof fn root_search_finds_nearest(depth: usize, opens: Seq<bool>)
    requires
        opens.len() >= 1,
    ensures
        ({
            let res = (RootSearch::Begin { depth }).run(Event::Start, 0, opens);
            match nearest_repository(opens, depth as nat) {
                Some(k) => res == Some((true, k)),
                None => res is Some && !res.unwrap().0,
            }
        }),
{
    if depth > 0 {
        let d = (depth - 1) as usize;
        let r = Discovery::ReadingDir { max_depth: d };
        root_search_follows_discovery(depth, r, Event::Done, 0, opens);
        discovery_finds_nearest(d, opens);
        assert((Discovery::Begin { max_depth: d }).run(Event::Start, 0, opens) == r.run(
            Event::Done,
            0,
            opens,
        ));
    }
}

/// A deeper search never loses nor moves the repository root that a shallower one finds in
/// the same directories.
pub proof fn root_search_deeper_finds_same(d1: usize, d2: usize, opens: Seq<bool>, k: nat)
    requires
        d1 <= d2,
        opens.len() >= 1,
        (RootSearch::Begin { depth: d1 }).run(Event::Start, 0, opens) == Some((true, k)),
    ensures
        (RootSearch::Begin { depth: d2 }).run(Event::Start, 0, opens) == Some((true, k)),
{
    root_search_finds_nearest(d1, opens);
    root_search_finds_nearest(d2, opens);
    lemma_nearest_grows(opens, d1 as nat, d2 as nat);
}

/// The outcome of the search follows its steps: a step that ends the search gives the
/// outcome at once, a repository found exactly when the step ends it with `Ok`; any other step
/// leads to the outcome of the state it moves to, on the reply of the directories.
pub proof fn root_search_run_follows_steps(
    s: RootSearch,
    e: Event,
    t: RootSearch,
    a: Action,
    pos: nat,
    opens: Seq<bool>,
)
    requires
        s.well_formed(),
        s.moves(e, t, a),
    ensures
        a matches Action::Finish(r) ==> s.run(e, pos, opens) == Some((r is Ok, pos)),
        !(a is Finish) ==> s.run(e, pos, opens) == t.run(
            walk_reply(a, pos, opens).0,
            walk_reply(a, pos, opens).1,
            opens,
        ),
{
    if let RootSearch::Searching { search, .. } = s {
        let (u, b) = search.transition(e);
        discovery_tries_within_depth(search, e, u, b);
    }
}

} // verus!

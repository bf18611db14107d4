use crate::error::GiError;
use crate::flow::{
    asks_one, before_in_progress, fails_with, framed, git_result, is_git_result, owned_words,
    prints, runs_git, Action, Event, Prompt,
};
use crate::text::{join_words, joined, split_at_first, split_once, split_rejoins};
use vstd::prelude::*;
use vstd::string::*;

verus! {

/// Merge options.
#[derive(Clone, Copy, Debug, PartialEq, Eq)]
pub struct MergeOptions {
    /// Create a merge commit even for a fast-forward.
    pub no_ff: bool,
    /// Squash the commits: stage the changes without committing.
    pub squash: bool,
}

impl Default for MergeOptions {
    fn default() -> (r: MergeOptions)
        ensures
            !r.no_ff,
            !r.squash,
    {
        MergeOptions { no_ff: false, squash: false }
    }
}

/// Merge a branch into current branch.
#[derive(Debug, PartialEq)]
pub struct Merge;

/// The branches other than the current one, in order.
pub open spec fn other_branches(branches: Seq<Seq<char>>, current: Seq<char>) -> Seq<Seq<char>>
    decreases branches.len(),
{
    if branches.len() == 0 {
        seq![]
    } else if branches.last() == current {
        other_branches(branches.drop_last(), current)
    } else {
        other_branches(branches.drop_last(), current).push(branches.last())
    }
}

/// The arguments of the `git merge` that merges the branch with the options.
pub open spec fn merge_args(options: MergeOptions, branch: Seq<char>) -> Seq<Seq<char>> {
    seq!["merge"@] + (if options.no_ff {
        seq!["--no-ff"@]
    } else {
        seq![]
    }) + (if options.squash {
        seq!["--squash"@]
    } else {
        seq![]
    }) + seq![branch]
}

/// The options of the prompt for a merge in progress.
pub open spec fn resolution_options() -> Seq<Seq<char>> {
    seq!["Continue (commit)"@, "Abort merge"@]
}

/// The arguments that settle a merge in progress, from the user's choice.
pub open spec fn resolution_args(choice: Seq<char>) -> Seq<Seq<char>> {
    if choice == "Abort merge"@ {
        seq!["merge"@, "--abort"@]
    } else {
        seq!["commit"@, "--no-edit"@]
    }
}

impl Merge {
    /// The merge command with the options.
    pub fn start(options: MergeOptions) -> (f: MergeFlow)
        ensures
            f == (MergeFlow::Begin { options }),
    {
        MergeFlow::Begin { options }
    }

    /// The branches that can be merged into the current one: all but the current one.
    pub fn candidates(branches: Vec<String>, current: &String) -> (r: Vec<String>)
        ensures
            r.deep_view() == other_branches(branches.deep_view(), current@),
    {
        let mut r: Vec<String> = Vec::new();
        let mut i: usize = 0;
        let ghost all = branches.deep_view();
        while i < branches.len()
            invariant
                i <= branches@.len(),
                all == branches.deep_view(),
                r.deep_view() == other_branches(all.take(i as int), current@),
            decreases branches@.len() - i,
        {
            assert(all.take(i + 1).drop_last() =~= all.take(i as int));
            assert(all.take(i + 1).last() == branches@[i as int]@);
            if branches[i] != *current {
                let ghost prev = r.deep_view();
                r.push(branches[i].clone());
                assert(r.deep_view() =~= prev.push(branches@[i as int]@));
            }
            i = i + 1;
        }
        assert(all.take(branches@.len() as int) =~= all);
        r
    }

    /// The arguments of the `git merge` of `branch` with the options.
    pub fn merge_args(options: MergeOptions, branch: &str) -> (r: Vec<String>)
        ensures
            r.deep_view() == merge_args(options, branch@),
    {
        let mut r: Vec<String> = Vec::new();
        r.push("merge".to_owned());
        if options.no_ff {
            r.push("--no-ff".to_owned());
        }
        if options.squash {
            r.push("--squash".to_owned());
        }
        r.push(branch.to_owned());
        assert(r.deep_view() =~= merge_args(options, branch@));
        r
    }
}

/// Where the merge command stands.
#[derive(Debug, PartialEq)]
pub enum MergeFlow {
    Begin { options: MergeOptions },
    /// Waiting for the name of the current branch.
    ReadingHead { options: MergeOptions },
    /// Waiting to know whether a merge is in progress.
    CheckingProgress { options: MergeOptions, current: String },
    /// Waiting for the user's choice about the merge in progress.
    Resolving,
    /// Waiting for the `git` run that settles the merge in progress.
    Settling { label: String },
    /// Waiting for the branch names, remote ones included.
    Listing { options: MergeOptions, current: String },
    /// Waiting for the branch that the user chose.
    Choosing { options: MergeOptions },
    /// Waiting for the announcement that the remote branch is fetched.
    Announcing { options: MergeOptions, selected: String, remote: String, branch: String },
    /// Waiting for `git fetch` of the remote branch.
    Fetching { options: MergeOptions, selected: String, label: String },
    /// Waiting for `git merge`.
    Merging { squash: bool, label: String },
    /// Waiting for the first note on the squash merge to be printed.
    NotingSquash,
    /// Waiting for the last line to be printed.
    Closing,
    Done,
}

/// `label` names the `git` run of these arguments.
pub open spec fn labels(label: String, args: Seq<Seq<char>>) -> bool {
    label@ == joined(args, " "@)
}

impl MergeFlow {
    /// The replies that the command waits for.
    pub open spec fn expects(self, e: Event) -> bool {
        match self {
            MergeFlow::Begin { .. } => e is Start,
            MergeFlow::ReadingHead { .. } => e is Head || e is Failed,
            MergeFlow::CheckingProgress { .. } => e is Answer,
            MergeFlow::Resolving => e is Chosen || e is Failed,
            MergeFlow::Settling { .. } => e is GitExited || e is Failed,
            MergeFlow::Listing { .. } => e is Items || e is Failed,
            MergeFlow::Choosing { .. } => e is Chosen || e is Failed,
            MergeFlow::Announcing { .. } => e is Done,
            MergeFlow::Fetching { .. } => e is GitExited || e is Failed,
            MergeFlow::Merging { .. } => e is GitExited || e is Failed,
            MergeFlow::NotingSquash => e is Done,
            MergeFlow::Closing => e is Done,
            MergeFlow::Done => false,
        }
    }

    /// The merge of `selected` starts: `next` waits for it and `a` runs it.
    pub open spec fn merges(options: MergeOptions, selected: String, next: MergeFlow, a: Action) -> bool {
        &&& next matches MergeFlow::Merging { squash, label }
        &&& squash == options.squash
        &&& labels(label, merge_args(options, selected@))
        &&& runs_git(a, merge_args(options, selected@))
    }

    /// The step from `self` on the reply `e` leads to `next` and asks for `a`.
    pub open spec fn moves(self, e: Event, next: MergeFlow, a: Action) -> bool {
        match (self, e) {
            (MergeFlow::Begin { options }, Event::Start) => next == (MergeFlow::ReadingHead {
                options,
            }) && a == Action::ReadHead,
            (MergeFlow::ReadingHead { options }, Event::Head(head)) => match head {
                Some(current) => next == (MergeFlow::CheckingProgress { options, current }) && a
                    == Action::CheckMergeInProgress,
                None => next == MergeFlow::Done && fails_with(a, "HEAD is not a branch"@),
            },
            (MergeFlow::CheckingProgress { options, current }, Event::Answer(in_progress)) =>
                if in_progress {
                next == MergeFlow::Resolving && asks_one(
                    a,
                    "Merge in progress. What do you want to do?"@,
                    resolution_options(),
                )
            } else {
                next == (MergeFlow::Listing { options, current }) && a == Action::ListBranches {
                    include_remote: true,
                }
            },
            (MergeFlow::Resolving, Event::Chosen(choice)) => {
                &&& next matches MergeFlow::Settling { label }
                &&& labels(label, resolution_args(choice@))
                &&& runs_git(a, resolution_args(choice@))
            },
            (MergeFlow::Settling { label }, Event::GitExited { success, code }) => {
                &&& next == MergeFlow::Done
                &&& a matches Action::Finish(r)
                &&& is_git_result(r, label@, success, code)
            },
            (MergeFlow::Listing { options, current }, Event::Items(branches)) => {
                let candidates = other_branches(branches.deep_view(), current@);
                if candidates.len() == 0 {
                    next == MergeFlow::Done && a == Action::Finish(
                        Err(GiError::Empty { context: "No branches to merge" }),
                    )
                } else {
                    next == (MergeFlow::Choosing { options }) && asks_one(
                        a,
                        "Select branch to merge into '"@ + current@ + "'"@,
                        candidates,
                    )
                }
            },
            (MergeFlow::Choosing { options }, Event::Chosen(selected)) => match split_at_first(
                selected@,
                '/',
            ) {
                Some((remote, branch)) => {
                    &&& next matches MergeFlow::Announcing {
                        options: o,
                        selected: s,
                        remote: r,
                        branch: b,
                    }
                    &&& o == options && s == selected && r@ == remote && b@ == branch
                    &&& prints(a, "Fetching '"@ + selected@ + "'..."@)
                },
                None => Self::merges(options, selected, next, a),
            },
            (MergeFlow::Announcing { options, selected, remote, branch }, Event::Done) => {
                let args = seq!["fetch"@, remote@, branch@];
                &&& next matches MergeFlow::Fetching { options: o, selected: s, label }
                &&& o == options && s == selected && labels(label, args)
                &&& runs_git(a, args)
            },
            (MergeFlow::Fetching { options, selected, label }, Event::GitExited { success, code }) =>
                if success {
                Self::merges(options, selected, next, a)
            } else {
                &&& next == MergeFlow::Done
                &&& a matches Action::Finish(r)
                &&& is_git_result(r, label@, success, code)
            },
            (MergeFlow::Merging { squash, label }, Event::GitExited { success, code }) => if !success {
                &&& next == MergeFlow::Done
                &&& a matches Action::Finish(r)
                &&& is_git_result(r, label@, success, code)
            } else if squash {
                next == MergeFlow::NotingSquash && prints(
                    a,
                    "Squash merge completed. Changes are staged but not committed."@,
                )
            } else {
                next == MergeFlow::Done && a == Action::Finish(Ok(()))
            },
            (MergeFlow::NotingSquash, Event::Done) => next == MergeFlow::Closing && prints(
                a,
                "Run 'gi c' to commit."@,
            ),
            (MergeFlow::Closing, Event::Done) => next == MergeFlow::Done && a == Action::Finish(
                Ok(()),
            ),
            (_, Event::Failed(err)) => self.expects(Event::Failed(err)) && next == MergeFlow::Done
                && a == Action::Finish(Err(err)),
            _ => false,
        }
    }

    /// How far the command is from its end.
    pub open spec fn progress(self) -> (nat, nat) {
        match self {
            MergeFlow::Begin { .. } => (10, 0),
            MergeFlow::ReadingHead { .. } => (9, 0),
            MergeFlow::CheckingProgress { .. } => (8, 0),
            MergeFlow::Resolving => (2, 0),
            MergeFlow::Settling { .. } => (1, 0),
            MergeFlow::Listing { .. } => (7, 0),
            MergeFlow::Choosing { .. } => (6, 0),
            MergeFlow::Announcing { .. } => (5, 0),
            MergeFlow::Fetching { .. } => (4, 0),
            MergeFlow::Merging { .. } => (3, 0),
            MergeFlow::NotingSquash => (2, 0),
            MergeFlow::Closing => (1, 0),
            MergeFlow::Done => (0, 0),
        }
    }

    /// Whether the command waits for the reply `e`.
    pub fn accepts(&self, e: &Event) -> (r: bool)
        ensures
            r == self.expects(*e),
    {
        match self {
            MergeFlow::Begin { .. } => matches!(e, Event::Start),
            MergeFlow::ReadingHead { .. } => matches!(e, Event::Head { .. }) || matches!(e, Event::Failed { .. }),
            MergeFlow::CheckingProgress { .. } => matches!(e, Event::Answer { .. }),
            MergeFlow::Resolving => matches!(e, Event::Chosen { .. }) || matches!(e, Event::Failed { .. }),
            MergeFlow::Settling { .. } => matches!(e, Event::GitExited { .. }) || matches!(e, Event::Failed { .. }),
            MergeFlow::Listing { .. } => matches!(e, Event::Items { .. }) || matches!(e, Event::Failed { .. }),
            MergeFlow::Choosing { .. } => matches!(e, Event::Chosen { .. }) || matches!(e, Event::Failed { .. }),
            MergeFlow::Announcing { .. } => matches!(e, Event::Done),
            MergeFlow::Fetching { .. } => matches!(e, Event::GitExited { .. }) || matches!(e, Event::Failed { .. }),
            MergeFlow::Merging { .. } => matches!(e, Event::GitExited { .. }) || matches!(e, Event::Failed { .. }),
            MergeFlow::NotingSquash => matches!(e, Event::Done),
            MergeFlow::Closing => matches!(e, Event::Done),
            MergeFlow::Done => false,
        }
    }

    fn start_merge(options: MergeOptions, selected: String) -> (r: (MergeFlow, Action))
        ensures
            Self::merges(options, selected, r.0, r.1),
    {
        let args = Merge::merge_args(options, selected.as_str());
        let label = join_words(&args);
        (MergeFlow::Merging { squash: options.squash, label }, Action::RunGit { args })
    }

    /// Takes the reply to the last step and gives the next one.
    pub fn step(self, e: Event) -> (r: (MergeFlow, Action))
        requires
            self.expects(e),
        ensures
            self.moves(e, r.0, r.1),
    {
        match (self, e) {
            (MergeFlow::Begin { options }, Event::Start) => (
                MergeFlow::ReadingHead { options },
                Action::ReadHead,
            ),
            (MergeFlow::ReadingHead { options }, Event::Head(head)) => match head {
                Some(current) => (
                    MergeFlow::CheckingProgress { options, current },
                    Action::CheckMergeInProgress,
                ),
                None => (
                    MergeFlow::Done,
                    Action::Finish(Err(GiError::Other("HEAD is not a branch".to_owned()))),
                ),
            },
            (MergeFlow::CheckingProgress { options, current }, Event::Answer(in_progress)) => {
                if in_progress {
                    let options = owned_words(&["Continue (commit)", "Abort merge"]);
                    assert(options.deep_view() =~= resolution_options());
                    (
                        MergeFlow::Resolving,
                        Action::Ask(
                            Prompt::Select {
                                message: "Merge in progress. What do you want to do?".to_owned(),
                                options,
                            },
                        ),
                    )
                } else {
                    (
                        MergeFlow::Listing { options, current },
                        Action::ListBranches { include_remote: true },
                    )
                }
            },
            (MergeFlow::Resolving, Event::Chosen(choice)) => {
                let args = if choice == "Abort merge".to_owned() {
                    owned_words(&["merge", "--abort"])
                } else {
                    owned_words(&["commit", "--no-edit"])
                };
                assert(args.deep_view() =~= resolution_args(choice@));
                let label = join_words(&args);
                (MergeFlow::Settling { label }, Action::RunGit { args })
            },
            (MergeFlow::Settling { label }, Event::GitExited { success, code }) => (
                MergeFlow::Done,
                Action::Finish(git_result(label.as_str(), success, code)),
            ),
            (MergeFlow::Listing { options, current }, Event::Items(branches)) => {
                let candidates = Merge::candidates(branches, &current);
                if candidates.len() == 0 {
                    (
                        MergeFlow::Done,
                        Action::Finish(Err(GiError::Empty { context: "No branches to merge" })),
                    )
                } else {
                    let message = framed("Select branch to merge into '", current.as_str(), "'");
                    (
                        MergeFlow::Choosing { options },
                        Action::Ask(Prompt::Select { message, options: candidates }),
                    )
                }
            },
            (MergeFlow::Choosing { options }, Event::Chosen(selected)) => {
                match split_once(selected.as_str(), '/') {
                    Some((remote, branch)) => {
                        let line = framed("Fetching '", selected.as_str(), "'...");
                        (
                            MergeFlow::Announcing { options, selected, remote, branch },
                            Action::Print { line },
                        )
                    },
                    None => Self::start_merge(options, selected),
                }
            },
            (MergeFlow::Announcing { options, selected, remote, branch }, Event::Done) => {
                let mut args: Vec<String> = Vec::new();
                args.push("fetch".to_owned());
                args.push(remote);
                args.push(branch);
                assert(args.deep_view() =~= seq!["fetch"@, remote@, branch@]);
                let label = join_words(&args);
                (MergeFlow::Fetching { options, selected, label }, Action::RunGit { args })
            },
            (MergeFlow::Fetching { options, selected, label }, Event::GitExited { success, code }) => {
                if success {
                    Self::start_merge(options, selected)
                } else {
                    (MergeFlow::Done, Action::Finish(git_result(label.as_str(), success, code)))
                }
            },
            (MergeFlow::Merging { squash, label }, Event::GitExited { success, code }) => {
                if !success {
                    (MergeFlow::Done, Action::Finish(git_result(label.as_str(), success, code)))
                } else if squash {
                    (
                        MergeFlow::NotingSquash,
                        Action::Print {
                            line: "Squash merge completed. Changes are staged but not committed.".to_owned(),
                        },
                    )
                } else {
                    (MergeFlow::Done, Action::Finish(Ok(())))
                }
            },
            (MergeFlow::NotingSquash, Event::Done) => (
                MergeFlow::Closing,
                Action::Print { line: "Run 'gi c' to commit.".to_owned() },
            ),
            (MergeFlow::Closing, Event::Done) => (MergeFlow::Done, Action::Finish(Ok(()))),
            (_, Event::Failed(err)) => (MergeFlow::Done, Action::Finish(Err(err))),
            _ => {
                proof {
                    assert(false);
                }
                (MergeFlow::Done, Action::Finish(Ok(())))
            },
        }
    }
}

/// A failed step ends the merge command with its error.
pub proof fn merge_failure_ends(s: MergeFlow, err: GiError, t: MergeFlow, a: Action)
    requires
        s.moves(Event::Failed(err), t, a),
    ensures
        t is Done,
        a == Action::Finish(Err(err)),
{
}

/// Every step of the merge command brings it closer to its end.
pub proof fn merge_progresses(s: MergeFlow, e: Event, t: MergeFlow, a: Action)
    requires
        s.moves(e, t, a),
    ensures
        before_in_progress(t.progress(), s.progress()),
{
}

/// The branches offered for a merge are those listed, in order, without the current one.
pub proof fn candidates_exclude_current(branches: Seq<Seq<char>>, current: Seq<char>)
    ensures
        forall|i: int|
            0 <= i < other_branches(branches, current).len() ==> #[trigger] other_branches(
                branches,
                current,
            )[i] != current && branches.contains(other_branches(branches, current)[i]),
        forall|b: Seq<char>| #[trigger] branches.contains(b) && b != current ==> other_branches(
            branches,
            current,
        ).contains(b),
    decreases branches.len(),
{
    if branches.len() > 0 {
        let rest = branches.drop_last();
        candidates_exclude_current(rest, current);
        let o = other_branches(branches, current);
        let p = other_branches(rest, current);
        assert forall|i: int| 0 <= i < o.len() implies #[trigger] o[i] != current
            && branches.contains(o[i]) by {
            if i < p.len() {
                assert(o[i] == p[i]);
                let k = choose|k: int| 0 <= k < rest.len() && rest[k] == p[i];
                assert(branches[k] == rest[k]);
            } else {
                assert(o[i] == branches.last());
                assert(branches[branches.len() - 1] == o[i]);
            }
        }
        assert forall|b: Seq<char>| #[trigger] branches.contains(b) && b != current implies o.contains(
            b,
        ) by {
            let k = choose|k: int| 0 <= k < branches.len() && branches[k] == b;
            if k < branches.len() - 1 {
                assert(rest[k] == b);
                assert(rest.contains(b));
                let j = choose|j: int| 0 <= j < p.len() && p[j] == b;
                assert(o[j] == b);
            } else {
                assert(o[o.len() - 1] == b);
            }
        }
    }
}

/// A merge asks for a merge commit (`--no-ff`) exactly when the options say so, squashes
/// exactly when they say so, and merges the branch chosen.
pub proof fn merge_follows_options(options: MergeOptions, branch: Seq<char>)
    ensures
        merge_args(options, branch)[0] == "merge"@,
        merge_args(options, branch).last() == branch,
        merge_args(options, branch).drop_last().contains("--no-ff"@) <==> options.no_ff,
        merge_args(options, branch).drop_last().contains("--squash"@) <==> options.squash,
{
    reveal_strlit("merge");
    reveal_strlit("--no-ff");
    reveal_strlit("--squash");
    let args = merge_args(options, branch);
    let front = args.drop_last();
    if options.no_ff {
        assert(front[1] == "--no-ff"@);
    } else {
        assert forall|i: int| 0 <= i < front.len() implies front[i] != "--no-ff"@ by {
            if i == 0 {
                assert(front[i][0] != "--no-ff"@[0]);
            } else {
                assert(front[i] == "--squash"@);
                assert(front[i][2] != "--no-ff"@[2]);
            }
        }
    }
    if options.squash {
        assert(front[front.len() - 1] == "--squash"@);
    } else {
        assert forall|i: int| 0 <= i < front.len() implies front[i] != "--squash"@ by {
            if i == 0 {
                assert(front[i][0] != "--squash"@[0]);
            } else {
                assert(front[i] == "--no-ff"@);
                assert(front[i][2] != "--squash"@[2]);
            }
        }
    }
}

/// A branch chosen with a `/` in its name is fetched before it is merged: from the remote
/// named before the first `/`, the branch named after it, so that the two with the `/` make
/// up the name chosen.
pub proof fn merge_fetches_chosen_remote(s: MergeFlow, e: Event, t: MergeFlow, a: Action)
    requires
        s.moves(e, t, a),
    ensures
        t matches MergeFlow::Announcing { selected, remote, branch, .. } ==> {
            &&& remote@ + seq!['/'] + branch@ == selected@
            &&& !remote@.contains('/')
            &&& e == Event::Chosen(selected)
        },
        s is Choosing ==> ((e matches Event::Chosen(selected) && selected@.contains('/'))
            ==> t is Announcing),
{
    if let (MergeFlow::Choosing { .. }, Event::Chosen(selected)) = (s, e) {
        split_rejoins(selected@, '/');
    }
}

} // verus!

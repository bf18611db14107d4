//! The steps that a command asks of its surroundings, and what comes back.
//!
//! A command is a state machine: each call of its `step` takes the reply to the step it
//! asked for last (an [`Event`]) and answers with the next step to take (an [`Action`]),
//! until it asks to [`Action::Finish`].
use crate::error::GiError;
use crate::text::{decimal, signed_decimal, joined, push_decimal, push_signed_decimal};
use vstd::prelude::*;
use vstd::string::*;

verus! {

/// A question put to the user.
#[derive(Debug, PartialEq)]
pub enum Prompt {
    /// Choose one of the options.
    Select { message: String, options: Vec<String> },
    /// Choose any number of the options.
    MultiSelect { message: String, options: Vec<String> },
    /// Type a line of text.
    Text { message: String, help: Option<String> },
}

/// A step that a command asks to be taken.
#[derive(Debug, PartialEq)]
pub enum Action {
    /// List the files with unstaged changes; reply `Items`.
    ListUnstaged,
    /// List the branch names (local ones only, or remote ones too); reply `Items`.
    ListBranches { include_remote: bool },
    /// Tell whether the index holds staged changes; reply `Answer`.
    CheckStaged,
    /// Read the short name of HEAD; reply `Head`.
    ReadHead,
    /// Tell whether the local branch has an upstream; reply `Answer`.
    CheckUpstream { branch: String },
    /// Tell whether a merge is in progress; reply `Answer`.
    CheckMergeInProgress,
    /// Ask the user; reply `Chosen` (select, text) or `Items` (multi-select).
    Ask(Prompt),
    /// Stage the files that match the paths; reply `Done`.
    Stage { paths: Vec<String> },
    /// Delete the local branch; reply `Done`.
    DeleteBranch { name: String },
    /// Check out the branch; reply `Done`.
    SwitchTo { branch: String },
    /// Commit the staged changes with the message; reply `Done`.
    CreateCommit { message: String },
    /// Run `git` with the arguments of a hook run in the working directory, keeping its error
    /// output; reply `HookExited`.
    RunHook { args: Vec<String> },
    /// Run `git` with the arguments in the working directory; reply `GitExited`.
    RunGit { args: Vec<String> },
    /// Print the line; reply `Done`.
    Print { line: String },
    /// Read the current directory; reply `Done`.
    ReadWorkingDir,
    /// Try to open a repository at the directory reached; reply `Answer`.
    OpenRepository,
    /// Move to the parent directory; reply `Answer` (false when there is none).
    MoveToParent,
    /// The command is over, with this result.
    Finish(Result<(), GiError>),
}

/// The reply to an action.
#[derive(Debug, PartialEq)]
pub enum Event {
    /// The command starts.
    Start,
    /// A list of texts.
    Items(Vec<String>),
    /// A yes or no.
    Answer(bool),
    /// The short name of HEAD, `None` when HEAD is not a branch.
    Head(Option<String>),
    /// The option chosen or the text entered.
    Chosen(String),
    /// The action is done.
    Done,
    /// `git` exited.
    GitExited { success: bool, code: Option<i32> },
    /// The hook exited, with what it wrote to its error output.
    HookExited { success: bool, stderr: String },
    /// The action failed.
    Failed(GiError),
}

/// A reply that a run can give: a list holds no more items than memory can.
pub open spec fn valid_event(e: Event) -> bool {
    match e {
        Event::Items(v) => v@.len() <= usize::MAX,
        _ => true,
    }
}

/// `a` prints the line.
pub open spec fn prints(a: Action, line: Seq<char>) -> bool {
    a matches Action::Print { line: l } && l@ == line
}

/// `a` asks the user to choose one of the options.
pub open spec fn asks_one(a: Action, message: Seq<char>, options: Seq<Seq<char>>) -> bool {
    a matches Action::Ask(Prompt::Select { message: m, options: o }) && m@ == message
        && o.deep_view() == options
}

/// `a` asks the user to choose any of the options.
pub open spec fn asks_many(a: Action, message: Seq<char>, options: Seq<Seq<char>>) -> bool {
    a matches Action::Ask(Prompt::MultiSelect { message: m, options: o }) && m@ == message
        && o.deep_view() == options
}

/// `a` runs `git` with these arguments.
pub open spec fn runs_git(a: Action, args: Seq<Seq<char>>) -> bool {
    a matches Action::RunGit { args: v } && v.deep_view() == args
}

/// `a` ends the command with the error message.
pub open spec fn fails_with(a: Action, message: Seq<char>) -> bool {
    a matches Action::Finish(Err(GiError::Other(m))) && m@ == message
}

/// How `{:?}` prints an exit code.
pub open spec fn exit_code_text(code: Option<i32>) -> Seq<char> {
    match code {
        Some(c) => "Some("@ + signed_decimal(c as int) + ")"@,
        None => "None"@,
    }
}

/// The message of a `git` run that failed, `label` standing for the command run.
pub open spec fn git_failure_text(label: Seq<char>, code: Option<i32>) -> Seq<char> {
    "git "@ + label + " failed (exit code: "@ + exit_code_text(code) + ")"@
}

/// `r` is the result of a `git` run: success, or the failure with its exit code.
pub open spec fn is_git_result(
    r: Result<(), GiError>,
    label: Seq<char>,
    success: bool,
    code: Option<i32>,
) -> bool {
    if success {
        r is Ok
    } else {
        r matches Err(GiError::Other(m)) && m@ == git_failure_text(label, code)
    }
}

/// The result of a `git` run: `Ok` when it succeeded, else the error that names the command
/// (`label`) and the exit code.
pub fn git_result(label: &str, success: bool, code: Option<i32>) -> (r: Result<(), GiError>)
    ensures
        is_git_result(r, label@, success, code),
{
    if success {
        return Ok(());
    }
    let mut m = String::new();
    m.append("git ");
    m.append(label);
    m.append(" failed (exit code: ");
    match code {
        Some(c) => {
            m.append("Some(");
            push_signed_decimal(&mut m, c);
            m.append(")");
        },
        None => {
            m.append("None");
        },
    }
    m.append(")");
    assert(m@ =~= git_failure_text(label@, code));
    Err(GiError::Other(m))
}

/// A text made of a literal, a text, and a literal.
pub fn framed(before: &str, middle: &str, after: &str) -> (r: String)
    ensures
        r@ == before@ + middle@ + after@,
{
    let mut r = String::new();
    r.append(before);
    r.append(middle);
    r.append(after);
    assert(r@ =~= before@ + middle@ + after@);
    r
}

/// A text made of a literal, a count in decimal, and a literal.
pub fn counted(before: &str, n: usize, after: &str) -> (r: String)
    ensures
        r@ == before@ + decimal(n as nat) + after@,
{
    let mut r = String::new();
    r.append(before);
    push_decimal(&mut r, n as u64);
    r.append(after);
    assert(r@ =~= before@ + decimal(n as nat) + after@);
    r
}

/// The texts as owned strings.
pub fn owned_words(words: &[&str]) -> (r: Vec<String>)
    ensures
        r.deep_view() == words@.map_values(|w: &str| w@),
{
    let mut r: Vec<String> = Vec::new();
    let mut i: usize = 0;
    while i < words.len()
        invariant
            i <= words@.len(),
            r.deep_view() == words@.take(i as int).map_values(|w: &str| w@),
        decreases words@.len() - i,
    {
        let w: &str = words[i];
        let owned = w.to_owned();
        assert(owned@ == words@[i as int]@);
        let ghost prev = r.deep_view();
        r.push(owned);
        assert(r.deep_view() =~= prev.push(owned@));
        assert(words@.take(i + 1).map_values(|w: &str| w@) =~= words@.take(i as int).map_values(
            |w: &str| w@,
        ).push(words@[i as int]@));
        i = i + 1;
    }
    assert(words@.take(words@.len() as int) =~= words@);
    r
}

/// A lexicographic order on pairs of counts, by which every command makes progress.
pub open spec fn before_in_progress(a: (nat, nat), b: (nat, nat)) -> bool {
    a.0 < b.0 || (a.0 == b.0 && a.1 < b.1)
}

} // verus!

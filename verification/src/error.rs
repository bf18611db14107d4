use vstd::prelude::*;

verus! {

/// The error reported by libgit2 through the `git2` crate; carried through unchanged.
#[verifier::external_type_specification]
#[verifier::external_body]
pub struct ExGitError(git2::Error);

/// Errors of the `gi` commands.
#[derive(Debug, PartialEq)]
pub enum GiError {
    /// No repository was found in the directories searched.
    NotARepository { depth: usize },
    /// A git operation failed.
    Git(git2::Error),
    /// The user cancelled an interactive prompt.
    Cancelled,
    /// There was nothing to choose from, or nothing was chosen.
    Empty { context: &'static str },
    /// Any other failure, with its message.
    Other(String),
}


/// How a prompt failed.
#[derive(Debug, PartialEq)]
pub enum PromptFailure {
    /// The user cancelled the prompt (ESC).
    Canceled,
    /// The user interrupted the prompt (Ctrl+C).
    Interrupted,
    /// Any other failure of the prompt, with its message.
    Other(String),
}

impl From<PromptFailure> for GiError {
    /// A cancelled or interrupted prompt is a cancellation; any other failure keeps its
    /// message.
    fn from(failure: PromptFailure) -> (r: GiError) {
        match failure {
            PromptFailure::Canceled => GiError::Cancelled,
            PromptFailure::Interrupted => GiError::Cancelled,
            PromptFailure::Other(message) => GiError::Other(message),
        }
    }
}

impl vstd::std_specs::convert::FromSpecImpl<PromptFailure> for GiError {
    open spec fn obeys_from_spec() -> bool {
        true
    }

    open spec fn from_spec(failure: PromptFailure) -> GiError {
        match failure {
            PromptFailure::Canceled => GiError::Cancelled,
            PromptFailure::Interrupted => GiError::Cancelled,
            PromptFailure::Other(message) => GiError::Other(message),
        }
    }
}

} // verus!

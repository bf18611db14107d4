//! What the prompts decide once the user has answered.
use crate::command::commit::Commit;
use crate::error::GiError;
use crate::text::trimmed;
use vstd::prelude::*;

verus! {

/// The outcome of a prompt for required text: the text entered, or `None` when it is blank;
/// an error of the prompt is passed on.
pub fn required_text(entered: Result<String, GiError>) -> (r: Result<Option<String>, GiError>)
    ensures
        match entered {
            Err(e) => r == Err::<Option<String>, GiError>(e),
            Ok(s) => r == Ok::<Option<String>, GiError>(
                if trimmed(s@).len() == 0 { None } else { Some(s) },
            ),
        },
{
    match entered {
        Err(e) => Err(e),
        Ok(s) => Ok(Commit::normalize_message(s)),
    }
}

} // verus!

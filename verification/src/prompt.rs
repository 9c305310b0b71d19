//! Prompt validation: what may be handed to the backend at all.

use crate::error::{Error, Failure};
use crate::text::has_nul;
use vstd::prelude::*;

verus! {

/// Why a prompt is refused, if it is: an empty prompt first, then a prompt
/// that holds the terminator character U+0000.
pub open spec fn prompt_defect(prompt: Seq<char>) -> Option<Seq<char>> {
    if prompt.len() == 0 {
        Some("Prompt cannot be empty"@)
    } else if prompt.contains('\0') {
        Some("Prompt contains null byte"@)
    } else {
        None
    }
}

/// A prompt that may cross the boundary: non-empty and free of terminators.
pub open spec fn valid_prompt(prompt: Seq<char>) -> bool {
    prompt_defect(prompt) is None
}

/// Accepts a usable prompt and refuses every other with `InvalidInput`.
pub fn validate_prompt(prompt: &str) -> (checked: Result<(), Error>)
    ensures
        checked is Ok <==> valid_prompt(prompt@),
        checked matches Err(e) ==> prompt_defect(prompt@) matches Some(reason)
            && e@ == Failure::InvalidInput(reason),
{
    if prompt.is_empty() {
        Err(Error::InvalidInput(String::from_str("Prompt cannot be empty")))
    } else if has_nul(prompt) {
        Err(Error::InvalidInput(String::from_str("Prompt contains null byte")))
    } else {
        Ok(())
    }
}

} // verus!

//! The prompt sent to the model.

use vstd::prelude::*;

verus! {

/// What the prompt says before the technology.
pub const PROMPT_OPENING: &'static str = "Suggest three libraries for ";

/// What the prompt says between the technology and the purpose.
pub const PROMPT_LINK: &'static str = " to ";

/// What the prompt says after the purpose.
pub const PROMPT_CLOSING: &'static str =
    " with short descriptions. Provide them in a numbered list. Be concise and clear.";

/// The prompt for a technology and a purpose: the fixed sentence with both
/// texts put in as they are.
pub open spec fn prompt_text(technology: Seq<char>, purpose: Seq<char>) -> Seq<char> {
    PROMPT_OPENING@ + technology + PROMPT_LINK@ + purpose + PROMPT_CLOSING@
}

/// Builds the prompt. Every text is accepted, the empty one too, and nothing
/// in it is escaped.
pub fn build_prompt(technology: &str, purpose: &str) -> (prompt: String)
    ensures
        prompt@ == prompt_text(technology@, purpose@),
{
    let mut prompt = String::from_str(PROMPT_OPENING);
    prompt.append(technology);
    prompt.append(PROMPT_LINK);
    prompt.append(purpose);
    prompt.append(PROMPT_CLOSING);
    prompt
}

} // verus!

//! Context budget: how many tokens a session may hold in all.

use vstd::prelude::*;
use crate::errors::ServeError;

verus! {

/// The total token budget (prompt plus generated) for a prompt of
/// `prompt` tokens, a request for `requested` new tokens and a context
/// window of `window` tokens.
pub open spec fn spec_generation_limit(prompt: int, requested: int, window: int) -> int {
    if requested <= window - prompt {
        prompt + requested
    } else {
        window
    }
}

/// The budget of a prompt that fits lies between the prompt and the
/// window, whatever is requested.
pub proof fn lemma_limit_within_window(prompt: int, requested: int, window: int)
    requires
        0 <= prompt <= window,
        0 <= requested,
    ensures
        prompt <= spec_generation_limit(prompt, requested, window) <= window,
        spec_generation_limit(prompt, requested, window) - prompt <= requested,
{
}

/// Computes the total token budget of a session, or refuses a prompt that
/// does not fit the context window by itself.
pub fn generation_limit(prompt_token_count: usize, requested_max_tokens: u32, context_window: u32) -> (r: Result<u32, ServeError>)
    ensures
        prompt_token_count > context_window <==> r == Err::<u32, ServeError>(ServeError::PromptTooLarge),
        prompt_token_count <= context_window ==> r == Ok::<u32, ServeError>(
            spec_generation_limit(prompt_token_count as int, requested_max_tokens as int, context_window as int) as u32),
        r matches Ok(limit) ==> prompt_token_count <= limit <= context_window,
{
    if prompt_token_count > context_window as usize {
        return Err(ServeError::PromptTooLarge);
    }
    let prompt: u32 = prompt_token_count as u32;
    let room: u32 = context_window - prompt;
    if requested_max_tokens <= room {
        Ok(prompt + requested_max_tokens)
    } else {
        Ok(context_window)
    }
}

} // verus!

//! What a session is to be opened with: its token budget, its context and
//! its seed.

use vstd::prelude::*;
use crate::budget::{generation_limit, spec_generation_limit};
use crate::config::ModelConfig;
use crate::errors::ServeError;
use crate::seed::random_seed;
use crate::session::{GenerationSession, SessionView};
use crate::text::texts_of;

verus! {

/// The tokens asked for where a completion request names no number.
pub const DEFAULT_MAX_TOKENS: i32 = 32;

/// The tokens asked for where neither a chat request nor its model names
/// a number.
pub const DEFAULT_CHAT_MAX_TOKENS: i32 = 512;

/// The parameters of a decoding context.
#[derive(Clone, Copy, Debug, PartialEq, Eq, Structural)]
pub struct GenerationPlan {
    /// The size of the context: the model's context window.
    pub context_size: u32,
    /// The most tokens the context may come to hold: prompt plus generated.
    pub n_len: u32,
    /// The size of a batch: room for the whole budget.
    pub n_batch: u32,
    /// The seed of the sampler.
    pub seed: u32,
}

/// A count of tokens read from a signed number: a negative one asks for
/// none.
pub open spec fn token_count(n: i32) -> u32 {
    if n < 0 {
        0
    } else {
        n as u32
    }
}

/// The tokens that a request asks for: its own number, else `fallback`.
pub open spec fn spec_requested_tokens(max_tokens: Option<i32>, fallback: i32) -> u32 {
    match max_tokens {
        Some(n) => token_count(n),
        None => token_count(fallback),
    }
}

/// The tokens that a request asks for: its own number, else `fallback`.
pub fn requested_tokens(max_tokens: Option<i32>, fallback: i32) -> (r: u32)
    ensures
        r == spec_requested_tokens(max_tokens, fallback),
{
    let n: i32 = match max_tokens {
        Some(n) => n,
        None => fallback,
    };
    if n < 0 {
        0
    } else {
        n as u32
    }
}

/// The plan for a prompt of `prompt` tokens and a request for `requested`
/// new ones under `config`, with the seed `seed`: `PromptTooLarge` where the
/// prompt alone exceeds the context window.
pub open spec fn spec_plan(config: ModelConfig, prompt: int, requested: u32, seed: u32) -> Result<GenerationPlan, ServeError> {
    let window = config.spec_context_window();
    if prompt > window {
        Err(ServeError::PromptTooLarge)
    } else {
        let limit = spec_generation_limit(prompt, requested as int, window as int) as u32;
        Ok(GenerationPlan { context_size: window, n_len: limit, n_batch: limit, seed })
    }
}

/// Plans a session with a given seed.
pub fn plan_with_seed(config: &ModelConfig, prompt_token_count: usize, max_tokens: u32, seed: u32) -> (r: Result<GenerationPlan, ServeError>)
    ensures
        r == spec_plan(*config, prompt_token_count as int, max_tokens, seed),
        r matches Ok(plan) ==> prompt_token_count <= plan.n_len <= plan.context_size,
{
    let window = config.context_window();
    match generation_limit(prompt_token_count, max_tokens, window) {
        Ok(limit) => Ok(GenerationPlan { context_size: window, n_len: limit, n_batch: limit, seed }),
        Err(e) => Err(e),
    }
}

/// Plans a session with a fresh random seed. A prompt that does not fit
/// the context window is refused before any context is built.
pub fn plan_generation(config: &ModelConfig, prompt_token_count: usize, max_tokens: u32) -> (r: Result<GenerationPlan, ServeError>)
    ensures
        exists|seed: u32| r == spec_plan(*config, prompt_token_count as int, max_tokens, seed),
        r matches Ok(plan) ==> prompt_token_count <= plan.n_len <= plan.context_size,
{
    let seed = random_seed();
    plan_with_seed(config, prompt_token_count, max_tokens, seed)
}

/// Opens the session of a request whose prompt came to
/// `prompt_token_count` tokens: plans its context and hands out a session
/// that has delivered nothing yet. A prompt that does not fit the context
/// window is refused: no context is built and no session exists.
pub fn pretty_generate(
    config: &ModelConfig,
    prompt_token_count: usize,
    max_tokens: u32,
    stops: Vec<String>,
    json_format: bool,
) -> (r: Result<(GenerationPlan, GenerationSession), ServeError>)
    ensures
        match r {
            Ok((plan, session)) => {
                &&& exists|seed: u32| spec_plan(*config, prompt_token_count as int, max_tokens, seed) == Ok::<GenerationPlan, ServeError>(plan)
                &&& session@ == SessionView::initial(
                    prompt_token_count as nat,
                    plan.n_len as nat,
                    texts_of(stops@),
                    json_format,
                )
                &&& session@.wf()
                &&& session@.events() == Seq::<crate::session::TokenEventView>::empty()
            },
            Err(e) => e == ServeError::PromptTooLarge && prompt_token_count > config.spec_context_window(),
        },
{
    match plan_generation(config, prompt_token_count, max_tokens) {
        Err(e) => Err(e),
        Ok(plan) => {
            let session = GenerationSession::new(prompt_token_count as u32, plan.n_len, stops, json_format);
            Ok((plan, session))
        },
    }
}

/// Whether a prompt of `token_count` tokens fits a context of `n_ctx`
/// tokens, as an embedding request needs it to.
pub fn check_embedding_prompt(n_ctx: u32, token_count: usize) -> (r: Result<(), ServeError>)
    ensures
        token_count > n_ctx <==> r == Err::<(), ServeError>(ServeError::PromptTooLarge),
        token_count <= n_ctx <==> r is Ok,
{
    if token_count > n_ctx as usize {
        Err(ServeError::PromptTooLarge)
    } else {
        Ok(())
    }
}

} // verus!

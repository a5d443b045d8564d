//! The OpenAI-compatible surface: how a chat completion is opened and how
//! its chunks are framed as server-sent events.

use vstd::prelude::*;
use vstd::string::StringExecFns;
use crate::errors::ServeError;
use crate::message::{messages_of, Message, MessageView};
use crate::models::{ManagerView, ModelManager};
use crate::plan::{requested_tokens, spec_requested_tokens, DEFAULT_MAX_TOKENS};
use crate::prompt::{generate_chat_prompt, spec_chat_prompt};
use crate::responses::StatusMessage;
use crate::serve::{chat_plan_of, flag, is_set, ChatPlan, ChatPlanView};
use crate::text::{copy_texts, text_of, texts_of};

verus! {

/// What opening a chat completion comes to. `ModelNotFound` where the
/// model is not loaded; the error of the prompt where it cannot be
/// assembled. Else the prompt of the messages under the model's template,
/// 32 tokens unless the request names a number, the model's stop strings,
/// and the JSON grammar where the request asks for a response format.
pub open spec fn spec_chat_completion(
    m: ManagerView,
    model: Seq<char>,
    messages: Seq<MessageView>,
    max_tokens: Option<i32>,
    stream: Option<bool>,
    wants_json: bool,
) -> Result<ChatPlanView, ServeError> {
    if !m.has(model) {
        Err(ServeError::ModelNotFound)
    } else {
        let state = m.states[m.position(model)];
        match spec_chat_prompt(state.chat_template, messages) {
            Err(e) => Err(e),
            Ok(prompt) => Ok(
                ChatPlanView {
                    prompt,
                    max_tokens: spec_requested_tokens(max_tokens, 32),
                    stops: state.chat_template.stops,
                    stream: is_set(stream),
                    has_tools: false,
                    json_format: wants_json,
                },
            ),
        }
    }
}

/// Opens a chat completion.
pub fn chat_completion(
    manager: &ModelManager,
    model: &str,
    messages: &Vec<Message>,
    max_tokens: Option<i32>,
    stream: Option<bool>,
    wants_json: bool,
) -> (r: Result<ChatPlan, ServeError>)
    requires
        manager@.wf(),
    ensures
        chat_plan_of(r) == spec_chat_completion(
            manager@,
            model@,
            messages_of(messages@),
            max_tokens,
            stream,
            wants_json,
        ),
{
    match manager.get(model) {
        None => Err(ServeError::ModelNotFound),
        Some(state) => match generate_chat_prompt(messages, &state.chat_template) {
            Err(e) => Err(e),
            Ok(prompt) => Ok(
                ChatPlan {
                    prompt,
                    max_tokens: requested_tokens(max_tokens, DEFAULT_MAX_TOKENS),
                    stops: copy_texts(&state.chat_template.stops),
                    stream: flag(stream),
                    has_tools: false,
                    json_format: wants_json,
                },
            ),
        },
    }
}

/// The answer to a ping.
pub fn index() -> (r: StatusMessage)
    ensures
        r.message@ == "pong"@,
{
    StatusMessage { message: "pong".to_string() }
}

/// The finish reason of a chunk: `complete` on the terminal event, none
/// before.
pub fn finish_reason(is_last: bool) -> (r: Option<String>)
    ensures
        text_of(r) == (if is_last {
            Some("complete"@)
        } else {
            None
        }),
{
    if is_last {
        Some("complete".to_string())
    } else {
        None
    }
}

/// The server-sent event that carries `json`.
pub open spec fn spec_sse_frame(json: Seq<char>) -> Seq<char> {
    "data: "@ + json + "\n\n"@
}

/// The server-sent events of one chunk: the chunk itself, and behind the
/// terminal chunk the mark that ends the stream.
pub open spec fn spec_sse_frames(json: Seq<char>, is_last: bool) -> Seq<Seq<char>> {
    if is_last {
        seq![spec_sse_frame(json), "data: [DONE]\n\n"@]
    } else {
        seq![spec_sse_frame(json)]
    }
}

/// Frames the JSON text of a chunk as a server-sent event.
pub fn sse_frame(json: &str) -> (r: String)
    ensures
        r@ == spec_sse_frame(json@),
{
    let mut out = "data: ".to_string();
    out.append(json);
    out.append("\n\n");
    out
}

/// The mark that ends a stream of server-sent events.
pub fn sse_done() -> (r: String)
    ensures
        r@ == "data: [DONE]\n\n"@,
{
    "data: [DONE]\n\n".to_string()
}

/// Frames the JSON text of a chunk, and ends the stream behind the
/// terminal chunk.
pub fn chat_stream(json: &str, is_last: bool) -> (r: Vec<String>)
    ensures
        texts_of(r@) == spec_sse_frames(json@, is_last),
{
    let mut frames: Vec<String> = Vec::new();
    frames.push(sse_frame(json));
    if is_last {
        frames.push(sse_done());
    }
    frames
}

} // verus!

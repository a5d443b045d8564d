//! Requests, from the first check to the last chunk.
//!
//! A request is opened against the loaded models: a missing model, a role
//! without a template or a template that cannot be rendered end it before
//! any token is produced. Once a session runs, every token event is turned
//! into the chunks that the client receives.

use vstd::prelude::*;
use vstd::string::StringExecFns;
use crate::errors::ServeError;
use crate::extract::{
    close_marker, extraction_step, is_visible, lemma_markers, process_xml_token, token_is_visible, XmlState,
    XmlStateView,
};
use crate::message::{messages_of, Message, MessageView};
use crate::models::{ManagerView, ModelManager};
use crate::plan::{requested_tokens, spec_requested_tokens, DEFAULT_CHAT_MAX_TOKENS, DEFAULT_MAX_TOKENS};
use crate::prompt::{generate_chat_prompt, spec_chat_prompt};
use crate::responses::{
    chunks_of, ChatChunkView, ChatGenerateCall, ChatGenerateResponse, ChatGenerateResponseChuck,
    CompletionChunkView, GenerateCall, GenerateResponse, GeneratreResponseChuck, ListModelsResponse, LlmParams,
    ModelListObject, ServerMetadata,
};
use crate::config::ModelConfig;
use crate::plan::spec_plan;
use crate::session::{run, LlamaResult, SessionEventView, SessionView, TokenEvent, TokenEventView};
use crate::text::{concat_texts, copy_texts, same_text, texts_of};
use crate::tools::{
    build_tool_defs_text, calls_of, definitions_of, definitions_text, known_calls, resolve_tool_calls,
    spec_tool_calls, ToolCall, ToolCallView, ToolDefinition, ToolDefinitionView,
};

verus! {

/// What a completion request comes to, once its model is found.
#[derive(Debug)]
pub struct CompletionPlan {
    pub prompt: String,
    pub max_tokens: u32,
    pub stops: Vec<String>,
    pub stream: bool,
}

/// What a chat request comes to, once its model is found and its prompt
/// is assembled.
#[derive(Debug)]
pub struct ChatPlan {
    pub prompt: String,
    pub max_tokens: u32,
    pub stops: Vec<String>,
    pub stream: bool,
    pub has_tools: bool,
    pub json_format: bool,
}

/// The mathematical value of a [`CompletionPlan`].
pub struct CompletionPlanView {
    pub prompt: Seq<char>,
    pub max_tokens: u32,
    pub stops: Seq<Seq<char>>,
    pub stream: bool,
}

/// The mathematical value of a [`ChatPlan`].
pub struct ChatPlanView {
    pub prompt: Seq<char>,
    pub max_tokens: u32,
    pub stops: Seq<Seq<char>>,
    pub stream: bool,
    pub has_tools: bool,
    pub json_format: bool,
}

impl View for CompletionPlan {
    type V = CompletionPlanView;

    open spec fn view(&self) -> CompletionPlanView {
        CompletionPlanView {
            prompt: self.prompt@,
            max_tokens: self.max_tokens,
            stops: texts_of(self.stops@),
            stream: self.stream,
        }
    }
}

impl View for ChatPlan {
    type V = ChatPlanView;

    open spec fn view(&self) -> ChatPlanView {
        ChatPlanView {
            prompt: self.prompt@,
            max_tokens: self.max_tokens,
            stops: texts_of(self.stops@),
            stream: self.stream,
            has_tools: self.has_tools,
            json_format: self.json_format,
        }
    }
}

/// The value of a completion plan or its error.
pub open spec fn completion_plan_of(r: Result<CompletionPlan, ServeError>) -> Result<CompletionPlanView, ServeError> {
    match r {
        Ok(p) => Ok(p@),
        Err(e) => Err(e),
    }
}

/// The value of a chat plan or its error.
pub open spec fn chat_plan_of(r: Result<ChatPlan, ServeError>) -> Result<ChatPlanView, ServeError> {
    match r {
        Ok(p) => Ok(p@),
        Err(e) => Err(e),
    }
}

/// Whether an optional flag is set.
pub open spec fn is_set(flag: Option<bool>) -> bool {
    flag == Some(true)
}

/// Whether an optional flag is set.
pub fn flag(value: Option<bool>) -> (r: bool)
    ensures
        r == is_set(value),
{
    match value {
        Some(b) => b,
        None => false,
    }
}

/// The number of tokens that a request's options name.
pub open spec fn named_tokens(params: Option<LlmParams>) -> Option<i32> {
    match params {
        Some(p) => p.max_tokens,
        None => None,
    }
}

/// What opening a completion request comes to: `ModelNotFound` where the
/// model is not loaded; else the prompt as it came, 32 tokens unless the
/// request names a number, and the model's stop strings.
pub open spec fn spec_open_completion(m: ManagerView, call: GenerateCall) -> Result<CompletionPlanView, ServeError> {
    if !m.has(call.model@) {
        Err(ServeError::ModelNotFound)
    } else {
        Ok(
            CompletionPlanView {
                prompt: call.prompt@,
                max_tokens: spec_requested_tokens(named_tokens(call.generate_params), 32),
                stops: m.states[m.position(call.model@)].chat_template.stops,
                stream: is_set(call.stream),
            },
        )
    }
}

/// Opens a completion request.
pub fn open_completion(manager: &ModelManager, call: &GenerateCall) -> (r: Result<CompletionPlan, ServeError>)
    requires
        manager@.wf(),
    ensures
        completion_plan_of(r) == spec_open_completion(manager@, *call),
{
    match manager.get(call.model.as_str()) {
        None => Err(ServeError::ModelNotFound),
        Some(state) => {
            let named = match call.generate_params {
                Some(p) => p.max_tokens,
                None => None,
            };
            Ok(
                CompletionPlan {
                    prompt: call.prompt.clone(),
                    max_tokens: requested_tokens(named, DEFAULT_MAX_TOKENS),
                    stops: copy_texts(&state.chat_template.stops),
                    stream: flag(call.stream),
                },
            )
        },
    }
}

/// The conversation that is rendered: the messages of the request, behind
/// a `tool` message that carries the offered tools where the request
/// offers any.
pub open spec fn conversation(messages: Seq<MessageView>, tools: Option<Seq<ToolDefinitionView>>) -> Seq<MessageView> {
    match tools {
        None => messages,
        Some(defs) => seq![MessageView { role: "tool"@, content: definitions_text(defs) }] + messages,
    }
}

/// The values of an optional list of tool definitions.
pub open spec fn optional_definitions_of(o: Option<Vec<ToolDefinition>>) -> Option<Seq<ToolDefinitionView>> {
    match o {
        Some(v) => Some(definitions_of(v@)),
        None => None,
    }
}

/// A copy of a tool definition.
fn copy_definition(d: &ToolDefinition) -> (r: ToolDefinition)
    ensures
        r@ == d@,
{
    let arguments = match &d.arguments {
        None => None,
        Some(list) => {
            let mut out: Vec<crate::tools::ToolArguments> = Vec::new();
            let mut i: usize = 0;
            while i < list.len()
                invariant
                    i <= list.len(),
                    out.len() == i,
                    forall|j: int| 0 <= j < i ==> out@[j]@ == list@[j]@,
                decreases list.len() - i,
            {
                out.push(
                    crate::tools::ToolArguments {
                        name: list[i].name.clone(),
                        description: list[i].description.clone(),
                        data_type: list[i].data_type.clone(),
                    },
                );
                i += 1;
            }
            assert(Seq::new(out@.len(), |i: int| out@[i]@) =~= Seq::new(list@.len(), |i: int| list@[i]@));
            Some(out)
        },
    };
    ToolDefinition { name: d.name.clone(), description: d.description.clone(), arguments }
}

/// A copy of a list of tool definitions.
pub fn copy_definitions(defs: &Vec<ToolDefinition>) -> (r: Vec<ToolDefinition>)
    ensures
        definitions_of(r@) == definitions_of(defs@),
{
    let mut out: Vec<ToolDefinition> = Vec::new();
    let mut i: usize = 0;
    while i < defs.len()
        invariant
            i <= defs.len(),
            out.len() == i,
            forall|j: int| 0 <= j < i ==> out@[j]@ == defs@[j]@,
        decreases defs.len() - i,
    {
        out.push(copy_definition(&defs[i]));
        i += 1;
    }
    out
}

/// Builds the conversation that is rendered for a request.
pub fn with_tool_message(messages: &Vec<Message>, tools: &Option<Vec<ToolDefinition>>) -> (r: Vec<Message>)
    ensures
        messages_of(r@) == conversation(messages_of(messages@), optional_definitions_of(*tools)),
{
    let mut out: Vec<Message> = Vec::new();
    match tools {
        None => {},
        Some(defs) => {
            let text = build_tool_defs_text(copy_definitions(defs));
            out.push(Message::new("tool", text.as_str()));
        },
    }
    let ghost head = messages_of(out@);
    let mut i: usize = 0;
    while i < messages.len()
        invariant
            i <= messages.len(),
            messages_of(out@) == head + messages_of(messages@).take(i as int),
        decreases messages.len() - i,
    {
        let ghost before = messages_of(out@);
        out.push(messages[i].duplicate());
        assert(messages_of(out@) =~= before.push(messages@[i as int]@));
        i += 1;
    }
    assert(messages_of(messages@).take(messages.len() as int) =~= messages_of(messages@));
    assert(messages_of(out@) =~= conversation(messages_of(messages@), optional_definitions_of(*tools)));
    out
}

/// What opening a chat request comes to. `ModelNotFound` where the model
/// is not loaded; the error of the prompt where it cannot be assembled. Else
/// the prompt of the conversation under the model's template, the tokens
/// that the request names (else those that the model names, else 512), and
/// the model's stop strings.
pub open spec fn spec_chat_generate(m: ManagerView, call: ChatGenerateCall) -> Result<ChatPlanView, ServeError> {
    if !m.has(call.model@) {
        Err(ServeError::ModelNotFound)
    } else {
        let state = m.states[m.position(call.model@)];
        let messages = conversation(messages_of(call.messages@), optional_definitions_of(call.tools));
        match spec_chat_prompt(state.chat_template, messages) {
            Err(e) => Err(e),
            Ok(prompt) => Ok(
                ChatPlanView {
                    prompt,
                    max_tokens: spec_requested_tokens(
                        match named_tokens(call.generate_params) {
                            Some(n) => Some(n),
                            None => state.config.num_predict,
                        },
                        512,
                    ),
                    stops: state.chat_template.stops,
                    stream: is_set(call.stream),
                    has_tools: call.tools is Some,
                    json_format: false,
                },
            ),
        }
    }
}

/// Opens a chat request.
pub fn chat_generate(manager: &ModelManager, call: &ChatGenerateCall) -> (r: Result<ChatPlan, ServeError>)
    requires
        manager@.wf(),
    ensures
        chat_plan_of(r) == spec_chat_generate(manager@, *call),
        !manager@.has(call.model@) ==> r is Err,
{
    match manager.get(call.model.as_str()) {
        None => Err(ServeError::ModelNotFound),
        Some(state) => {
            let messages = with_tool_message(&call.messages, &call.tools);
            match generate_chat_prompt(&messages, &state.chat_template) {
                Err(e) => Err(e),
                Ok(prompt) => {
                    let named = match call.generate_params {
                        Some(p) => p.max_tokens,
                        None => None,
                    };
                    let wanted = match named {
                        Some(n) => Some(n),
                        None => state.config.num_predict,
                    };
                    Ok(
                        ChatPlan {
                            prompt,
                            max_tokens: requested_tokens(wanted, DEFAULT_CHAT_MAX_TOKENS),
                            stops: copy_texts(&state.chat_template.stops),
                            stream: flag(call.stream),
                            has_tools: call.tools.is_some(),
                            json_format: false,
                        },
                    )
                },
            }
        },
    }
}


// ---------------------------------------------------------------------
// From token events to chunks
// ---------------------------------------------------------------------

/// The chunk that carries one visible token.
pub open spec fn token_chunk(model: Seq<char>, text: Seq<char>) -> ChatChunkView {
    ChatChunkView { token_str: text, role: "assistant"@, model, halt_reason: None, tool_calls: None }
}

/// The chunk that carries resolved tool calls.
pub open spec fn tool_call_chunk(model: Seq<char>, calls: Seq<ToolCallView>) -> ChatChunkView {
    ChatChunkView {
        token_str: Seq::empty(),
        role: "assistant"@,
        model,
        halt_reason: None,
        tool_calls: Some(calls),
    }
}

/// The terminal chunk.
pub open spec fn halt_chunk(text: Seq<char>) -> ChatChunkView {
    ChatChunkView {
        token_str: text,
        role: "assistant"@,
        model: Seq::empty(),
        halt_reason: Some("done"@),
        tool_calls: None,
    }
}

/// What the extraction machine makes of an event: it sees the tokens of a
/// request that offers tools, and never the terminal event.
pub open spec fn extracted(state: XmlStateView, has_tools: bool, event: TokenEventView) -> (XmlStateView, Option<Seq<char>>) {
    if has_tools && !event.is_last {
        extraction_step(state, event.text)
    } else {
        (state, None)
    }
}

/// Whether the text of a token is shown to the client. Where the request
/// offers tools, the extraction machine decides: markup and the text of a
/// body are withheld. A lone `>` is withheld in any case.
pub open spec fn shown(state: XmlStateView, has_tools: bool, text: Seq<char>) -> bool {
    if has_tools {
        token_is_visible(state, text)
    } else {
        text != close_marker()
    }
}

/// Whether the text of a token is shown to the client.
pub fn is_shown(xml_state: &XmlState, has_tools: bool, text: &str) -> (r: bool)
    ensures
        r == shown(xml_state@, has_tools, text@),
{
    if has_tools {
        is_visible(xml_state, text)
    } else {
        proof {
            lemma_markers();
        }
        !same_text(text, ">")
    }
}

/// The state of the extraction machine after a token event, and the chunks
/// that the event sends to the client: first a chunk with the resolved
/// calls if the event completed a payload, then the terminal chunk for the
/// terminal event, or a token chunk for a token that is shown.
pub open spec fn chat_step(
    state: XmlStateView,
    has_tools: bool,
    defs: Seq<ToolDefinitionView>,
    model: Seq<char>,
    event: TokenEventView,
) -> (XmlStateView, Seq<ChatChunkView>) {
    let step = extracted(state, has_tools, event);
    let tool_chunks = match step.1 {
        Some(payload) => seq![tool_call_chunk(model, known_calls(spec_tool_calls(payload), defs))],
        None => Seq::empty(),
    };
    let text_chunks = if event.is_last {
        seq![halt_chunk(event.text)]
    } else if shown(state, has_tools, event.text) {
        seq![token_chunk(model, event.text)]
    } else {
        Seq::empty()
    };
    (step.0, tool_chunks + text_chunks)
}

/// Turns one token event of a chat session into the chunks that the client
/// receives, in order.
pub fn chat_chunks(
    xml_state: &mut XmlState,
    has_tools: bool,
    defs: &Vec<ToolDefinition>,
    model: &str,
    event: &TokenEvent,
) -> (r: Vec<ChatGenerateResponseChuck>)
    ensures
        final(xml_state)@ == chat_step(old(xml_state)@, has_tools, definitions_of(defs@), model@, event@).0,
        chunks_of(r@) == chat_step(old(xml_state)@, has_tools, definitions_of(defs@), model@, event@).1,
        forall|i: int| 0 <= i < r@.len() ==> (#[trigger] r@[i]).meta.names_this_server(),
{
    let mut chunks: Vec<ChatGenerateResponseChuck> = Vec::new();
    let visible = is_shown(xml_state, has_tools, event.text.as_str());
    if has_tools && !event.is_last {
        match process_xml_token(xml_state, event.text.as_str()) {
            Some(payload) => {
                let calls = resolve_tool_calls(payload.as_str(), defs);
                chunks.push(ChatGenerateResponseChuck::new_tool_call(model, calls));
            },
            None => {},
        }
    }
    if event.is_last {
        chunks.push(ChatGenerateResponseChuck::new_halt(event.text.as_str(), "done"));
    } else if visible {
        chunks.push(ChatGenerateResponseChuck::new_token(model, event.text.as_str()));
    }
    chunks
}

/// What a whole run of tokens comes to, where nothing is streamed: the
/// state of the extraction machine, the visible text, and the resolved
/// calls, in order.
pub open spec fn chat_fold(
    has_tools: bool,
    defs: Seq<ToolDefinitionView>,
    tokens: Seq<Seq<char>>,
) -> (XmlStateView, Seq<char>, Seq<ToolCallView>)
    decreases tokens.len(),
{
    if tokens.len() == 0 {
        (XmlStateView::initial(), Seq::empty(), Seq::empty())
    } else {
        let before = chat_fold(has_tools, defs, tokens.drop_last());
        let event = TokenEventView { text: tokens.last(), is_last: false };
        let step = extracted(before.0, has_tools, event);
        (
            step.0,
            if shown(before.0, has_tools, tokens.last()) {
                before.1 + tokens.last()
            } else {
                before.1
            },
            match step.1 {
                Some(payload) => before.2 + known_calls(spec_tool_calls(payload), defs),
                None => before.2,
            },
        )
    }
}

/// The visible text and the resolved calls of a whole run of tokens.
#[derive(Debug)]
pub struct ChatDigest {
    pub text: String,
    pub tool_calls: Vec<ToolCall>,
}

/// Runs the tokens of a finished session through the extraction machine
/// and gathers what a streaming client would have been sent.
pub fn chat_digest(tokens: &Vec<String>, has_tools: bool, defs: &Vec<ToolDefinition>) -> (r: ChatDigest)
    ensures
        r.text@ == chat_fold(has_tools, definitions_of(defs@), texts_of(tokens@)).1,
        calls_of(r.tool_calls@) == chat_fold(has_tools, definitions_of(defs@), texts_of(tokens@)).2,
{
    let mut state = XmlState::new();
    let mut text = String::new();
    let mut calls: Vec<ToolCall> = Vec::new();
    let mut i: usize = 0;
    let ghost all = texts_of(tokens@);
    let ghost d = definitions_of(defs@);
    while i < tokens.len()
        invariant
            i <= tokens.len(),
            all == texts_of(tokens@),
            d == definitions_of(defs@),
            state@ == chat_fold(has_tools, d, all.take(i as int)).0,
            text@ == chat_fold(has_tools, d, all.take(i as int)).1,
            calls_of(calls@) == chat_fold(has_tools, d, all.take(i as int)).2,
        decreases tokens.len() - i,
    {
        proof {
            assert(all.take(i + 1).drop_last() =~= all.take(i as int));
        }
        let token = tokens[i].as_str();
        let visible = is_shown(&state, has_tools, token);
        if has_tools {
            match process_xml_token(&mut state, token) {
                Some(payload) => {
                    let mut resolved = resolve_tool_calls(payload.as_str(), defs);
                    calls.append(&mut resolved);
                },
                None => {},
            }
        }
        if visible {
            text.append(token);
        }
        i += 1;
    }
    assert(all.take(tokens.len() as int) =~= all);
    ChatDigest { text, tool_calls: calls }
}

/// The streamed chunk of a completion for one token event: the terminal
/// event alone carries a reason for the halt.
pub fn completion_chunk(model: &str, event: &TokenEvent) -> (r: GeneratreResponseChuck)
    ensures
        r.meta.names_this_server(),
        r@ == (CompletionChunkView {
            token_str: event@.text,
            model: model@,
            halt_reason: if event.is_last {
                Some("End of stream"@)
            } else {
                None
            },
        }),
{
    GeneratreResponseChuck {
        meta: ServerMetadata::new(),
        token_str: event.text.clone(),
        model: model.to_string(),
        halt_reason: if event.is_last {
            Some("End of stream".to_string())
        } else {
            None
        },
    }
}

/// The whole answer to a completion request.
pub fn completion_response(model: &str, result: &LlamaResult) -> (r: GenerateResponse)
    ensures
        r.meta.names_this_server(),
        r.model@ == model@,
        r.response@ == concat_texts(texts_of(result.generated_tokens_data@)),
        r.took == result.duration_micros * 1000,
        r.halt_reason is None,
{
    GenerateResponse {
        meta: ServerMetadata::new(),
        model: model.to_string(),
        response: result.response_text(),
        took: result.took(),
        halt_reason: None,
    }
}

/// The whole answer to a chat request: the visible text of the run, and
/// the resolved calls where the request offered tools.
pub fn chat_response(model: &str, result: &LlamaResult, has_tools: bool, defs: &Vec<ToolDefinition>) -> (r:
    ChatGenerateResponse)
    ensures
        r.meta.names_this_server(),
        r.model@ == model@,
        r.response@ == chat_fold(has_tools, definitions_of(defs@), texts_of(result.generated_tokens_data@)).1,
        r.took == result.duration_micros * 1000,
        r.halt_reason is None,
        has_tools ==> r.tool_calls is Some && calls_of(r.tool_calls->0@) == chat_fold(
            has_tools,
            definitions_of(defs@),
            texts_of(result.generated_tokens_data@),
        ).2,
        !has_tools ==> r.tool_calls is None,
{
    let digest = chat_digest(&result.generated_tokens_data, has_tools, defs);
    ChatGenerateResponse {
        meta: ServerMetadata::new(),
        model: model.to_string(),
        response: digest.text,
        took: result.took(),
        halt_reason: None,
        tool_calls: if has_tools {
            Some(digest.tool_calls)
        } else {
            None
        },
    }
}

/// The model list: every loaded model, by name.
pub fn list_models(manager: &ModelManager) -> (r: ListModelsResponse)
    ensures
        r.meta.names_this_server(),
        r.models@.len() == manager@.names.len(),
        forall|i: int|
            0 <= i < r.models@.len() ==> (#[trigger] r.models@[i]).name@ == manager@.names[i]
                && r.models@[i].type_str@ == "model"@,
{
    let mut models: Vec<ModelListObject> = Vec::new();
    let mut i: usize = 0;
    let count = manager.len();
    while i < count
        invariant
            i <= count,
            count == manager@.names.len(),
            models.len() == i,
            forall|j: int|
                0 <= j < i ==> (#[trigger] models@[j]).name@ == manager@.names[j] && models@[j].type_str@
                    == "model"@,
        decreases count - i,
    {
        models.push(ModelListObject { name: manager.name_at(i).clone(), type_str: "model".to_string() });
        i += 1;
    }
    ListModelsResponse { meta: ServerMetadata::new(), models }
}

/// Adds to a running conversation the message that records a resolved
/// payload, so that a follow-up turn can see what was invoked.
pub fn record_tool_response(messages: &mut Vec<Message>, payload: &str)
    ensures
        final(messages)@.len() == old(messages)@.len() + 1,
        messages_of(final(messages)@) == messages_of(old(messages)@).push(
            MessageView { role: "tool_response"@, content: payload@ },
        ),
{
    messages.push(crate::tools::tool_response_message(payload));
    assert(messages_of(messages@) =~= messages_of(old(messages)@).push(
        MessageView { role: "tool_response"@, content: payload@ },
    ));
}


// ---------------------------------------------------------------------
// Streamed and whole answers agree
// ---------------------------------------------------------------------

/// The state of the extraction machine after a run of tokens of a
/// streamed session, and every chunk sent for them, in order.
pub open spec fn stream_fold(
    has_tools: bool,
    defs: Seq<ToolDefinitionView>,
    model: Seq<char>,
    tokens: Seq<Seq<char>>,
) -> (XmlStateView, Seq<ChatChunkView>)
    decreases tokens.len(),
{
    if tokens.len() == 0 {
        (XmlStateView::initial(), Seq::empty())
    } else {
        let before = stream_fold(has_tools, defs, model, tokens.drop_last());
        let event = TokenEventView { text: tokens.last(), is_last: false };
        let step = chat_step(before.0, has_tools, defs, model, event);
        (step.0, before.1 + step.1)
    }
}

/// The text that a run of chunks carries, in order.
pub open spec fn chunks_text(chunks: Seq<ChatChunkView>) -> Seq<char>
    decreases chunks.len(),
{
    if chunks.len() == 0 {
        Seq::empty()
    } else {
        chunks_text(chunks.drop_last()) + chunks.last().token_str
    }
}

/// The tool calls that a run of chunks carries, in order.
pub open spec fn chunks_calls(chunks: Seq<ChatChunkView>) -> Seq<ToolCallView>
    decreases chunks.len(),
{
    if chunks.len() == 0 {
        Seq::empty()
    } else {
        chunks_calls(chunks.drop_last()) + (match chunks.last().tool_calls {
            Some(calls) => calls,
            None => Seq::empty(),
        })
    }
}

/// What two runs of chunks carry is what the first carries, then what the
/// second carries.
proof fn lemma_chunks_append(a: Seq<ChatChunkView>, b: Seq<ChatChunkView>)
    ensures
        chunks_text(a + b) == chunks_text(a) + chunks_text(b),
        chunks_calls(a + b) == chunks_calls(a) + chunks_calls(b),
    decreases b.len(),
{
    if b.len() > 0 {
        assert((a + b).drop_last() =~= a + b.drop_last());
        lemma_chunks_append(a, b.drop_last());
        let tail = match b.last().tool_calls {
            Some(calls) => calls,
            None => Seq::empty(),
        };
        assert((chunks_text(a) + chunks_text(b.drop_last())) + b.last().token_str =~= chunks_text(a) + (
        chunks_text(b.drop_last()) + b.last().token_str));
        assert((chunks_calls(a) + chunks_calls(b.drop_last())) + tail =~= chunks_calls(a) + (chunks_calls(
            b.drop_last(),
        ) + tail));
    }
}

/// What one chunk carries.
proof fn lemma_chunks_of_one(c: ChatChunkView)
    ensures
        chunks_text(seq![c]) == c.token_str,
        chunks_calls(seq![c]) == (match c.tool_calls {
            Some(calls) => calls,
            None => Seq::empty(),
        }),
{
    let one = seq![c];
    assert(chunks_text(one.drop_last()) =~= Seq::<char>::empty());
    assert(chunks_calls(one.drop_last()) =~= Seq::<ToolCallView>::empty());
}

/// A streamed answer and a whole answer agree: the text of the chunks sent
/// for a run of tokens is the visible text of the whole answer, the calls
/// of the chunks are its calls, and the extraction machine ends in the
/// same state.
pub proof fn lemma_stream_agrees_with_digest(
    has_tools: bool,
    defs: Seq<ToolDefinitionView>,
    model: Seq<char>,
    tokens: Seq<Seq<char>>,
)
    ensures
        stream_fold(has_tools, defs, model, tokens).0 == chat_fold(has_tools, defs, tokens).0,
        chunks_text(stream_fold(has_tools, defs, model, tokens).1) == chat_fold(has_tools, defs, tokens).1,
        chunks_calls(stream_fold(has_tools, defs, model, tokens).1) == chat_fold(has_tools, defs, tokens).2,
    decreases tokens.len(),
{
    if tokens.len() > 0 {
        lemma_stream_agrees_with_digest(has_tools, defs, model, tokens.drop_last());
        let before = stream_fold(has_tools, defs, model, tokens.drop_last());
        let event = TokenEventView { text: tokens.last(), is_last: false };
        let ex = extracted(before.0, has_tools, event);
        let step = chat_step(before.0, has_tools, defs, model, event);
        let tool_chunks = match ex.1 {
            Some(payload) => seq![tool_call_chunk(model, known_calls(spec_tool_calls(payload), defs))],
            None => Seq::empty(),
        };
        let text_chunks = if shown(before.0, has_tools, event.text) {
            seq![token_chunk(model, event.text)]
        } else {
            Seq::empty()
        };
        lemma_chunks_append(before.1, step.1);
        lemma_chunks_append(tool_chunks, text_chunks);
        match ex.1 {
            Some(payload) => {
                lemma_chunks_of_one(tool_call_chunk(model, known_calls(spec_tool_calls(payload), defs)));
            },
            None => {},
        }
        if shown(before.0, has_tools, event.text) {
            lemma_chunks_of_one(token_chunk(model, event.text));
        }
    }
}

// ---------------------------------------------------------------------
// End to end
// ---------------------------------------------------------------------

/// Every token event that a request delivers, from its opening to the end
/// of the reports: none where the request was refused or its prompt does
/// not fit the context window, else those of its session.
pub open spec fn request_events(
    opened: Result<ChatPlanView, ServeError>,
    config: ModelConfig,
    prompt_tokens: nat,
    seed: u32,
    reports: Seq<SessionEventView>,
) -> Seq<TokenEventView> {
    match opened {
        Err(_) => Seq::empty(),
        Ok(plan) => match spec_plan(config, prompt_tokens as int, plan.max_tokens, seed) {
            Err(_) => Seq::empty(),
            Ok(context) => run(
                SessionView::initial(prompt_tokens, context.n_len as nat, plan.stops, plan.json_format),
                reports,
            ).1,
        },
    }
}

/// A request for a model that is not loaded is refused with
/// `ModelNotFound`, on each surface, and delivers no token event.
pub proof fn lemma_absent_model_yields_no_events(
    m: ManagerView,
    chat: ChatGenerateCall,
    completion: GenerateCall,
    config: ModelConfig,
    prompt_tokens: nat,
    seed: u32,
    reports: Seq<SessionEventView>,
)
    requires
        !m.has(chat.model@),
        !m.has(completion.model@),
    ensures
        spec_chat_generate(m, chat) == Err::<ChatPlanView, ServeError>(ServeError::ModelNotFound),
        spec_open_completion(m, completion) == Err::<CompletionPlanView, ServeError>(ServeError::ModelNotFound),
        request_events(spec_chat_generate(m, chat), config, prompt_tokens, seed, reports).len() == 0,
{
}

} // verus!

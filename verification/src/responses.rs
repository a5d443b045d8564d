//! The bodies of requests and responses, as plain values.

use vstd::prelude::*;
use crate::clock::unix_now;
use crate::config::ModelDefinition;
use crate::message::Message;
use crate::text::text_of;
use crate::tools::{calls_of, ToolCall, ToolCallView, ToolDefinition};

verus! {

/// A bare status line.
#[derive(Clone, Debug)]
pub struct StatusMessage {
    pub message: String,
}

/// The configuration file.
#[derive(Clone, Debug)]
pub struct Config {
    pub models: Vec<ModelDefinition>,
}

/// Who answers, and when.
#[derive(Clone, Debug)]
pub struct ServerMetadata {
    pub name: String,
    pub version: String,
    /// Seconds since the Unix epoch.
    pub timestamp: i64,
}

/// The integer options that a request may set.
#[derive(Clone, Copy, Debug)]
pub struct LlmParams {
    pub max_tokens: Option<i32>,
    pub top_k: Option<i32>,
}

/// A request for a completion.
#[derive(Clone, Debug)]
pub struct GenerateCall {
    pub model: String,
    pub prompt: String,
    pub stream: Option<bool>,
    pub generate_params: Option<LlmParams>,
}

/// A request for a chat turn.
#[derive(Clone, Debug)]
pub struct ChatGenerateCall {
    pub model: String,
    pub messages: Vec<Message>,
    pub stream: Option<bool>,
    pub generate_params: Option<LlmParams>,
    pub tool_call_only: Option<bool>,
    pub tools: Option<Vec<ToolDefinition>>,
}

/// A whole completion.
#[derive(Clone, Debug)]
pub struct GenerateResponse {
    pub meta: ServerMetadata,
    pub model: String,
    pub response: String,
    /// Nanoseconds spent generating.
    pub took: u128,
    pub halt_reason: Option<String>,
}

/// A whole chat turn.
#[derive(Clone, Debug)]
pub struct ChatGenerateResponse {
    pub meta: ServerMetadata,
    pub model: String,
    pub response: String,
    /// Nanoseconds spent generating.
    pub took: u128,
    pub halt_reason: Option<String>,
    pub tool_calls: Option<Vec<ToolCall>>,
}

/// One chunk of a streamed completion.
#[derive(Clone, Debug)]
pub struct GeneratreResponseChuck {
    pub meta: ServerMetadata,
    pub token_str: String,
    pub model: String,
    pub halt_reason: Option<String>,
}

/// One chunk of a streamed chat turn.
#[derive(Clone, Debug)]
pub struct ChatGenerateResponseChuck {
    pub meta: ServerMetadata,
    pub token_str: String,
    pub role: String,
    pub model: String,
    pub halt_reason: Option<String>,
    pub tool_calls: Option<Vec<ToolCall>>,
}

/// A request for embeddings.
#[derive(Clone, Debug)]
pub struct EmbeddingsRequest {
    pub model: String,
    pub prompt: String,
}

/// One entry of the model list.
#[derive(Clone, Debug)]
pub struct ModelListObject {
    pub name: String,
    pub type_str: String,
}

/// The model list.
#[derive(Clone, Debug)]
pub struct ListModelsResponse {
    pub meta: ServerMetadata,
    pub models: Vec<ModelListObject>,
}

/// An error, as the client sees it.
#[derive(Clone, Debug)]
pub struct ErrorResponse {
    pub meta: ServerMetadata,
    pub message: String,
}

/// What a streamed completion chunk says, apart from its time.
pub struct CompletionChunkView {
    pub token_str: Seq<char>,
    pub model: Seq<char>,
    pub halt_reason: Option<Seq<char>>,
}

/// What a streamed chat chunk says, apart from its time.
pub struct ChatChunkView {
    pub token_str: Seq<char>,
    pub role: Seq<char>,
    pub model: Seq<char>,
    pub halt_reason: Option<Seq<char>>,
    pub tool_calls: Option<Seq<ToolCallView>>,
}

/// The values of an optional list of tool calls.
pub open spec fn optional_calls_of(o: Option<Vec<ToolCall>>) -> Option<Seq<ToolCallView>> {
    match o {
        Some(v) => Some(calls_of(v@)),
        None => None,
    }
}

impl View for GeneratreResponseChuck {
    type V = CompletionChunkView;

    open spec fn view(&self) -> CompletionChunkView {
        CompletionChunkView {
            token_str: self.token_str@,
            model: self.model@,
            halt_reason: text_of(self.halt_reason),
        }
    }
}

impl View for ChatGenerateResponseChuck {
    type V = ChatChunkView;

    open spec fn view(&self) -> ChatChunkView {
        ChatChunkView {
            token_str: self.token_str@,
            role: self.role@,
            model: self.model@,
            halt_reason: text_of(self.halt_reason),
            tool_calls: optional_calls_of(self.tool_calls),
        }
    }
}

/// The values of a list of chat chunks.
pub open spec fn chunks_of(v: Seq<ChatGenerateResponseChuck>) -> Seq<ChatChunkView> {
    Seq::new(v.len(), |i: int| v[i]@)
}

impl ServerMetadata {
    /// The metadata names this server and its version.
    pub open spec fn names_this_server(&self) -> bool {
        self.name@ == "Friday by Shurburt"@ && self.version@ == "0.1.0"@
    }

    /// The metadata of an answer given at `timestamp`.
    pub fn at(timestamp: i64) -> (r: Self)
        ensures
            r.names_this_server(),
            r.timestamp == timestamp,
    {
        ServerMetadata { name: "Friday by Shurburt".to_string(), version: "0.1.0".to_string(), timestamp }
    }

    /// The metadata of an answer given now.
    pub fn new() -> (r: Self)
        ensures
            r.names_this_server(),
    {
        ServerMetadata::at(unix_now())
    }
}

impl ChatGenerateResponseChuck {
    /// The chunk that carries one visible token.
    pub fn new_token(model: &str, token_str: &str) -> (r: ChatGenerateResponseChuck)
        ensures
            r.meta.names_this_server(),
            r@ == (ChatChunkView {
                token_str: token_str@,
                role: "assistant"@,
                model: model@,
                halt_reason: None,
                tool_calls: None,
            }),
    {
        ChatGenerateResponseChuck {
            meta: ServerMetadata::new(),
            token_str: token_str.to_string(),
            role: "assistant".to_string(),
            model: model.to_string(),
            halt_reason: None,
            tool_calls: None,
        }
    }

    /// The chunk that carries resolved tool calls and no text.
    pub fn new_tool_call(model: &str, tool_calls: Vec<ToolCall>) -> (r: ChatGenerateResponseChuck)
        ensures
            r.meta.names_this_server(),
            r@ == (ChatChunkView {
                token_str: Seq::empty(),
                role: "assistant"@,
                model: model@,
                halt_reason: None,
                tool_calls: Some(calls_of(tool_calls@)),
            }),
    {
        let r = ChatGenerateResponseChuck {
            meta: ServerMetadata::new(),
            token_str: String::new(),
            role: "assistant".to_string(),
            model: model.to_string(),
            halt_reason: None,
            tool_calls: Some(tool_calls),
        };
        r
    }

    /// The terminal chunk: the whole text and the reason for the halt.
    pub fn new_halt(full_text: &str, halt_reason: &str) -> (r: ChatGenerateResponseChuck)
        ensures
            r.meta.names_this_server(),
            r@ == (ChatChunkView {
                token_str: full_text@,
                role: "assistant"@,
                model: Seq::empty(),
                halt_reason: Some(halt_reason@),
                tool_calls: None,
            }),
    {
        ChatGenerateResponseChuck {
            meta: ServerMetadata::new(),
            token_str: full_text.to_string(),
            role: "assistant".to_string(),
            model: String::new(),
            halt_reason: Some(halt_reason.to_string()),
            tool_calls: None,
        }
    }
}

impl ErrorResponse {
    /// The error that says `message`.
    pub fn new(message: &str) -> (r: Self)
        ensures
            r.meta.names_this_server(),
            r.message@ == message@,
    {
        ErrorResponse { meta: ServerMetadata::new(), message: message.to_string() }
    }
}

} // verus!

use shurbai::config::ModelConfig;
use shurbai::errors::ServeError;
use shurbai::extract::XmlState;
use shurbai::message::Message;
use shurbai::models::{load_models, ModelManager, ModelState};
use shurbai::openai::{chat_completion, chat_stream, finish_reason, index, sse_done, sse_frame};
use shurbai::prompt::ChatTemplate;
use shurbai::responses::{
    ChatGenerateCall, ChatGenerateResponseChuck, ErrorResponse, GenerateCall, LlmParams, ServerMetadata,
};
use shurbai::serve::{
    chat_chunks, chat_digest, chat_generate, chat_response, completion_chunk, completion_response,
    copy_definitions, flag, list_models, open_completion, record_tool_response, with_tool_message,
};
use shurbai::session::{LlamaResult, TokenEvent};
use shurbai::tools::ToolDefinition;

fn template() -> ChatTemplate {
    ChatTemplate {
        user_template: "[U]{content}[/U]".to_string(),
        system_template: "[S]{content}[/S]".to_string(),
        assistant_template: "[AS]{content}[/AS]".to_string(),
        tool_response_template: None,
        tool_template: "[T]{tools}[/T]".to_string(),
        tool_prompt_template: None,
        assistant_prompt_template: "[A]".to_string(),
        stops: vec!["</s>".to_string()],
    }
}

fn manager() -> ModelManager {
    let mut m = ModelManager::new();
    m.register("llama".to_string(), ModelState { config: ModelConfig::default(), chat_template: template() });
    m
}

fn search() -> ToolDefinition {
    ToolDefinition { name: "search".to_string(), description: "d".to_string(), arguments: None }
}

fn chat_call(model: &str) -> ChatGenerateCall {
    ChatGenerateCall {
        model: model.to_string(),
        messages: vec![Message::new("user", "U")],
        stream: None,
        generate_params: None,
        tool_call_only: None,
        tools: None,
    }
}

fn event(text: &str, is_last: bool) -> TokenEvent {
    TokenEvent { text: text.to_string(), is_last }
}

fn summary(chunks: &Vec<ChatGenerateResponseChuck>) -> Vec<(String, Option<String>, Option<Vec<String>>)> {
    chunks
        .iter()
        .map(|c| {
            (
                c.token_str.clone(),
                c.halt_reason.clone(),
                c.tool_calls.as_ref().map(|calls| calls.iter().map(|t| t.name.clone()).collect()),
            )
        })
        .collect()
}

#[test]
fn absent_model_is_not_found() {
    let m = manager();
    assert!(matches!(chat_generate(&m, &chat_call("gpt")), Err(ServeError::ModelNotFound)));
    let call = GenerateCall { model: "gpt".to_string(), prompt: "p".to_string(), stream: None, generate_params: None };
    assert!(matches!(open_completion(&m, &call), Err(ServeError::ModelNotFound)));
    assert!(matches!(
        chat_completion(&m, "gpt", &vec![Message::new("user", "U")], None, None, false),
        Err(ServeError::ModelNotFound)
    ));
    assert!(matches!(chat_generate(&ModelManager::new(), &chat_call("llama")), Err(ServeError::ModelNotFound)));
}

#[test]
fn completion_takes_the_prompt_as_it_came() {
    let m = manager();
    let call = GenerateCall {
        model: "llama".to_string(),
        prompt: "Once {upon}".to_string(),
        stream: Some(true),
        generate_params: Some(LlmParams { max_tokens: Some(7), top_k: None }),
    };
    let plan = open_completion(&m, &call).unwrap();
    assert_eq!(plan.prompt, "Once {upon}");
    assert_eq!(plan.max_tokens, 7);
    assert_eq!(plan.stops, vec!["</s>".to_string()]);
    assert!(plan.stream);
}

#[test]
fn completion_defaults_to_32_tokens() {
    let m = manager();
    let call = GenerateCall { model: "llama".to_string(), prompt: "p".to_string(), stream: None, generate_params: None };
    let plan = open_completion(&m, &call).unwrap();
    assert_eq!(plan.max_tokens, 32);
    assert!(!plan.stream);
    let call = GenerateCall {
        model: "llama".to_string(),
        prompt: "p".to_string(),
        stream: Some(false),
        generate_params: Some(LlmParams { max_tokens: None, top_k: Some(3) }),
    };
    assert_eq!(open_completion(&m, &call).unwrap().max_tokens, 32);
}

#[test]
fn negative_request_asks_for_nothing() {
    let m = manager();
    let call = GenerateCall {
        model: "llama".to_string(),
        prompt: "p".to_string(),
        stream: None,
        generate_params: Some(LlmParams { max_tokens: Some(-5), top_k: None }),
    };
    assert_eq!(open_completion(&m, &call).unwrap().max_tokens, 0);
}

#[test]
fn chat_assembles_the_prompt() {
    let m = manager();
    let plan = chat_generate(&m, &chat_call("llama")).unwrap();
    assert_eq!(plan.prompt, "[U]U[/U][A]");
    assert_eq!(plan.max_tokens, 128);
    assert_eq!(plan.stops, vec!["</s>".to_string()]);
    assert!(!plan.stream);
    assert!(!plan.has_tools);
    assert!(!plan.json_format);
}

#[test]
fn chat_falls_back_to_512_tokens() {
    let mut config = ModelConfig::default();
    config.num_predict = None;
    let mut m = ModelManager::new();
    m.register("bare".to_string(), ModelState { config, chat_template: template() });
    assert_eq!(chat_generate(&m, &chat_call("bare")).unwrap().max_tokens, 512);
    let mut call = chat_call("bare");
    call.generate_params = Some(LlmParams { max_tokens: Some(9), top_k: None });
    assert_eq!(chat_generate(&m, &call).unwrap().max_tokens, 9);
}

#[test]
fn chat_with_tools_puts_the_tool_message_first() {
    let m = manager();
    let mut call = chat_call("llama");
    call.tools = Some(vec![search()]);
    call.stream = Some(true);
    let plan = chat_generate(&m, &call).unwrap();
    assert_eq!(
        plan.prompt,
        "[T][{\"name\":\"search\",\"description\":\"d\",\"arguments\":null}][/T][U]U[/U][A]"
    );
    assert!(plan.has_tools);
    assert!(plan.stream);
}

#[test]
fn chat_with_an_invalid_role_is_refused() {
    let m = manager();
    let mut call = chat_call("llama");
    call.messages.push(Message::new("narrator", "N"));
    assert!(matches!(chat_generate(&m, &call), Err(ServeError::InvalidRole)));
}

#[test]
fn tool_message_is_injected_at_index_zero() {
    let messages = vec![Message::new("system", "S"), Message::new("user", "U")];
    let plain = with_tool_message(&messages, &None);
    assert_eq!(plain.len(), 2);
    assert_eq!(plain[0].role, "system");
    let with = with_tool_message(&messages, &Some(vec![]));
    assert_eq!(with.len(), 3);
    assert_eq!(with[0].role, "tool");
    assert_eq!(with[0].content, "[]");
    assert_eq!(with[1].content, "S");
    assert_eq!(with[2].content, "U");
}

#[test]
fn definitions_are_copied_whole() {
    let defs = vec![search()];
    let copy = copy_definitions(&defs);
    assert_eq!(copy.len(), 1);
    assert_eq!(copy[0].name, "search");
    assert_eq!(copy[0].description, "d");
    assert!(copy[0].arguments.is_none());
}

#[test]
fn flags_default_to_false() {
    assert!(flag(Some(true)));
    assert!(!flag(Some(false)));
    assert!(!flag(None));
}

#[test]
fn visible_token_becomes_a_token_chunk() {
    let mut state = XmlState::new();
    let chunks = chat_chunks(&mut state, true, &vec![search()], "llama", &event("Hello", false));
    assert_eq!(chunks.len(), 1);
    assert_eq!(chunks[0].token_str, "Hello");
    assert_eq!(chunks[0].role, "assistant");
    assert_eq!(chunks[0].model, "llama");
    assert_eq!(chunks[0].halt_reason, None);
    assert!(chunks[0].tool_calls.is_none());
    assert_eq!(chunks[0].meta.name, "Friday by Shurburt");
    assert_eq!(chunks[0].meta.version, "0.1.0");
}

#[test]
fn tagged_block_becomes_one_tool_call_chunk() {
    let defs = vec![search()];
    let mut state = XmlState::new();
    let mut all = Vec::new();
    for t in ["Sure", "<", "tool", ">", "{\"name\":", "\"search\"}", "</", "tool", ">", "!"] {
        all.extend(chat_chunks(&mut state, true, &defs, "llama", &event(t, false)));
    }
    all.extend(chat_chunks(&mut state, true, &defs, "llama", &event("Sure!", true)));
    assert_eq!(
        summary(&all),
        vec![
            ("Sure".to_string(), None, None),
            (String::new(), None, Some(vec!["search".to_string()])),
            ("!".to_string(), None, None),
            ("Sure!".to_string(), Some("done".to_string()), None),
        ]
    );
}

#[test]
fn unknown_tool_yields_an_empty_call_chunk() {
    let defs = vec![search()];
    let mut state = XmlState::new();
    let mut all = Vec::new();
    for t in ["<tool>", "{\"name\":\"other\"}", "</", "tool", ">"] {
        all.extend(chat_chunks(&mut state, true, &defs, "llama", &event(t, false)));
    }
    assert_eq!(summary(&all), vec![(String::new(), None, Some(vec![]))]);
}

#[test]
fn the_token_that_completes_a_tag_is_withheld() {
    let mut state = XmlState::new();
    let mut all = Vec::new();
    for t in ["<t>", "x", "</", "t>", "ol>", ">"] {
        all.extend(chat_chunks(&mut state, true, &Vec::new(), "m", &event(t, false)));
    }
    assert_eq!(
        summary(&all),
        vec![(String::new(), None, Some(vec![])), ("ol>".to_string(), None, None)]
    );
}

#[test]
fn without_tools_the_machine_stays_idle() {
    let mut state = XmlState::new();
    let mut all = Vec::new();
    for t in ["<", "b", ">", "x"] {
        all.extend(chat_chunks(&mut state, false, &Vec::new(), "m", &event(t, false)));
    }
    assert!(!state.in_xml_tag);
    assert_eq!(
        summary(&all),
        vec![("<".to_string(), None, None), ("b".to_string(), None, None), ("x".to_string(), None, None)]
    );
}

#[test]
fn terminal_event_always_yields_the_halt_chunk() {
    let mut state = XmlState::new();
    chat_chunks(&mut state, true, &Vec::new(), "m", &event("<", false));
    assert!(state.halt_output);
    let chunks = chat_chunks(&mut state, true, &Vec::new(), "m", &event(">", true));
    assert_eq!(summary(&chunks), vec![(">".to_string(), Some("done".to_string()), None)]);
    assert_eq!(chunks[0].model, "");
    assert!(state.halt_output);
}

#[test]
fn digest_gathers_text_and_calls() {
    let defs = vec![search()];
    let tokens: Vec<String> = ["A", "<t>", "{\"name\":\"search\"}", "</", "t", ">", "B", ">", "C"]
        .iter()
        .map(|s| s.to_string())
        .collect();
    let digest = chat_digest(&tokens, true, &defs);
    assert_eq!(digest.text, "ABC");
    assert_eq!(digest.tool_calls.len(), 1);
    assert_eq!(digest.tool_calls[0].name, "search");
    let merged: Vec<String> = ["A", "<t>", "{\"name\":\"search\"}", "</", "t>", "B"].iter().map(|s| s.to_string()).collect();
    assert_eq!(chat_digest(&merged, true, &defs).text, "AB");
    let plain = chat_digest(&tokens, false, &defs);
    assert_eq!(plain.text, "A<t>{\"name\":\"search\"}</tBC");
    assert!(plain.tool_calls.is_empty());
}

#[test]
fn chat_response_aggregates_the_run() {
    let mut result = LlamaResult::default();
    result.generated_tokens_data = vec!["Hi".to_string(), " there".to_string()];
    result.duration_micros = 3;
    let r = chat_response("llama", &result, false, &Vec::new());
    assert_eq!(r.model, "llama");
    assert_eq!(r.response, "Hi there");
    assert_eq!(r.took, 3000);
    assert!(r.halt_reason.is_none());
    assert!(r.tool_calls.is_none());
    let r = chat_response("llama", &result, true, &vec![search()]);
    assert_eq!(r.tool_calls.map(|c| c.len()), Some(0));
}

#[test]
fn completion_chunks_mark_the_end() {
    let chunk = completion_chunk("llama", &event("tok", false));
    assert_eq!(chunk.token_str, "tok");
    assert_eq!(chunk.model, "llama");
    assert_eq!(chunk.halt_reason, None);
    let last = completion_chunk("llama", &event("all", true));
    assert_eq!(last.token_str, "all");
    assert_eq!(last.halt_reason, Some("End of stream".to_string()));
}

#[test]
fn completion_response_joins_the_tokens() {
    let mut result = LlamaResult::default();
    result.generated_tokens_data = vec!["a".to_string(), "b".to_string(), "c".to_string()];
    result.duration_micros = 2_000_000;
    let r = completion_response("llama", &result);
    assert_eq!(r.response, "abc");
    assert_eq!(r.model, "llama");
    assert_eq!(r.took, 2_000_000_000);
    assert!(r.halt_reason.is_none());
    assert_eq!(r.meta.name, "Friday by Shurburt");
}

#[test]
fn model_list_names_every_model() {
    let mut m = manager();
    m.register("mistral".to_string(), ModelState { config: ModelConfig::default(), chat_template: template() });
    let r = list_models(&m);
    let names: Vec<(String, String)> = r.models.iter().map(|o| (o.name.clone(), o.type_str.clone())).collect();
    assert_eq!(
        names,
        vec![("llama".to_string(), "model".to_string()), ("mistral".to_string(), "model".to_string())]
    );
    assert!(list_models(&load_models(vec![])).models.is_empty());
}

#[test]
fn tool_response_is_recorded_at_the_end() {
    let mut messages = vec![Message::new("user", "U")];
    record_tool_response(&mut messages, "[{\"name\":\"search\"}]");
    assert_eq!(messages.len(), 2);
    assert_eq!(messages[1].role, "tool_response");
    assert_eq!(messages[1].content, "[{\"name\":\"search\"}]");
}

#[test]
fn chunk_constructors_fill_their_fields() {
    let t = ChatGenerateResponseChuck::new_token("m", "tok");
    assert_eq!((t.token_str.as_str(), t.role.as_str(), t.model.as_str()), ("tok", "assistant", "m"));
    assert!(t.halt_reason.is_none() && t.tool_calls.is_none());
    let c = ChatGenerateResponseChuck::new_tool_call("m", vec![]);
    assert_eq!((c.token_str.as_str(), c.role.as_str(), c.model.as_str()), ("", "assistant", "m"));
    assert!(c.halt_reason.is_none());
    assert_eq!(c.tool_calls.map(|v| v.len()), Some(0));
    let h = ChatGenerateResponseChuck::new_halt("full", "done");
    assert_eq!((h.token_str.as_str(), h.role.as_str(), h.model.as_str()), ("full", "assistant", ""));
    assert_eq!(h.halt_reason, Some("done".to_string()));
    assert!(h.tool_calls.is_none());
}

#[test]
fn metadata_names_the_server() {
    let at = ServerMetadata::at(1_700_000_000);
    assert_eq!(at.name, "Friday by Shurburt");
    assert_eq!(at.version, "0.1.0");
    assert_eq!(at.timestamp, 1_700_000_000);
    let now = ServerMetadata::new();
    assert_eq!(now.name, "Friday by Shurburt");
    assert_eq!(now.version, "0.1.0");
    assert!(now.timestamp > 1_600_000_000);
}

#[test]
fn error_response_carries_the_message() {
    let e = ErrorResponse::new("Model not found");
    assert_eq!(e.message, "Model not found");
    assert_eq!(e.meta.name, "Friday by Shurburt");
    assert_eq!(ServeError::ModelNotFound.message(), "Model not found");
    assert_eq!(ServeError::InvalidRole.message(), "Invalid role");
    assert_eq!(
        ServeError::PromptTooLarge.message(),
        "n_len > n_ctx, the prompt is to big to fit in context"
    );
}

#[test]
fn chat_completion_defaults_to_32_tokens() {
    let m = manager();
    let messages = vec![Message::new("system", "S"), Message::new("user", "U")];
    let plan = chat_completion(&m, "llama", &messages, None, Some(true), true).unwrap();
    assert_eq!(plan.prompt, "[S]S[/S][U]U[/U][A]");
    assert_eq!(plan.max_tokens, 32);
    assert!(plan.stream);
    assert!(plan.json_format);
    assert!(!plan.has_tools);
    let plan = chat_completion(&m, "llama", &messages, Some(5), None, false).unwrap();
    assert_eq!(plan.max_tokens, 5);
    assert!(!plan.stream);
    assert!(!plan.json_format);
}

#[test]
fn sse_frames_end_with_done() {
    assert_eq!(sse_frame("{\"a\":1}"), "data: {\"a\":1}\n\n");
    assert_eq!(sse_done(), "data: [DONE]\n\n");
    assert_eq!(chat_stream("{}", false), vec!["data: {}\n\n".to_string()]);
    assert_eq!(
        chat_stream("{}", true),
        vec!["data: {}\n\n".to_string(), "data: [DONE]\n\n".to_string()]
    );
}

#[test]
fn ping_is_answered_with_pong() {
    assert_eq!(index().message, "pong");
}

#[test]
fn finish_reason_marks_the_last_chunk() {
    assert_eq!(finish_reason(true), Some("complete".to_string()));
    assert_eq!(finish_reason(false), None);
}

#[test]
fn streamed_chunks_agree_with_the_digest() {
    let defs = vec![search()];
    let runs: Vec<Vec<&str>> = vec![
        vec!["Hi", " ", "there"],
        vec!["A", "<", "tool", ">", "{\"name\":\"search\"}", "</", "tool", ">", "B"],
        vec!["<t>", "[{\"name\":\"search\"},{\"name\":\"search\"}]", "</", "t>", ">", "x"],
        vec![">", "<", "never", "closed"],
        vec![],
    ];
    for run in runs {
        for has_tools in [false, true] {
            let tokens: Vec<String> = run.iter().map(|s| s.to_string()).collect();
            let digest = chat_digest(&tokens, has_tools, &defs);
            let mut state = XmlState::new();
            let mut text = String::new();
            let mut calls = Vec::new();
            for t in &tokens {
                for chunk in chat_chunks(&mut state, has_tools, &defs, "m", &event(t, false)) {
                    text.push_str(&chunk.token_str);
                    if let Some(found) = chunk.tool_calls {
                        calls.extend(found.into_iter().map(|c| c.name));
                    }
                }
            }
            assert_eq!(text, digest.text);
            let names: Vec<String> = digest.tool_calls.iter().map(|c| c.name.clone()).collect();
            assert_eq!(calls, names);
        }
    }
}

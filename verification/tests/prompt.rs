use shurbai::engine::is_safe;
use shurbai::errors::ServeError;
use shurbai::message::Message;
use shurbai::prompt::{
    generate_chat_prompt, message_context, push_rendered, template_slot, tool_call_example, ChatTemplate,
};

fn template() -> ChatTemplate {
    ChatTemplate {
        user_template: "[U]{content}[/U]".to_string(),
        system_template: "[S]{content}[/S]".to_string(),
        assistant_template: "[AS]{content}[/AS]".to_string(),
        tool_response_template: None,
        tool_template: "[T]{tools}|{template}[/T]".to_string(),
        tool_prompt_template: None,
        assistant_prompt_template: "[A]".to_string(),
        stops: vec!["[/AS]".to_string()],
    }
}

#[test]
fn prompt_renders_in_order_with_suffix() {
    let messages = vec![Message::new("system", "S"), Message::new("user", "U")];
    assert_eq!(generate_chat_prompt(&messages, &template()), Ok("[S]S[/S][U]U[/U][A]".to_string()));
}

#[test]
fn empty_conversation_is_the_suffix_alone() {
    assert_eq!(generate_chat_prompt(&Vec::new(), &template()), Ok("[A]".to_string()));
}

#[test]
fn content_is_not_escaped() {
    let messages = vec![Message::new("user", "a < b && \"c\" > 'd'")];
    assert_eq!(
        generate_chat_prompt(&messages, &template()),
        Ok("[U]a < b && \"c\" > 'd'[/U][A]".to_string())
    );
}

#[test]
fn content_with_braces_is_taken_as_it_is() {
    let messages = vec![Message::new("assistant", "{content} {{x}} \\")];
    assert_eq!(
        generate_chat_prompt(&messages, &template()),
        Ok("[AS]{content} {{x}} \\[/AS][A]".to_string())
    );
}

#[test]
fn tool_message_shows_tools_and_the_call_example() {
    let messages = vec![Message::new("tool", "[]")];
    let expected = format!("[T][]|{}[/T][A]", tool_call_example());
    assert_eq!(generate_chat_prompt(&messages, &template()), Ok(expected));
}

#[test]
fn call_example_is_the_documented_shape() {
    assert_eq!(
        tool_call_example(),
        "{\n  \"name\": \"name_of_tool\",\n  \"arguments\": {\n      \"name_of_argument_one\": \"content_of_argument_one\",\n      \"name_of_argument_two\": \"content_of_argument_two\"\n    }\n}"
    );
}

#[test]
fn tool_response_falls_back_to_the_assistant_template() {
    let messages = vec![Message::new("tool_response", "R")];
    assert_eq!(generate_chat_prompt(&messages, &template()), Ok("[AS]R[/AS][A]".to_string()));
    let mut own = template();
    own.tool_response_template = Some("[R]{content}[/R]".to_string());
    assert_eq!(generate_chat_prompt(&messages, &own), Ok("[R]R[/R][A]".to_string()));
}

#[test]
fn unknown_role_is_refused() {
    let messages = vec![Message::new("user", "U"), Message::new("narrator", "N")];
    assert_eq!(generate_chat_prompt(&messages, &template()), Err(ServeError::InvalidRole));
    let messages = vec![Message::new("", "N")];
    assert_eq!(generate_chat_prompt(&messages, &template()), Err(ServeError::InvalidRole));
    let messages = vec![Message::new("User", "N")];
    assert_eq!(generate_chat_prompt(&messages, &template()), Err(ServeError::InvalidRole));
}

#[test]
fn blocks_comments_and_escapes_are_rendered() {
    let mut t = template();
    t.user_template = "{{ if content }}[{content}]{{ else }}[]{{ endif }}".to_string();
    t.system_template = "{# a note #}S:{content}".to_string();
    t.assistant_template = "\\{content}={content}".to_string();
    let messages = vec![
        Message::new("system", "s"),
        Message::new("user", "u"),
        Message::new("user", ""),
        Message::new("assistant", "a"),
    ];
    assert_eq!(generate_chat_prompt(&messages, &t), Ok("S:s[u][]{content}=a[A]".to_string()));
    let mut t = template();
    t.user_template = "{{ if not content }}none{{ else }}{content}{{ endif }}".to_string();
    let messages = vec![Message::new("user", ""), Message::new("user", "x")];
    assert_eq!(generate_chat_prompt(&messages, &t), Ok("nonex[A]".to_string()));
}

#[test]
fn a_template_may_call_another() {
    let mut t = template();
    t.tool_response_template = Some("<{@root}>".to_string());
    t.user_template = "[{{ call tool_calls with content }}]".to_string();
    let messages = vec![Message::new("user", "U")];
    assert_eq!(generate_chat_prompt(&messages, &t), Ok("[<U>][A]".to_string()));
}

#[test]
fn templates_that_call_in_a_circle_end_in_an_error() {
    let messages = vec![Message::new("user", "U"), Message::new("assistant", "A")];
    let mut t = template();
    t.user_template = "{{ call user with content }}".to_string();
    assert_eq!(generate_chat_prompt(&Vec::new(), &t), Ok("[A]".to_string()));
    assert_eq!(generate_chat_prompt(&messages, &t), Err(ServeError::RenderFailed));
    let mut t = template();
    t.user_template = "{{ with content as c }}{{ call assistant with c }}{{ endwith }}".to_string();
    t.assistant_template = "{{ with content as c }}{{ call user with c }}{{ endwith }}".to_string();
    assert_eq!(generate_chat_prompt(&messages, &t), Err(ServeError::RenderFailed));
    let mut t = template();
    t.user_template = "{{ call user with @root }}".to_string();
    assert_eq!(generate_chat_prompt(&messages, &t), Err(ServeError::RenderFailed));
    let mut t = template();
    t.user_template = "{{ for x in @root }}{{ call user with x }}{{ endfor }}".to_string();
    assert_eq!(generate_chat_prompt(&messages, &t), Err(ServeError::RenderFailed));
}

#[test]
fn texts_that_the_compiler_would_not_answer_are_unsupported() {
    for bad in ["tail\\", "{#}", "a{#}b", "{{ if not }}x{{ endif }}", "{{if not}}", "{{- if not -}}", "{{ if not\u{e9} }}"] {
        let mut t = template();
        t.tool_template = bad.to_string();
        assert_eq!(generate_chat_prompt(&Vec::new(), &t), Err(ServeError::TemplateUnsupported), "{:?}", bad);
        assert!(!is_safe(bad), "{:?}", bad);
    }
}

#[test]
fn template_that_does_not_compile_is_rejected() {
    let mut t = template();
    t.system_template = "[S]{content".to_string();
    assert_eq!(generate_chat_prompt(&Vec::new(), &t), Err(ServeError::TemplateRejected));
    let mut t = template();
    t.user_template = "{@nonsense}".to_string();
    assert_eq!(generate_chat_prompt(&Vec::new(), &t), Err(ServeError::TemplateRejected));
}

#[test]
fn first_faulty_template_decides_the_error() {
    let mut t = template();
    t.system_template = "{content".to_string();
    t.user_template = "{#}".to_string();
    assert_eq!(generate_chat_prompt(&Vec::new(), &t), Err(ServeError::TemplateRejected));
    let mut t = template();
    t.system_template = "{#}".to_string();
    t.user_template = "{content".to_string();
    assert_eq!(generate_chat_prompt(&Vec::new(), &t), Err(ServeError::TemplateUnsupported));
    let mut t = template();
    t.system_template = "{{ call system with content }}".to_string();
    t.user_template = "{{ unknown }}".to_string();
    assert_eq!(generate_chat_prompt(&Vec::new(), &t), Err(ServeError::TemplateRejected));
}

#[test]
fn template_with_an_unknown_value_fails_to_render() {
    let mut t = template();
    t.user_template = "{missing}".to_string();
    assert_eq!(generate_chat_prompt(&Vec::new(), &t), Ok("[A]".to_string()));
    let messages = vec![Message::new("user", "U")];
    assert_eq!(generate_chat_prompt(&messages, &t), Err(ServeError::RenderFailed));
}

#[test]
fn first_faulty_message_decides_the_error() {
    let mut t = template();
    t.user_template = "{missing}".to_string();
    let messages = vec![Message::new("user", "U"), Message::new("narrator", "N")];
    assert_eq!(generate_chat_prompt(&messages, &t), Err(ServeError::RenderFailed));
    let messages = vec![Message::new("narrator", "N"), Message::new("user", "U")];
    assert_eq!(generate_chat_prompt(&messages, &t), Err(ServeError::InvalidRole));
}

#[test]
fn safe_texts_are_all_but_a_few() {
    for good in [
        "",
        "<|user|>\n{content}<|end|>\n",
        "{ content | unescaped }",
        "a{{b",
        "a{#b",
        "a\\b",
        "{# #}",
        "{##}",
        "{{ if not content }}x{{ endif }}",
        "{{ if notx }}",
        "{{ if content }}not }}{{ endif }}",
        "do not }} reply",
        "{{ for x in y }}{{ endfor }}",
    ] {
        assert!(is_safe(good), "{:?}", good);
    }
    for bad in ["\\", "x\\", "{#}", "{{if not}}", "{{ if  not  }}", "{{ if not", "{{-if-not-}}", "{{ if not\u{a0}x }}"] {
        assert!(!is_safe(bad), "{:?}", bad);
    }
}

#[test]
fn roles_map_to_their_slots() {
    assert_eq!(template_slot("system"), Some("system"));
    assert_eq!(template_slot("user"), Some("user"));
    assert_eq!(template_slot("assistant"), Some("assistant"));
    assert_eq!(template_slot("tool"), Some("tool"));
    assert_eq!(template_slot("tool_response"), Some("tool_calls"));
    assert_eq!(template_slot("tool_calls"), None);
    assert_eq!(template_slot("other"), None);
}

#[test]
fn message_context_names_the_values() {
    assert_eq!(
        message_context(&Message::new("user", "hi")),
        vec![("content".to_string(), "hi".to_string())]
    );
    assert_eq!(
        message_context(&Message::new("tool", "[]")),
        vec![
            ("tools".to_string(), "[]".to_string()),
            ("template".to_string(), tool_call_example().to_string()),
        ]
    );
}

#[test]
fn push_rendered_appends_or_fails() {
    let mut prompt = "a".to_string();
    assert_eq!(push_rendered(&mut prompt, Some("b".to_string())), Ok(()));
    assert_eq!(prompt, "ab");
    assert_eq!(push_rendered(&mut prompt, None), Err(ServeError::RenderFailed));
    assert_eq!(prompt, "ab");
}

#[test]
fn template_copy_is_equal() {
    let t = template();
    let c = t.duplicate();
    assert_eq!(c.user_template, t.user_template);
    assert_eq!(c.system_template, t.system_template);
    assert_eq!(c.assistant_template, t.assistant_template);
    assert_eq!(c.tool_response_template, t.tool_response_template);
    assert_eq!(c.tool_template, t.tool_template);
    assert_eq!(c.tool_prompt_template, t.tool_prompt_template);
    assert_eq!(c.assistant_prompt_template, t.assistant_prompt_template);
    assert_eq!(c.stops, t.stops);
}

#[test]
fn message_new_copies_role_and_content() {
    let m = Message::new("user", "hello");
    assert_eq!(m.role, "user");
    assert_eq!(m.content, "hello");
    let d = m.duplicate();
    assert_eq!(d.role, "user");
    assert_eq!(d.content, "hello");
}

fn assemble_every(pieces: &[&str], depth: usize, text: &mut String, tried: &mut usize, refused: &mut usize) {
    let mut t = template();
    t.user_template = text.clone();
    let outcome = generate_chat_prompt(&vec![Message::new("user", "U")], &t);
    *tried += 1;
    if is_safe(text) {
        assert!(outcome != Err(ServeError::TemplateUnsupported), "{:?}", text);
    } else {
        assert_eq!(outcome, Err(ServeError::TemplateUnsupported), "{:?}", text);
        *refused += 1;
    }
    if depth == 0 {
        return;
    }
    for piece in pieces {
        let length = text.len();
        text.push_str(piece);
        assemble_every(pieces, depth - 1, text, tried, refused);
        text.truncate(length);
    }
}

#[test]
fn every_safe_text_is_answered_by_the_engine() {
    let mut tried = 0;
    let mut refused = 0;
    let wide = ["{{", "}}", "{", "}", "{#", "#}", "#", "if", "not", " ", "-", "\\", "x", "\u{e9}", "@root", "\n"];
    assemble_every(&wide, 3, &mut String::new(), &mut tried, &mut refused);
    let narrow = ["{{", "}}", "if", "not", " ", "-", "\u{e9}", "x"];
    assemble_every(&narrow, 5, &mut String::new(), &mut tried, &mut refused);
    assert!(tried > 40_000);
    assert!(refused > 0 && refused * 4 < tried);
}

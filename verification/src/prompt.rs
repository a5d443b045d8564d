//! The prompt assembler: renders role-tagged messages through a model's
//! chat template into one prompt.

use vstd::prelude::*;
use vstd::string::StringExecFns;
use crate::engine::{
    engine_add, engine_new, engine_render, engine_set_unescaped, engine_templates, engine_unescaped, is_safe,
    no_templates, rendered_in, template_compiles, template_is_safe,
};
use crate::errors::ServeError;
use crate::json::pairs_of;
use crate::message::{messages_of, Message, MessageView};
use crate::text::{copy_text, same_text, text_of, texts_of};

verus! {

/// The templates of one model: one per role, the text that opens the
/// assistant's turn, and the stop strings.
#[derive(Clone, Debug)]
pub struct ChatTemplate {
    pub user_template: String,
    pub system_template: String,
    pub assistant_template: String,
    /// Renders `tool_response` messages; the assistant template does where
    /// this one is missing.
    pub tool_response_template: Option<String>,
    pub tool_template: String,
    pub tool_prompt_template: Option<String>,
    pub assistant_prompt_template: String,
    pub stops: Vec<String>,
}

/// The mathematical value of a [`ChatTemplate`].
pub struct ChatTemplateView {
    pub user_template: Seq<char>,
    pub system_template: Seq<char>,
    pub assistant_template: Seq<char>,
    pub tool_response_template: Option<Seq<char>>,
    pub tool_template: Seq<char>,
    pub tool_prompt_template: Option<Seq<char>>,
    pub assistant_prompt_template: Seq<char>,
    pub stops: Seq<Seq<char>>,
}

impl View for ChatTemplate {
    type V = ChatTemplateView;

    open spec fn view(&self) -> ChatTemplateView {
        ChatTemplateView {
            user_template: self.user_template@,
            system_template: self.system_template@,
            assistant_template: self.assistant_template@,
            tool_response_template: text_of(self.tool_response_template),
            tool_template: self.tool_template@,
            tool_prompt_template: text_of(self.tool_prompt_template),
            assistant_prompt_template: self.assistant_prompt_template@,
            stops: texts_of(self.stops@),
        }
    }
}

impl ChatTemplate {
    /// A copy of the templates.
    pub fn duplicate(&self) -> (r: ChatTemplate)
        ensures
            r@ == self@,
    {
        let mut stops: Vec<String> = Vec::new();
        let mut i: usize = 0;
        while i < self.stops.len()
            invariant
                i <= self.stops.len(),
                stops.len() == i,
                forall|j: int| 0 <= j < i ==> stops@[j]@ == self.stops@[j]@,
            decreases self.stops.len() - i,
        {
            stops.push(self.stops[i].clone());
            i += 1;
        }
        assert(texts_of(stops@) =~= texts_of(self.stops@));
        ChatTemplate {
            user_template: self.user_template.clone(),
            system_template: self.system_template.clone(),
            assistant_template: self.assistant_template.clone(),
            tool_response_template: copy_text(&self.tool_response_template),
            tool_template: self.tool_template.clone(),
            tool_prompt_template: copy_text(&self.tool_prompt_template),
            assistant_prompt_template: self.assistant_prompt_template.clone(),
            stops,
        }
    }
}

impl ChatTemplateView {
    /// The template that renders `tool_response` messages.
    pub open spec fn tool_response(self) -> Seq<char> {
        match self.tool_response_template {
            Some(t) => t,
            None => self.assistant_template,
        }
    }

    /// The templates as the engine holds them, each under the name of its
    /// slot.
    pub open spec fn held(self) -> Map<Seq<char>, Seq<char>> {
        no_templates().insert("system"@, self.system_template).insert("user"@, self.user_template).insert(
            "assistant"@,
            self.assistant_template,
        ).insert("tool"@, self.tool_template).insert("tool_calls"@, self.tool_response())
    }

    /// The templates in the order in which the engine takes them.
    pub open spec fn in_order(self) -> Seq<Seq<char>> {
        seq![
            self.system_template,
            self.user_template,
            self.assistant_template,
            self.tool_template,
            self.tool_response(),
        ]
    }
}

/// The example of a call that a `tool` message shows beside the tools.
pub open spec fn tool_call_example_text() -> Seq<char> {
    "{\n  \"name\": \"name_of_tool\",\n  \"arguments\": {\n      \"name_of_argument_one\": \"content_of_argument_one\",\n      \"name_of_argument_two\": \"content_of_argument_two\"\n    }\n}"@
}

/// The example of a call that a `tool` message shows beside the tools.
pub fn tool_call_example() -> (r: &'static str)
    ensures
        r@ == tool_call_example_text(),
{
    "{\n  \"name\": \"name_of_tool\",\n  \"arguments\": {\n      \"name_of_argument_one\": \"content_of_argument_one\",\n      \"name_of_argument_two\": \"content_of_argument_two\"\n    }\n}"
}

/// The values that a message's template can use: a `tool` message offers
/// its content as `tools` and the call example as `template`; any other
/// message offers its content as `content`.
pub open spec fn message_fields(m: MessageView) -> Seq<(Seq<char>, Seq<char>)> {
    if m.role == "tool"@ {
        seq![("tools"@, m.content), ("template"@, tool_call_example_text())]
    } else {
        seq![("content"@, m.content)]
    }
}

/// Why the engine cannot take `text`, if it cannot: `TemplateUnsupported`
/// for a text that its compiler would not answer, `TemplateRejected` for
/// one that its compiler refuses.
pub open spec fn template_fault(text: Seq<char>) -> Option<ServeError> {
    if !template_is_safe(text) {
        Some(ServeError::TemplateUnsupported)
    } else if !template_compiles(text) {
        Some(ServeError::TemplateRejected)
    } else {
        None
    }
}

/// The fault of the first of `texts` that has one.
pub open spec fn first_fault(texts: Seq<Seq<char>>) -> Option<ServeError>
    decreases texts.len(),
{
    if texts.len() == 0 {
        None
    } else {
        match template_fault(texts[0]) {
            Some(e) => Some(e),
            None => first_fault(texts.drop_first()),
        }
    }
}

/// Why the templates cannot serve, if they cannot: the fault of the first
/// that has one.
pub open spec fn templates_fault(t: ChatTemplateView) -> Option<ServeError> {
    first_fault(t.in_order())
}

/// One message, rendered by the template of its role: `InvalidRole` where
/// no template matches the role, `RenderFailed` where the engine reports
/// an error.
pub open spec fn render_message(t: ChatTemplateView, m: MessageView) -> Result<Seq<char>, ServeError> {
    match slot_of(m.role) {
        None => Err(ServeError::InvalidRole),
        Some(name) => match rendered_in(t.held(), name, message_fields(m), true) {
            Some(s) => Ok(s),
            None => Err(ServeError::RenderFailed),
        },
    }
}

/// The messages rendered in order and joined, or the error of the first
/// message that has one.
pub open spec fn render_messages(t: ChatTemplateView, ms: Seq<MessageView>) -> Result<Seq<char>, ServeError>
    decreases ms.len(),
{
    if ms.len() == 0 {
        Ok(Seq::empty())
    } else {
        match render_messages(t, ms.drop_last()) {
            Err(e) => Err(e),
            Ok(before) => match render_message(t, ms.last()) {
                Err(e) => Err(e),
                Ok(s) => Ok(before + s),
            },
        }
    }
}

/// The prompt of a conversation: every message rendered by the template
/// of its role, in order, then the text that opens the assistant's turn.
/// Templates that cannot serve fail the prompt before any message is
/// looked at.
pub open spec fn spec_chat_prompt(t: ChatTemplateView, ms: Seq<MessageView>) -> Result<Seq<char>, ServeError> {
    match templates_fault(t) {
        Some(e) => Err(e),
        None => match render_messages(t, ms) {
            Err(e) => Err(e),
            Ok(body) => Ok(body + t.assistant_prompt_template),
        },
    }
}

/// The value of a prompt or its error.
pub open spec fn prompt_of(r: Result<String, ServeError>) -> Result<Seq<char>, ServeError> {
    match r {
        Ok(s) => Ok(s@),
        Err(e) => Err(e),
    }
}

/// The name under which the engine holds the template of `role`.
pub open spec fn slot_of(role: Seq<char>) -> Option<Seq<char>> {
    if role == "tool"@ {
        Some("tool"@)
    } else if role == "user"@ {
        Some("user"@)
    } else if role == "assistant"@ {
        Some("assistant"@)
    } else if role == "system"@ {
        Some("system"@)
    } else if role == "tool_response"@ {
        Some("tool_calls"@)
    } else {
        None
    }
}

/// The name under which the engine holds the template of `role`; `None`
/// for a role that no template renders.
pub fn template_slot(role: &str) -> (r: Option<&'static str>)
    ensures
        match r {
            Some(name) => slot_of(role@) == Some(name@),
            None => slot_of(role@) is None,
        },
{
    if same_text(role, "tool") {
        Some("tool")
    } else if same_text(role, "user") {
        Some("user")
    } else if same_text(role, "assistant") {
        Some("assistant")
    } else if same_text(role, "system") {
        Some("system")
    } else if same_text(role, "tool_response") {
        Some("tool_calls")
    } else {
        None
    }
}

/// The values that the template of `message` can use.
pub fn message_context(message: &Message) -> (r: Vec<(String, String)>)
    ensures
        pairs_of(r@) == message_fields(message@),
{
    if same_text(message.role.as_str(), "tool") {
        let r = vec![
            ("tools".to_string(), message.content.clone()),
            ("template".to_string(), tool_call_example().to_string()),
        ];
        r
    } else {
        let r = vec![("content".to_string(), message.content.clone())];
        r
    }
}

/// Adds what the engine rendered to the prompt, or reports that it
/// rendered nothing.
pub fn push_rendered(prompt: &mut String, piece: Option<String>) -> (r: Result<(), ServeError>)
    ensures
        match piece {
            Some(s) => r is Ok && final(prompt)@ == old(prompt)@ + s@,
            None => r == Err::<(), ServeError>(ServeError::RenderFailed) && final(prompt)@ == old(prompt)@,
        },
{
    match piece {
        Some(s) => {
            prompt.append(s.as_str());
            Ok(())
        },
        None => Err(ServeError::RenderFailed),
    }
}

/// The five names under which the engine holds a chat template differ.
proof fn lemma_slots_differ()
    ensures
        "system"@ != "user"@,
        "system"@ != "assistant"@,
        "system"@ != "tool"@,
        "system"@ != "tool_calls"@,
        "user"@ != "assistant"@,
        "user"@ != "tool"@,
        "user"@ != "tool_calls"@,
        "assistant"@ != "tool"@,
        "assistant"@ != "tool_calls"@,
        "tool"@ != "tool_calls"@,
        "tool_response"@ != "tool"@,
        "tool_response"@ != "user"@,
        "tool_response"@ != "assistant"@,
        "tool_response"@ != "system"@,
{
    reveal_strlit("system");
    reveal_strlit("user");
    reveal_strlit("assistant");
    reveal_strlit("tool");
    reveal_strlit("tool_calls");
    reveal_strlit("tool_response");
    assert("user"@[0] == 'u');
    assert("assistant"@[0] == 'a');
    assert("tool"@.len() == 4);
    assert("tool_calls"@.len() == 10);
    assert("tool_response"@.len() == 13);
}

/// Hands `text` to the engine under `name`, if the engine can take it.
fn install<'template>(
    engine: &mut tinytemplate::TinyTemplate<'template>,
    name: &'template str,
    text: &'template str,
) -> (r: Result<(), ServeError>)
    ensures
        engine_unescaped(final(engine)) == engine_unescaped(old(engine)),
        match template_fault(text@) {
            Some(e) => r == Err::<(), ServeError>(e),
            None => r is Ok && engine_templates(final(engine)) == engine_templates(old(engine)).insert(name@, text@),
        },
{
    if !is_safe(text) {
        return Err(ServeError::TemplateUnsupported);
    }
    if !engine_add(engine, name, text) {
        return Err(ServeError::TemplateRejected);
    }
    Ok(())
}

/// The fault of five templates is that of the first that has one.
proof fn lemma_first_fault_of_five(a: Seq<char>, b: Seq<char>, c: Seq<char>, d: Seq<char>, e: Seq<char>)
    ensures
        first_fault(seq![a, b, c, d, e]) == (match template_fault(a) {
            Some(x) => Some(x),
            None => match template_fault(b) {
                Some(x) => Some(x),
                None => match template_fault(c) {
                    Some(x) => Some(x),
                    None => match template_fault(d) {
                        Some(x) => Some(x),
                        None => template_fault(e),
                    },
                },
            },
        }),
{
    assert(seq![a, b, c, d, e].drop_first() =~= seq![b, c, d, e]);
    assert(seq![b, c, d, e].drop_first() =~= seq![c, d, e]);
    assert(seq![c, d, e].drop_first() =~= seq![d, e]);
    assert(seq![d, e].drop_first() =~= seq![e]);
    assert(seq![e].drop_first() =~= Seq::<Seq<char>>::empty());
    assert(first_fault(Seq::<Seq<char>>::empty()) is None);
    assert(first_fault(seq![e]) == template_fault(e));
    assert(first_fault(seq![d, e]) == (match template_fault(d) {
        Some(x) => Some(x),
        None => template_fault(e),
    }));
    assert(first_fault(seq![c, d, e]) == (match template_fault(c) {
        Some(x) => Some(x),
        None => first_fault(seq![d, e]),
    }));
    assert(first_fault(seq![b, c, d, e]) == (match template_fault(b) {
        Some(x) => Some(x),
        None => first_fault(seq![c, d, e]),
    }));
}

/// An error among the first `k` messages is the error of the whole list.
proof fn lemma_render_error_persists(t: ChatTemplateView, ms: Seq<MessageView>, k: int)
    requires
        0 <= k <= ms.len(),
        render_messages(t, ms.take(k)) is Err,
    ensures
        render_messages(t, ms) == render_messages(t, ms.take(k)),
    decreases ms.len() - k,
{
    if k == ms.len() {
        assert(ms.take(k) =~= ms);
    } else {
        assert(ms.take(k + 1).drop_last() =~= ms.take(k));
        lemma_render_error_persists(t, ms, k + 1);
    }
}

/// Assembles the prompt of a conversation.
///
/// The five templates go to the engine first: one that its compiler would
/// not answer fails the prompt with `TemplateUnsupported`, one that it
/// refuses with `TemplateRejected`. Then every message is rendered by the
/// template of
/// its role, in order: a role without a template fails the prompt with
/// `InvalidRole`, a message that the engine cannot render with
/// `RenderFailed`. The text that opens the assistant's turn ends the
/// prompt.
pub fn generate_chat_prompt(messages: &Vec<Message>, template: &ChatTemplate) -> (r: Result<String, ServeError>)
    ensures
        prompt_of(r) == spec_chat_prompt(template@, messages_of(messages@)),
        templates_fault(template@) is None && renders_all(template@, messages_of(messages@)) ==> (r is Err
            <==> has_invalid_role(messages_of(messages@))) && (r is Err ==> r == Err::<String, ServeError>(
            ServeError::InvalidRole,
        )),
{
    let ghost t = template@;
    let ghost ms = messages_of(messages@);
    proof {
        if templates_fault(t) is None && renders_all(t, ms) {
            lemma_prompt_fails_only_on_roles(t, ms);
        }
        lemma_slots_differ();
        lemma_first_fault_of_five(
            t.system_template,
            t.user_template,
            t.assistant_template,
            t.tool_template,
            t.tool_response(),
        );
    }
    let tool_response: &str = match &template.tool_response_template {
        Some(text) => text.as_str(),
        None => template.assistant_template.as_str(),
    };
    let mut engine = engine_new();
    engine_set_unescaped(&mut engine);
    match install(&mut engine, "system", template.system_template.as_str()) {
        Err(e) => {
            return Err(e);
        },
        Ok(_) => {},
    }
    match install(&mut engine, "user", template.user_template.as_str()) {
        Err(e) => {
            return Err(e);
        },
        Ok(_) => {},
    }
    match install(&mut engine, "assistant", template.assistant_template.as_str()) {
        Err(e) => {
            return Err(e);
        },
        Ok(_) => {},
    }
    match install(&mut engine, "tool", template.tool_template.as_str()) {
        Err(e) => {
            return Err(e);
        },
        Ok(_) => {},
    }
    match install(&mut engine, "tool_calls", tool_response) {
        Err(e) => {
            return Err(e);
        },
        Ok(_) => {},
    }
    let ghost held = engine_templates(&engine);
    assert(held == t.held());

    let mut prompt = String::new();
    let mut i: usize = 0;
    while i < messages.len()
        invariant
            i <= messages.len(),
            t == template@,
            ms == messages_of(messages@),
            engine_unescaped(&engine),
            engine_templates(&engine) == held,
            held == t.held(),
            templates_fault(t) is None,
            render_messages(t, ms.take(i as int)) == Ok::<Seq<char>, ServeError>(prompt@),
        decreases messages.len() - i,
    {
        let message = &messages[i];
        proof {
            lemma_slots_differ();
            assert(ms.take(i + 1).drop_last() =~= ms.take(i as int));
        }
        match template_slot(message.role.as_str()) {
            None => {
                proof {
                    lemma_render_error_persists(t, ms, i + 1);
                }
                return Err(ServeError::InvalidRole);
            },
            Some(name) => {
                let fields = message_context(message);
                let piece = engine_render(&engine, name, &fields);
                match push_rendered(&mut prompt, piece) {
                    Err(e) => {
                        proof {
                            assert(render_message(t, message@) == Err::<Seq<char>, ServeError>(
                                ServeError::RenderFailed,
                            ));
                            lemma_render_error_persists(t, ms, i + 1);
                        }
                        return Err(e);
                    },
                    Ok(_) => {},
                }
            },
        }
        i += 1;
    }
    assert(ms.take(messages.len() as int) =~= ms);
    prompt.append(template.assistant_prompt_template.as_str());
    Ok(prompt)
}


/// Every message of a role that a template renders is rendered by the
/// engine without error.
pub open spec fn renders_all(t: ChatTemplateView, ms: Seq<MessageView>) -> bool {
    forall|i: int|
        0 <= i < ms.len() && slot_of((#[trigger] ms[i]).role) is Some ==> rendered_in(
            t.held(),
            slot_of(ms[i].role)->0,
            message_fields(ms[i]),
            true,
        ) is Some
}

/// Some message has a role that no template renders.
pub open spec fn has_invalid_role(ms: Seq<MessageView>) -> bool {
    exists|i: int| 0 <= i < ms.len() && slot_of((#[trigger] ms[i]).role) is None
}

/// With templates that serve and messages that the engine renders, the
/// messages fail to render exactly where one of them has a role that no
/// template renders, and then with `InvalidRole`.
proof fn lemma_messages_fail_only_on_roles(t: ChatTemplateView, ms: Seq<MessageView>)
    requires
        renders_all(t, ms),
    ensures
        render_messages(t, ms) is Err <==> has_invalid_role(ms),
        render_messages(t, ms) is Err ==> render_messages(t, ms) == Err::<Seq<char>, ServeError>(
            ServeError::InvalidRole,
        ),
    decreases ms.len(),
{
    if ms.len() > 0 {
        let rest = ms.drop_last();
        assert(renders_all(t, rest)) by {
            assert forall|i: int| 0 <= i < rest.len() && slot_of((#[trigger] rest[i]).role) is Some implies rendered_in(
                t.held(),
                slot_of(rest[i].role)->0,
                message_fields(rest[i]),
                true,
            ) is Some by {
                assert(rest[i] == ms[i]);
            }
        }
        lemma_messages_fail_only_on_roles(t, rest);
        let last = ms[ms.len() - 1];
        if has_invalid_role(rest) {
            let i = choose|i: int| 0 <= i < rest.len() && slot_of((#[trigger] rest[i]).role) is None;
            assert(ms[i] == rest[i]);
        }
        if has_invalid_role(ms) && !has_invalid_role(rest) {
            let i = choose|i: int| 0 <= i < ms.len() && slot_of((#[trigger] ms[i]).role) is None;
            if i < rest.len() {
                assert(rest[i] == ms[i]);
            }
        }
    }
}

/// With templates that serve and messages that the engine renders, the
/// prompt fails exactly where a message has a role that no template
/// renders, and then with `InvalidRole`; else it is the rendered messages
/// with the text that opens the assistant's turn behind them.
pub proof fn lemma_prompt_fails_only_on_roles(t: ChatTemplateView, ms: Seq<MessageView>)
    requires
        templates_fault(t) is None,
        renders_all(t, ms),
    ensures
        spec_chat_prompt(t, ms) is Err <==> has_invalid_role(ms),
        spec_chat_prompt(t, ms) is Err ==> spec_chat_prompt(t, ms) == Err::<Seq<char>, ServeError>(
            ServeError::InvalidRole,
        ),
{
    lemma_messages_fail_only_on_roles(t, ms);
}

} // verus!

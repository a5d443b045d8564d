//! Tool definitions, tool calls, and the resolver that turns an extracted
//! payload into the calls that the request allows.

use vstd::prelude::*;
use vstd::string::StringExecFns;
use crate::json::{json_array, json_object, json_quoted, json_string, pairs_of, quote, read_array, read_object, read_string};
use crate::message::Message;
use crate::text::{copy_text, join, join_texts, same_text, text_of, texts_of};

verus! {

/// One argument that a tool takes.
#[derive(Clone, Debug)]
pub struct ToolArguments {
    pub name: String,
    pub description: String,
    pub data_type: String,
}

/// A tool that the caller offers to the model.
#[derive(Clone, Debug)]
pub struct ToolDefinition {
    pub name: String,
    pub description: String,
    pub arguments: Option<Vec<ToolArguments>>,
}

/// One named argument of a call, as text.
#[derive(Clone, Debug)]
pub struct ToolParameters {
    pub name: String,
    pub argument: String,
}

/// A call that the model asks for. `arguments` holds the JSON text of the
/// call's arguments, where it gave any.
#[derive(Clone, Debug)]
pub struct ToolCall {
    pub name: String,
    pub arguments: Option<String>,
}

/// The mathematical value of a [`ToolArguments`].
pub struct ToolArgumentsView {
    pub name: Seq<char>,
    pub description: Seq<char>,
    pub data_type: Seq<char>,
}

/// The mathematical value of a [`ToolDefinition`].
pub struct ToolDefinitionView {
    pub name: Seq<char>,
    pub description: Seq<char>,
    pub arguments: Option<Seq<ToolArgumentsView>>,
}

/// The mathematical value of a [`ToolCall`].
pub struct ToolCallView {
    pub name: Seq<char>,
    pub arguments: Option<Seq<char>>,
}

impl View for ToolArguments {
    type V = ToolArgumentsView;

    open spec fn view(&self) -> ToolArgumentsView {
        ToolArgumentsView { name: self.name@, description: self.description@, data_type: self.data_type@ }
    }
}

impl View for ToolDefinition {
    type V = ToolDefinitionView;

    open spec fn view(&self) -> ToolDefinitionView {
        ToolDefinitionView {
            name: self.name@,
            description: self.description@,
            arguments: arguments_of(self.arguments),
        }
    }
}

/// The values of an optional list of tool arguments.
pub open spec fn arguments_of(args: Option<Vec<ToolArguments>>) -> Option<Seq<ToolArgumentsView>> {
    match args {
        Some(list) => Some(Seq::new(list@.len(), |i: int| list@[i]@)),
        None => None,
    }
}

impl View for ToolCall {
    type V = ToolCallView;

    open spec fn view(&self) -> ToolCallView {
        ToolCallView { name: self.name@, arguments: text_of(self.arguments) }
    }
}

/// The values of a list of tool definitions.
pub open spec fn definitions_of(v: Seq<ToolDefinition>) -> Seq<ToolDefinitionView> {
    Seq::new(v.len(), |i: int| v[i]@)
}

/// The values of a list of tool calls.
pub open spec fn calls_of(v: Seq<ToolCall>) -> Seq<ToolCallView> {
    Seq::new(v.len(), |i: int| v[i]@)
}

/// The value of an optional tool call.
pub open spec fn call_of(o: Option<ToolCall>) -> Option<ToolCallView> {
    match o {
        Some(c) => Some(c@),
        None => None,
    }
}

impl ToolCall {
    /// A copy of the call.
    pub fn duplicate(&self) -> (r: ToolCall)
        ensures
            r@ == self@,
    {
        ToolCall { name: self.name.clone(), arguments: copy_text(&self.arguments) }
    }
}

// ---------------------------------------------------------------------
// Reading calls
// ---------------------------------------------------------------------

/// The value text of the first member named `key`.
pub open spec fn member_value(members: Seq<(Seq<char>, Seq<char>)>, key: Seq<char>) -> Option<Seq<char>>
    decreases members.len(),
{
    if members.len() == 0 {
        None
    } else if members[0].0 == key {
        Some(members[0].1)
    } else {
        member_value(members.drop_first(), key)
    }
}

/// The arguments of a call whose `arguments` member has the text `raw`: a
/// missing member and the text `null` both stand for no arguments.
pub open spec fn call_arguments(raw: Option<Seq<char>>) -> Option<Seq<char>> {
    match raw {
        Some(text) => if text == "null"@ { None } else { Some(text) },
        None => None,
    }
}

/// The call that the JSON object `text` describes: its `name` member must
/// be a string; its `arguments` member is kept as text.
pub open spec fn spec_tool_call(text: Seq<char>) -> Option<ToolCallView> {
    match json_object(text) {
        Some(members) => match member_value(members, "name"@) {
            Some(raw_name) => match json_string(raw_name) {
                Some(name) => Some(
                    ToolCallView { name, arguments: call_arguments(member_value(members, "arguments"@)) },
                ),
                None => None,
            },
            None => None,
        },
        None => None,
    }
}

/// The calls that a list of object texts describes, if every one of them
/// describes a call.
pub open spec fn spec_call_list(items: Seq<Seq<char>>) -> Option<Seq<ToolCallView>> {
    if forall|i: int| 0 <= i < items.len() ==> spec_tool_call(#[trigger] items[i]) is Some {
        Some(Seq::new(items.len(), |i: int| spec_tool_call(items[i])->0))
    } else {
        None
    }
}

/// The calls of a payload that holds at most the one call `single`.
pub open spec fn single_call(single: Option<ToolCallView>) -> Seq<ToolCallView> {
    match single {
        Some(c) => seq![c],
        None => Seq::empty(),
    }
}

/// The calls that a payload describes: those of a list of calls where the
/// payload reads as one, else the one call that it reads as, else none.
pub open spec fn spec_tool_calls(payload: Seq<char>) -> Seq<ToolCallView> {
    match json_array(payload) {
        Some(items) => match spec_call_list(items) {
            Some(calls) => calls,
            None => single_call(spec_tool_call(payload)),
        },
        None => single_call(spec_tool_call(payload)),
    }
}

/// A tool named `name` is among `defs`.
pub open spec fn is_known(defs: Seq<ToolDefinitionView>, name: Seq<char>) -> bool {
    exists|i: int| 0 <= i < defs.len() && (#[trigger] defs[i]).name == name
}

/// The calls among `calls` whose tool is among `defs`, in order.
pub open spec fn known_calls(calls: Seq<ToolCallView>, defs: Seq<ToolDefinitionView>) -> Seq<ToolCallView>
    decreases calls.len(),
{
    if calls.len() == 0 {
        Seq::empty()
    } else {
        let rest = known_calls(calls.drop_last(), defs);
        if is_known(defs, calls.last().name) {
            rest.push(calls.last())
        } else {
            rest
        }
    }
}

/// Looks up the value text of the first member named `key`.
pub fn find_field(members: &Vec<(String, String)>, key: &str) -> (r: Option<String>)
    ensures
        text_of(r) == member_value(pairs_of(members@), key@),
{
    let mut i: usize = 0;
    assert(pairs_of(members@).skip(0) =~= pairs_of(members@));
    while i < members.len()
        invariant
            i <= members.len(),
            member_value(pairs_of(members@), key@) == member_value(pairs_of(members@).skip(i as int), key@),
        decreases members.len() - i,
    {
        proof {
            let rest = pairs_of(members@).skip(i as int);
            assert(rest.drop_first() =~= pairs_of(members@).skip(i + 1));
        }
        if same_text(members[i].0.as_str(), key) {
            return Some(members[i].1.clone());
        }
        i += 1;
    }
    None
}

/// Builds the call named `name` whose `arguments` member has the text
/// `raw_arguments`.
pub fn tool_call_from(name: String, raw_arguments: Option<String>) -> (r: ToolCall)
    ensures
        r@ == (ToolCallView { name: name@, arguments: call_arguments(text_of(raw_arguments)) }),
{
    match raw_arguments {
        Some(text) => {
            if same_text(text.as_str(), "null") {
                ToolCall { name, arguments: None }
            } else {
                ToolCall { name, arguments: Some(text) }
            }
        },
        None => ToolCall { name, arguments: None },
    }
}

/// Reads one call from the text of a JSON object. `None` where the text
/// is not an object with a string for its name.
pub fn parse_tool_call(tool_call: &str) -> (r: Option<ToolCall>)
    ensures
        call_of(r) == spec_tool_call(tool_call@),
{
    match read_object(tool_call) {
        Some(members) => match find_field(&members, "name") {
            Some(raw_name) => match read_string(raw_name.as_str()) {
                Some(name) => Some(tool_call_from(name, find_field(&members, "arguments"))),
                None => None,
            },
            None => None,
        },
        None => None,
    }
}

/// Reads one call from each text of `items`. `None` unless every text
/// describes a call.
pub fn parse_call_list(items: &Vec<String>) -> (r: Option<Vec<ToolCall>>)
    ensures
        match r {
            Some(calls) => spec_call_list(texts_of(items@)) == Some(calls_of(calls@)),
            None => spec_call_list(texts_of(items@)) is None,
        },
{
    let mut calls: Vec<ToolCall> = Vec::new();
    let mut i: usize = 0;
    while i < items.len()
        invariant
            i <= items.len(),
            calls.len() == i,
            forall|j: int| 0 <= j < i ==> spec_tool_call(#[trigger] texts_of(items@)[j]) == Some(calls@[j]@),
        decreases items.len() - i,
    {
        match parse_tool_call(items[i].as_str()) {
            Some(call) => {
                calls.push(call);
            },
            None => {
                assert(spec_tool_call(texts_of(items@)[i as int]) is None);
                return None;
            },
        }
        i += 1;
    }
    assert(calls_of(calls@) =~= Seq::new(
        texts_of(items@).len(),
        |i: int| spec_tool_call(texts_of(items@)[i])->0,
    ));
    Some(calls)
}

/// The calls that a payload describes: those of a list of calls where the
/// payload reads as one, else the one call that it reads as, else none. A
/// payload that cannot be read yields no call and no error.
pub fn parse_tool_calls(payload: &str) -> (r: Vec<ToolCall>)
    ensures
        calls_of(r@) == spec_tool_calls(payload@),
{
    let listed = match read_array(payload) {
        Some(items) => parse_call_list(&items),
        None => None,
    };
    match listed {
        Some(calls) => calls,
        None => match parse_tool_call(payload) {
            Some(call) => {
                let calls = vec![call];
                calls
            },
            None => {
                let calls: Vec<ToolCall> = Vec::new();
                calls
            },
        },
    }
}

/// Whether a tool named `name` is among `defs`.
pub fn has_tool(defs: &Vec<ToolDefinition>, name: &str) -> (r: bool)
    ensures
        r == is_known(definitions_of(defs@), name@),
{
    let mut i: usize = 0;
    while i < defs.len()
        invariant
            i <= defs.len(),
            forall|j: int| 0 <= j < i ==> (#[trigger] definitions_of(defs@)[j]).name != name@,
        decreases defs.len() - i,
    {
        if same_text(defs[i].name.as_str(), name) {
            assert(definitions_of(defs@)[i as int].name == name@);
            return true;
        }
        i += 1;
    }
    false
}

/// Keeps the calls whose tool is among `defs`, in order, and drops the
/// others.
pub fn retain_known(calls: &Vec<ToolCall>, defs: &Vec<ToolDefinition>) -> (r: Vec<ToolCall>)
    ensures
        calls_of(r@) == known_calls(calls_of(calls@), definitions_of(defs@)),
{
    let mut kept: Vec<ToolCall> = Vec::new();
    let mut i: usize = 0;
    while i < calls.len()
        invariant
            i <= calls.len(),
            calls_of(kept@) == known_calls(calls_of(calls@).take(i as int), definitions_of(defs@)),
        decreases calls.len() - i,
    {
        proof {
            let all = calls_of(calls@);
            assert(all.take(i + 1).drop_last() =~= all.take(i as int));
        }
        if has_tool(defs, calls[i].name.as_str()) {
            kept.push(calls[i].duplicate());
        }
        i += 1;
    }
    assert(calls_of(calls@).take(calls.len() as int) =~= calls_of(calls@));
    kept
}

/// Resolves an extracted payload: reads the calls that it describes and
/// keeps those whose tool the request offers. A payload that cannot be
/// read resolves to no call.
pub fn resolve_tool_calls(payload: &str, defs: &Vec<ToolDefinition>) -> (r: Vec<ToolCall>)
    ensures
        calls_of(r@) == known_calls(spec_tool_calls(payload@), definitions_of(defs@)),
{
    let calls = parse_tool_calls(payload);
    retain_known(&calls, defs)
}

/// Every call that the resolver returns names a tool of the request and
/// is one of the calls that the payload describes.
pub proof fn lemma_known_calls_are_known(calls: Seq<ToolCallView>, defs: Seq<ToolDefinitionView>)
    ensures
        known_calls(calls, defs).len() <= calls.len(),
        forall|i: int|
            0 <= i < known_calls(calls, defs).len() ==> is_known(defs, (#[trigger] known_calls(calls, defs)[i]).name)
                && calls.contains(known_calls(calls, defs)[i]),
    decreases calls.len(),
{
    if calls.len() > 0 {
        lemma_known_calls_are_known(calls.drop_last(), defs);
        let rest = known_calls(calls.drop_last(), defs);
        let all = known_calls(calls, defs);
        assert forall|i: int| 0 <= i < all.len() implies is_known(defs, (#[trigger] all[i]).name)
            && calls.contains(all[i]) by {
            if i < rest.len() {
                let j = choose|j: int| 0 <= j < calls.drop_last().len() && calls.drop_last()[j] == rest[i];
                assert(calls[j] == all[i]);
            } else {
                assert(all[i] == calls[calls.len() - 1]);
            }
        }
    }
}

/// The message that records a resolved payload for a follow-up turn.
pub fn tool_response_message(payload: &str) -> (r: Message)
    ensures
        r@.role == "tool_response"@,
        r@.content == payload@,
{
    Message::new("tool_response", payload)
}


// ---------------------------------------------------------------------
// Writing definitions
// ---------------------------------------------------------------------

/// The JSON object of a tool argument whose three strings are already
/// quoted.
pub open spec fn argument_frame(name: Seq<char>, description: Seq<char>, data_type: Seq<char>) -> Seq<char> {
    "{\"name\":"@ + name + ",\"description\":"@ + description + ",\"data_type\":"@ + data_type + "}"@
}

/// The JSON object of a tool definition whose two strings are already
/// quoted and whose arguments are already written.
pub open spec fn definition_frame(name: Seq<char>, description: Seq<char>, arguments: Seq<char>) -> Seq<char> {
    "{\"name\":"@ + name + ",\"description\":"@ + description + ",\"arguments\":"@ + arguments + "}"@
}

/// The JSON array of elements that are already written.
pub open spec fn list_frame(items: Seq<Seq<char>>) -> Seq<char> {
    "["@ + join_texts(items, ","@) + "]"@
}

/// The JSON text of one tool argument.
pub open spec fn argument_text(a: ToolArgumentsView) -> Seq<char> {
    argument_frame(json_quoted(a.name), json_quoted(a.description), json_quoted(a.data_type))
}

/// The JSON text of a tool's arguments: `null` where it has none, else the
/// array of their texts.
pub open spec fn arguments_text(args: Option<Seq<ToolArgumentsView>>) -> Seq<char> {
    match args {
        None => "null"@,
        Some(list) => list_frame(Seq::new(list.len(), |i: int| argument_text(list[i]))),
    }
}

/// The JSON text of one tool definition.
pub open spec fn definition_text(d: ToolDefinitionView) -> Seq<char> {
    definition_frame(json_quoted(d.name), json_quoted(d.description), arguments_text(d.arguments))
}

/// The JSON text of a list of tool definitions: the array of their texts,
/// each an object with the members `name`, `description` and `arguments`
/// in that order.
pub open spec fn definitions_text(defs: Seq<ToolDefinitionView>) -> Seq<char> {
    list_frame(Seq::new(defs.len(), |i: int| definition_text(defs[i])))
}

/// Writes the JSON object of a tool argument from its quoted strings.
pub fn frame_argument(name: &str, description: &str, data_type: &str) -> (r: String)
    ensures
        r@ == argument_frame(name@, description@, data_type@),
{
    let mut out = "{\"name\":".to_string();
    out.append(name);
    out.append(",\"description\":");
    out.append(description);
    out.append(",\"data_type\":");
    out.append(data_type);
    out.append("}");
    out
}

/// Writes the JSON object of a tool definition from its quoted strings
/// and the text of its arguments.
pub fn frame_definition(name: &str, description: &str, arguments: &str) -> (r: String)
    ensures
        r@ == definition_frame(name@, description@, arguments@),
{
    let mut out = "{\"name\":".to_string();
    out.append(name);
    out.append(",\"description\":");
    out.append(description);
    out.append(",\"arguments\":");
    out.append(arguments);
    out.append("}");
    out
}

/// Writes the JSON array of elements that are already written.
pub fn frame_list(items: &Vec<String>) -> (r: String)
    ensures
        r@ == list_frame(texts_of(items@)),
{
    let mut out = "[".to_string();
    let inner = join(items, ",");
    out.append(inner.as_str());
    out.append("]");
    out
}

/// Writes one tool argument as JSON.
pub fn argument_json(a: &ToolArguments) -> (r: String)
    ensures
        r@ == argument_text(a@),
{
    let name = quote(a.name.as_str()).unwrap();
    let description = quote(a.description.as_str()).unwrap();
    let data_type = quote(a.data_type.as_str()).unwrap();
    frame_argument(name.as_str(), description.as_str(), data_type.as_str())
}

/// Writes a tool's arguments as JSON.
pub fn arguments_json(args: &Option<Vec<ToolArguments>>) -> (r: String)
    ensures
        r@ == arguments_text(arguments_of(*args)),
{
    match args {
        None => "null".to_string(),
        Some(list) => {
            let mut parts: Vec<String> = Vec::new();
            let mut i: usize = 0;
            while i < list.len()
                invariant
                    i <= list.len(),
                    parts.len() == i,
                    forall|j: int| 0 <= j < i ==> parts@[j]@ == argument_text(list@[j]@),
                decreases list.len() - i,
            {
                parts.push(argument_json(&list[i]));
                i += 1;
            }
            proof {
                let views = arguments_of(*args)->0;
                assert(texts_of(parts@) =~= Seq::new(views.len(), |i: int| argument_text(views[i])));
            }
            frame_list(&parts)
        },
    }
}

/// Writes one tool definition as JSON.
pub fn definition_json(d: &ToolDefinition) -> (r: String)
    ensures
        r@ == definition_text(d@),
{
    let name = quote(d.name.as_str()).unwrap();
    let description = quote(d.description.as_str()).unwrap();
    let arguments = arguments_json(&d.arguments);
    frame_definition(name.as_str(), description.as_str(), arguments.as_str())
}

/// Writes the offered tools as the JSON text that a `tool` message
/// carries.
pub fn build_tool_defs_text(tool_calls: Vec<ToolDefinition>) -> (r: String)
    ensures
        r@ == definitions_text(definitions_of(tool_calls@)),
{
    let mut parts: Vec<String> = Vec::new();
    let mut i: usize = 0;
    while i < tool_calls.len()
        invariant
            i <= tool_calls.len(),
            parts.len() == i,
            forall|j: int| 0 <= j < i ==> parts@[j]@ == definition_text(tool_calls@[j]@),
        decreases tool_calls.len() - i,
    {
        parts.push(definition_json(&tool_calls[i]));
        i += 1;
    }
    assert(texts_of(parts@) =~= Seq::new(
        tool_calls@.len(),
        |i: int| definition_text(definitions_of(tool_calls@)[i]),
    ));
    frame_list(&parts)
}

} // verus!

//! The grammar that holds a session's output to JSON.

use vstd::prelude::*;

verus! {

/// The JSON grammar, in the notation of the inference backend.
pub open spec fn json_grammar_text() -> Seq<char> {
    "root   ::= object\r\nvalue  ::= object | array | string | number | (\"true\" | \"false\" | \"null\")\r\n\r\nobject ::=\r\n  \"{\" (\r\n            string \":\" value\r\n    (\",\" string \":\" value)*\r\n  )? \"}\" \r\n\r\narray  ::=\r\n  \"[\" (\r\n            value\r\n    (\",\" value)*\r\n  )? \"]\" \r\n\r\nstring ::=\r\n  \"\\\"\" (\r\n    [^\"\\\\] |\r\n    \"\\\\\" ([\"\\\\/bfnrt] | \"u\" [0-9a-fA-F] [0-9a-fA-F] [0-9a-fA-F] [0-9a-fA-F]) # escapes\r\n  )* \"\\\"\"\r\n\r\nnumber ::= (\"-\"? ([0-9] | [1-9] [0-9]*)) (\".\" [0-9]+)? ([eE] [-+]? [0-9]+)?"@
}

/// The grammar that a session hands to the backend: the JSON grammar where
/// the session is held to JSON, none otherwise. The caller builds a fresh
/// grammar from it for every session.
pub fn load_grammar(json_format: bool) -> (r: Option<&'static str>)
    ensures
        match r {
            Some(text) => json_format && text@ == json_grammar_text(),
            None => !json_format,
        },
{
    if json_format {
        Some(
            "root   ::= object\r\nvalue  ::= object | array | string | number | (\"true\" | \"false\" | \"null\")\r\n\r\nobject ::=\r\n  \"{\" (\r\n            string \":\" value\r\n    (\",\" string \":\" value)*\r\n  )? \"}\" \r\n\r\narray  ::=\r\n  \"[\" (\r\n            value\r\n    (\",\" value)*\r\n  )? \"]\" \r\n\r\nstring ::=\r\n  \"\\\"\" (\r\n    [^\"\\\\] |\r\n    \"\\\\\" ([\"\\\\/bfnrt] | \"u\" [0-9a-fA-F] [0-9a-fA-F] [0-9a-fA-F] [0-9a-fA-F]) # escapes\r\n  )* \"\\\"\"\r\n\r\nnumber ::= (\"-\"? ([0-9] | [1-9] [0-9]*)) (\".\" [0-9]+)? ([eE] [-+]? [0-9]+)?",
        )
    } else {
        None
    }
}

} // verus!

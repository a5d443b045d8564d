//! The template engine, `tinytemplate`, as the prompt assembler uses it.
//!
//! The engine is a collection of named templates. What it makes of a
//! template is its own business: the contracts here give its answers a
//! name and are taken on trust. The library keeps from the engine only the
//! few texts on which its compiler would stop the program instead of
//! answering.

use vstd::prelude::*;
use std::collections::BTreeMap;
use crate::json::pairs_of;
use crate::text::{chars_of, contains_text, ends_with_text, matches_at, occurs_at, text_of};

verus! {

/// The engine: `tinytemplate::TinyTemplate`.
#[verifier::external_type_specification]
#[verifier::external_body]
pub struct ExTinyTemplate<'template>(tinytemplate::TinyTemplate<'template>);

/// The templates that an engine holds: each name with the text that was
/// added under it.
pub uninterp spec fn engine_templates(engine: &tinytemplate::TinyTemplate) -> Map<Seq<char>, Seq<char>>;

/// Whether an engine writes values as they are, without HTML escaping.
pub uninterp spec fn engine_unescaped(engine: &tinytemplate::TinyTemplate) -> bool;

/// Whether the engine accepts `text` as a template.
pub uninterp spec fn template_compiles(text: Seq<char>) -> bool;

/// What an engine that holds `templates` renders from the template named
/// `name` with the string values `fields`, escaping values or not; `None`
/// where it reports an error.
pub uninterp spec fn rendered_in(
    templates: Map<Seq<char>, Seq<char>>,
    name: Seq<char>,
    fields: Seq<(Seq<char>, Seq<char>)>,
    unescaped: bool,
) -> Option<Seq<char>>;

/// The templates of an engine that holds none.
pub open spec fn no_templates() -> Map<Seq<char>, Seq<char>> {
    Map::empty()
}

// ---------------------------------------------------------------------
// The texts that are kept from the engine
// ---------------------------------------------------------------------

/// A character that may stand between the parts of a block tag: a dash,
/// a blank or control character, or any character beyond ASCII (among
/// which are the other white spaces).
pub open spec fn is_gap(c: char) -> bool {
    c == '-' || c <= ' ' || c >= '\u{80}'
}

/// The first offset at or behind `from` that holds no gap character.
pub open spec fn skip_gap(text: Seq<char>, from: int) -> int
    decreases text.len() - from,
{
    if 0 <= from < text.len() && is_gap(text[from]) {
        skip_gap(text, from + 1)
    } else {
        from
    }
}

/// A block tag opens at `at` and its first word starts with `word`.
pub open spec fn block_word_at(text: Seq<char>, at: int, word: Seq<char>) -> bool {
    occurs_at(text, seq!['{', '{'], at) && occurs_at(text, word, skip_gap(text, at + 2))
}

/// The block tag at `at` is an `if` whose `not` is cut short: nothing
/// follows it but the end of the tag or of the text, or a character beyond
/// ASCII follows it at once.
pub open spec fn cut_negation_at(text: Seq<char>, at: int) -> bool {
    let word = skip_gap(text, at + 2);
    let not = skip_gap(text, word + 2);
    let rest = skip_gap(text, not + 3);
    &&& block_word_at(text, at, seq!['i', 'f'])
    &&& occurs_at(text, seq!['n', 'o', 't'], not)
    &&& (rest >= text.len() || text[rest] == '}' || (not + 3 < text.len() && text[not + 3] >= '\u{80}'))
}

/// Some `if` block of `text` has its `not` cut short.
pub open spec fn cuts_negation(text: Seq<char>) -> bool {
    exists|at: int| cut_negation_at(text, at)
}

/// A text that the engine's compiler answers, with a template or with an
/// error: it does not end in a backslash, holds no comment tag `{#}`, and
/// no `if` block of it has its `not` cut short.
pub open spec fn template_is_safe(text: Seq<char>) -> bool {
    &&& !ends_with_text(text, seq!['\\'])
    &&& !contains_text(text, seq!['{', '#', '}'])
    &&& !cuts_negation(text)
}

/// Whether `c` is a gap character.
pub fn is_gap_char(c: char) -> (r: bool)
    ensures
        r == is_gap(c),
{
    c == '-' || c <= ' ' || c >= '\u{80}'
}

/// Whether `pattern` stands in `text` at offset `at`, for any offset.
pub fn occurs(text: &Vec<char>, pattern: &Vec<char>, at: usize) -> (r: bool)
    ensures
        r == occurs_at(text@, pattern@, at as int),
{
    if pattern.len() <= text.len() && at <= text.len() - pattern.len() {
        matches_at(text, pattern, at)
    } else {
        false
    }
}

/// The first offset at or behind `from` that holds no gap character.
pub fn gap_end(text: &Vec<char>, from: usize) -> (r: usize)
    ensures
        r == skip_gap(text@, from as int),
        from <= r,
        from <= text.len() ==> r <= text.len(),
{
    let mut j: usize = from;
    while j < text.len() && is_gap_char(text[j])
        invariant
            from <= j,
            from <= text.len() ==> j <= text.len(),
            skip_gap(text@, from as int) == skip_gap(text@, j as int),
        decreases text.len() - j,
    {
        j += 1;
    }
    j
}

/// Whether a block tag opens at `at` and its first word starts with
/// `word`.
pub fn block_word(text: &Vec<char>, at: usize, word: &Vec<char>) -> (r: bool)
    ensures
        r == block_word_at(text@, at as int, word@),
{
    let open: Vec<char> = vec!['{', '{'];
    assert(open@ =~= seq!['{', '{']);
    if !occurs(text, &open, at) {
        return false;
    }
    assert(at + 2 <= text.len());
    occurs(text, word, gap_end(text, at + 2))
}

/// Whether the block tag at `at` is an `if` whose `not` is cut short.
pub fn cuts_negation_here(text: &Vec<char>, at: usize) -> (r: bool)
    ensures
        r == cut_negation_at(text@, at as int),
{
    let if_word: Vec<char> = vec!['i', 'f'];
    let not_word: Vec<char> = vec!['n', 'o', 't'];
    assert(if_word@ =~= seq!['i', 'f']);
    assert(not_word@ =~= seq!['n', 'o', 't']);
    if !block_word(text, at, &if_word) {
        return false;
    }
    assert(seq!['{', '{'].len() == 2 && at + 2 <= text.len());
    let word = gap_end(text, at + 2);
    assert(word + 2 <= text.len());
    let not = gap_end(text, word + 2);
    if !occurs(text, &not_word, not) {
        return false;
    }
    assert(not + 3 <= text.len());
    let rest = gap_end(text, not + 3);
    rest >= text.len() || text[rest] == '}' || (not + 3 < text.len() && text[not + 3] >= '\u{80}')
}

/// Whether the engine's compiler answers `text`.
pub fn is_safe(text: &str) -> (r: bool)
    ensures
        r == template_is_safe(text@),
{
    let t = chars_of(text);
    let backslash: Vec<char> = vec!['\\'];
    let comment: Vec<char> = vec!['{', '#', '}'];
    assert(backslash@ =~= seq!['\\']);
    assert(comment@ =~= seq!['{', '#', '}']);
    if t.len() >= 1 && occurs(&t, &backslash, t.len() - 1) {
        return false;
    }
    let mut i: usize = 0;
    while i < t.len()
        invariant
            i <= t.len(),
            t@ == text@,
            comment@ == seq!['{', '#', '}'],
            !ends_with_text(t@, seq!['\\']),
            forall|k: int| 0 <= k < i ==> !#[trigger] occurs_at(t@, comment@, k),
            forall|k: int| 0 <= k < i ==> !#[trigger] cut_negation_at(t@, k),
        decreases t.len() - i,
    {
        if occurs(&t, &comment, i) {
            return false;
        }
        if cuts_negation_here(&t, i) {
            return false;
        }
        i += 1;
    }
    true
}

// ---------------------------------------------------------------------
// The engine's functions
// ---------------------------------------------------------------------

/// Calls `TinyTemplate::new`: an engine that holds no template and escapes
/// the values it writes.
#[verifier::external_body]
pub(crate) fn engine_new<'template>() -> (r: tinytemplate::TinyTemplate<'template>)
    ensures
        engine_templates(&r) == no_templates(),
        engine_unescaped(&r) == false,
{
    tinytemplate::TinyTemplate::new()
}

/// Calls `TinyTemplate::set_default_formatter` with
/// `tinytemplate::format_unescaped`: from now on the engine writes values
/// as they are. Its templates stay.
#[verifier::external_body]
pub(crate) fn engine_set_unescaped(engine: &mut tinytemplate::TinyTemplate)
    ensures
        engine_unescaped(final(engine)),
        engine_templates(final(engine)) == engine_templates(old(engine)),
{
    engine.set_default_formatter(&tinytemplate::format_unescaped);
}

/// Calls `TinyTemplate::add_template` on a text that the engine's compiler
/// answers. Where the engine accepts the text, it holds it under `name`
/// afterwards, in place of what it held there; where it does not, nothing
/// changes. Whether it accepts depends on the text alone.
#[verifier::external_body]
pub(crate) fn engine_add<'template>(
    engine: &mut tinytemplate::TinyTemplate<'template>,
    name: &'template str,
    text: &'template str,
) -> (accepted: bool)
    requires
        template_is_safe(text@),
    ensures
        accepted == template_compiles(text@),
        engine_unescaped(final(engine)) == engine_unescaped(old(engine)),
        engine_templates(final(engine)) == (if accepted {
            engine_templates(old(engine)).insert(name@, text@)
        } else {
            engine_templates(old(engine))
        }),
{
    engine.add_template(name, text).is_ok()
}

/// Calls `TinyTemplate::render` with a context that maps each key of
/// `fields` to its string. An unknown name is an error; else the result is
/// what the engine renders from the template held under `name`, and
/// depends on the templates held, the name, the fields and the engine's
/// escaping alone. The engine always answers: every value of the context
/// is a string, so a template that is called sees a string, in which the
/// engine finds nothing to hand on to a further call.
#[verifier::external_body]
pub(crate) fn engine_render(
    engine: &tinytemplate::TinyTemplate,
    name: &str,
    fields: &Vec<(String, String)>,
) -> (r: Option<String>)
    ensures
        text_of(r) == (if engine_templates(engine).contains_key(name@) {
            rendered_in(engine_templates(engine), name@, pairs_of(fields@), engine_unescaped(engine))
        } else {
            None
        }),
{
    let context: BTreeMap<&str, &str> = fields.iter().map(|(k, v)| (k.as_str(), v.as_str())).collect();
    engine.render(name, &context).ok()
}

} // verus!

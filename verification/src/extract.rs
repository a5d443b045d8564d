//! Incremental extraction of tagged payloads from a token stream.
//!
//! The model writes ordinary text and, now and then, a block such as
//! `<tool>…</tool>` that holds a structured tool call. Tokens arrive one at
//! a time and a tag's markers may be split over several of them, so the
//! machine rebuilds the tag boundaries from the pieces.

use vstd::prelude::*;
use vstd::string::StringExecFns;
use crate::text::{
    concat_texts, contains, contains_text, ends_with, ends_with_text, same_text, starts_with, starts_with_text,
    text_of,
};

verus! {

/// The marker that opens a tag: `<`.
pub open spec fn open_marker() -> Seq<char> {
    seq!['<']
}

/// The marker that closes a tag: `>`.
pub open spec fn close_marker() -> Seq<char> {
    seq!['>']
}

/// The prefix of a closing tag: `</`.
pub open spec fn closing_prefix() -> Seq<char> {
    seq!['<', '/']
}

/// Per-session state of the extraction machine.
#[derive(Debug)]
pub struct XmlState {
    /// Tag markup is being accumulated.
    pub in_xml_tag: bool,
    /// An opening tag has completed and its closing tag has not.
    pub in_xml_body: bool,
    /// The last opening tag that completed, markers included.
    pub xml_tag_name: String,
    /// The text gathered between the opening tag and the closing tag.
    pub xml_body_content: String,
    /// The markup gathered for the tag that is being accumulated.
    pub current_accumulated_tag: String,
    /// Visible output is withheld.
    pub halt_output: bool,
}

/// The mathematical value of an [`XmlState`].
pub struct XmlStateView {
    pub in_xml_tag: bool,
    pub in_xml_body: bool,
    pub xml_tag_name: Seq<char>,
    pub xml_body_content: Seq<char>,
    pub current_accumulated_tag: Seq<char>,
    pub halt_output: bool,
}

/// Where the machine stands between two tokens.
#[derive(Clone, Copy, Debug, PartialEq, Eq, Structural)]
pub enum ExtractionPhase {
    /// Outside any tag and any body.
    Idle,
    /// Accumulating a tag while outside a body.
    AccumulatingTag,
    /// Inside a body, gathering its text.
    InBody,
    /// Inside a body, accumulating the tag that should close it.
    ClosingTag,
}

impl View for XmlState {
    type V = XmlStateView;

    open spec fn view(&self) -> XmlStateView {
        XmlStateView {
            in_xml_tag: self.in_xml_tag,
            in_xml_body: self.in_xml_body,
            xml_tag_name: self.xml_tag_name@,
            xml_body_content: self.xml_body_content@,
            current_accumulated_tag: self.current_accumulated_tag@,
            halt_output: self.halt_output,
        }
    }
}

impl XmlStateView {
    /// The state of a fresh session.
    pub open spec fn initial() -> XmlStateView {
        XmlStateView {
            in_xml_tag: false,
            in_xml_body: false,
            xml_tag_name: Seq::empty(),
            xml_body_content: Seq::empty(),
            current_accumulated_tag: Seq::empty(),
            halt_output: false,
        }
    }

    /// Output is withheld exactly while tag markup is being accumulated.
    pub open spec fn wf(self) -> bool {
        self.halt_output == self.in_xml_tag
    }

    /// The phase that the two flags stand for.
    pub open spec fn phase(self) -> ExtractionPhase {
        if self.in_xml_tag {
            if self.in_xml_body {
                ExtractionPhase::ClosingTag
            } else {
                ExtractionPhase::AccumulatingTag
            }
        } else if self.in_xml_body {
            ExtractionPhase::InBody
        } else {
            ExtractionPhase::Idle
        }
    }
}

/// The state after `token` and the payload that `token` completed, if any.
///
/// A token that holds `<` while no body is open starts a tag afresh. While
/// a tag is accumulated the token joins it; once the accumulated markup
/// ends with `>` the tag is complete: a closing tag (one that starts with
/// `</`) hands out the body gathered so far and leaves the body, any other
/// tag opens a body. Inside a body a token that holds `</` starts the
/// closing tag and any other token joins the body. Elsewhere the token is
/// plain text and nothing changes.
pub open spec fn extraction_step(s: XmlStateView, token: Seq<char>) -> (XmlStateView, Option<Seq<char>>) {
    let starts_tag = contains_text(token, open_marker()) && !s.in_xml_body;
    let accumulated = if starts_tag { Seq::<char>::empty() } else { s.current_accumulated_tag };
    if starts_tag || s.in_xml_tag {
        let tag = accumulated + token;
        if ends_with_text(tag, close_marker()) {
            if starts_with_text(tag, closing_prefix()) {
                (
                    XmlStateView {
                        in_xml_tag: false,
                        in_xml_body: false,
                        xml_tag_name: s.xml_tag_name,
                        xml_body_content: Seq::empty(),
                        current_accumulated_tag: Seq::empty(),
                        halt_output: false,
                    },
                    Some(s.xml_body_content),
                )
            } else {
                (
                    XmlStateView {
                        in_xml_tag: false,
                        in_xml_body: true,
                        xml_tag_name: tag,
                        xml_body_content: s.xml_body_content,
                        current_accumulated_tag: Seq::empty(),
                        halt_output: false,
                    },
                    None,
                )
            }
        } else {
            (
                XmlStateView {
                    in_xml_tag: true,
                    in_xml_body: s.in_xml_body,
                    xml_tag_name: s.xml_tag_name,
                    xml_body_content: s.xml_body_content,
                    current_accumulated_tag: tag,
                    halt_output: true,
                },
                None,
            )
        }
    } else if s.in_xml_body {
        if contains_text(token, closing_prefix()) {
            (
                XmlStateView {
                    in_xml_tag: true,
                    in_xml_body: true,
                    xml_tag_name: s.xml_tag_name,
                    xml_body_content: s.xml_body_content,
                    current_accumulated_tag: s.current_accumulated_tag + token,
                    halt_output: true,
                },
                None,
            )
        } else {
            (
                XmlStateView {
                    in_xml_tag: false,
                    in_xml_body: true,
                    xml_tag_name: s.xml_tag_name,
                    xml_body_content: s.xml_body_content + token,
                    current_accumulated_tag: s.current_accumulated_tag,
                    halt_output: false,
                },
                None,
            )
        }
    } else {
        (
            XmlStateView {
                in_xml_tag: false,
                in_xml_body: false,
                xml_tag_name: s.xml_tag_name,
                xml_body_content: s.xml_body_content,
                current_accumulated_tag: s.current_accumulated_tag,
                halt_output: false,
            },
            None,
        )
    }
}

/// The machine, in state `before`, takes `token` as tag markup: the token
/// starts a tag or joins the one that is being accumulated.
pub open spec fn token_is_markup(before: XmlStateView, token: Seq<char>) -> bool {
    ||| contains_text(token, open_marker()) && !before.in_xml_body
    ||| before.in_xml_tag
    ||| before.in_xml_body && contains_text(token, closing_prefix())
}

/// The machine, in state `before`, takes `token` as plain text: it is
/// outside any tag and any body and the token starts no tag.
pub open spec fn token_is_plain(before: XmlStateView, token: Seq<char>) -> bool {
    !before.in_xml_tag && !before.in_xml_body && !contains_text(token, open_marker())
}

/// Whether `token` belongs to the visible stream, given the state in which
/// the machine takes it: the machine takes it as plain text, and it is not
/// a lone `>`.
pub open spec fn token_is_visible(before: XmlStateView, token: Seq<char>) -> bool {
    token_is_plain(before, token) && token != close_marker()
}

/// Every step leaves the machine with output withheld exactly while tag
/// markup is being accumulated, and it hands out a payload only when it
/// leaves a body or meets a stray closing tag. A token is markup, part of
/// a body or plain text, and only plain text is visible: a visible token
/// leaves what the machine has gathered as it was, completes no payload,
/// and leaves output not withheld.
pub proof fn lemma_step_keeps_invariant(s: XmlStateView, token: Seq<char>)
    ensures
        extraction_step(s, token).0.wf(),
        extraction_step(s, token).1 is Some ==> !extraction_step(s, token).0.in_xml_tag && !extraction_step(
            s,
            token,
        ).0.in_xml_body && extraction_step(s, token).1 == Some(s.xml_body_content),
        extraction_step(s, token).1 is Some ==> token_is_markup(s, token),
        token_is_visible(s, token) ==> !token_is_markup(s, token),
        token_is_visible(s, token) ==> extraction_step(s, token) == (
            XmlStateView { halt_output: false, ..s },
            None::<Seq<char>>,
        ),
        !token_is_markup(s, token) && !token_is_plain(s, token) ==> extraction_step(s, token).0.xml_body_content
            == s.xml_body_content + token,
{
}

/// The views of the three string literals that the machine looks for.
pub proof fn lemma_markers()
    ensures
        "<"@ == open_marker(),
        ">"@ == close_marker(),
        "</"@ == closing_prefix(),
{
    reveal_strlit("<");
    reveal_strlit(">");
    reveal_strlit("</");
}

impl XmlState {
    /// The state of a fresh session: outside any tag, nothing gathered.
    pub fn new() -> (r: Self)
        ensures
            r@ == XmlStateView::initial(),
            r@.wf(),
    {
        XmlState {
            in_xml_tag: false,
            in_xml_body: false,
            xml_tag_name: String::new(),
            xml_body_content: String::new(),
            current_accumulated_tag: String::new(),
            halt_output: false,
        }
    }

    /// The phase that the machine is in.
    pub fn phase(&self) -> (r: ExtractionPhase)
        ensures
            r == self@.phase(),
    {
        if self.in_xml_tag {
            if self.in_xml_body {
                ExtractionPhase::ClosingTag
            } else {
                ExtractionPhase::AccumulatingTag
            }
        } else if self.in_xml_body {
            ExtractionPhase::InBody
        } else {
            ExtractionPhase::Idle
        }
    }
}

/// Feeds one token to the machine. Returns the payload of the body that the
/// token closed, if it closed one.
pub fn process_xml_token(xml_state: &mut XmlState, token: &str) -> (r: Option<String>)
    ensures
        final(xml_state)@ == extraction_step(old(xml_state)@, token@).0,
        text_of(r) == extraction_step(old(xml_state)@, token@).1,
        final(xml_state)@.wf(),
{
    proof {
        lemma_markers();
    }
    if contains(token, "<") && !xml_state.in_xml_body {
        xml_state.in_xml_tag = true;
        xml_state.current_accumulated_tag = String::new();
    }
    if xml_state.in_xml_tag {
        xml_state.current_accumulated_tag.append(token);
        if ends_with(xml_state.current_accumulated_tag.as_str(), ">") {
            xml_state.in_xml_tag = false;
            xml_state.halt_output = false;
            if starts_with(xml_state.current_accumulated_tag.as_str(), "</") {
                xml_state.in_xml_body = false;
                let content = xml_state.xml_body_content.clone();
                xml_state.xml_body_content = String::new();
                xml_state.current_accumulated_tag = String::new();
                return Some(content);
            } else {
                xml_state.in_xml_body = true;
                xml_state.xml_tag_name = xml_state.current_accumulated_tag.clone();
                xml_state.current_accumulated_tag = String::new();
            }
        } else {
            xml_state.halt_output = true;
        }
    } else if xml_state.in_xml_body {
        if contains(token, "</") {
            xml_state.in_xml_tag = true;
            xml_state.halt_output = true;
            xml_state.current_accumulated_tag.append(token);
        } else {
            xml_state.halt_output = false;
            xml_state.xml_body_content.append(token);
        }
    } else {
        xml_state.halt_output = false;
    }
    None
}

/// Whether `token` belongs to the visible stream, asked of the state in
/// which the machine is about to take it: the machine takes it as plain
/// text, and it is not a lone `>`. Markup and the text of a body are never
/// visible.
pub fn is_visible(xml_state: &XmlState, token: &str) -> (r: bool)
    ensures
        r == token_is_visible(xml_state@, token@),
{
    proof {
        lemma_markers();
    }
    !xml_state.in_xml_tag && !xml_state.in_xml_body && !contains(token, "<") && !same_text(token, ">")
}


// ---------------------------------------------------------------------
// A tagged block, however it is split into tokens
// ---------------------------------------------------------------------

/// The state after a run of tokens, and the payloads handed out along the
/// way, in order.
pub open spec fn feed(s: XmlStateView, tokens: Seq<Seq<char>>) -> (XmlStateView, Seq<Seq<char>>)
    decreases tokens.len(),
{
    if tokens.len() == 0 {
        (s, Seq::empty())
    } else {
        let before = feed(s, tokens.drop_last());
        let step = extraction_step(before.0, tokens.last());
        (
            step.0,
            match step.1 {
                Some(payload) => before.1.push(payload),
                None => before.1,
            },
        )
    }
}

/// The tokens spell one opening tag: the first holds `<` and no later one
/// does, the markup ends with `>` at the last token and not before, and it
/// does not start with `</`.
pub open spec fn spells_opening_tag(open: Seq<Seq<char>>) -> bool {
    &&& open.len() >= 1
    &&& contains_text(open[0], open_marker())
    &&& forall|j: int| 0 < j < open.len() ==> !contains_text(#[trigger] open[j], open_marker())
    &&& forall|k: int| 0 < k < open.len() ==> !ends_with_text(#[trigger] concat_texts(open.take(k)), close_marker())
    &&& ends_with_text(concat_texts(open), close_marker())
    &&& !starts_with_text(concat_texts(open), closing_prefix())
}

/// The tokens spell a body: none of them holds `</`.
pub open spec fn spells_body(body: Seq<Seq<char>>) -> bool {
    forall|j: int| 0 <= j < body.len() ==> !contains_text(#[trigger] body[j], closing_prefix())
}

/// The tokens spell one closing tag in two tokens or more: the first holds
/// `</`, the markup starts with `</`, and it ends with `>` at the last
/// token and not at an earlier one behind the first.
pub open spec fn spells_closing_tag(close: Seq<Seq<char>>) -> bool {
    &&& close.len() >= 2
    &&& contains_text(close[0], closing_prefix())
    &&& forall|k: int| 1 < k < close.len() ==> !ends_with_text(#[trigger] concat_texts(close.take(k)), close_marker())
    &&& ends_with_text(concat_texts(close), close_marker())
    &&& starts_with_text(concat_texts(close), closing_prefix())
}

/// The state while `markup` is being accumulated.
pub open spec fn accumulating(s: XmlStateView, in_body: bool, markup: Seq<char>) -> XmlStateView {
    XmlStateView {
        in_xml_tag: true,
        in_xml_body: in_body,
        xml_tag_name: s.xml_tag_name,
        xml_body_content: s.xml_body_content,
        current_accumulated_tag: markup,
        halt_output: true,
    }
}

/// The state inside the body of `tag`, with `body` gathered.
pub open spec fn inside_body(tag: Seq<char>, body: Seq<char>) -> XmlStateView {
    XmlStateView {
        in_xml_tag: false,
        in_xml_body: true,
        xml_tag_name: tag,
        xml_body_content: body,
        current_accumulated_tag: Seq::empty(),
        halt_output: false,
    }
}

/// The state behind the block of `tag`.
pub open spec fn behind_block(tag: Seq<char>) -> XmlStateView {
    XmlStateView {
        in_xml_tag: false,
        in_xml_body: false,
        xml_tag_name: tag,
        xml_body_content: Seq::empty(),
        current_accumulated_tag: Seq::empty(),
        halt_output: false,
    }
}

/// The text of the first `k + 1` tokens is the text of the first `k` with
/// the next token behind it.
proof fn lemma_concat_take(tokens: Seq<Seq<char>>, k: int)
    requires
        0 <= k < tokens.len(),
    ensures
        concat_texts(tokens.take(k + 1)) == concat_texts(tokens.take(k)) + tokens[k],
        tokens.take(k + 1).drop_last() == tokens.take(k),
        tokens.take(k + 1).last() == tokens[k],
{
    assert(tokens.take(k + 1).drop_last() =~= tokens.take(k));
}

/// Feeding one more token is one more step.
proof fn lemma_feed_take(s: XmlStateView, tokens: Seq<Seq<char>>, k: int)
    requires
        0 <= k < tokens.len(),
    ensures
        feed(s, tokens.take(k + 1)).0 == extraction_step(feed(s, tokens.take(k)).0, tokens[k]).0,
        feed(s, tokens.take(k + 1)).1 == (match extraction_step(feed(s, tokens.take(k)).0, tokens[k]).1 {
            Some(payload) => feed(s, tokens.take(k)).1.push(payload),
            None => feed(s, tokens.take(k)).1,
        }),
{
    lemma_concat_take(tokens, k);
}

/// Feeding two runs in a row is feeding the second from where the first
/// ended; the payloads follow one another.
pub proof fn lemma_feed_append(s: XmlStateView, a: Seq<Seq<char>>, b: Seq<Seq<char>>)
    ensures
        feed(s, a + b).0 == feed(feed(s, a).0, b).0,
        feed(s, a + b).1 == feed(s, a).1 + feed(feed(s, a).0, b).1,
    decreases b.len(),
{
    if b.len() > 0 {
        assert((a + b).drop_last() =~= a + b.drop_last());
        lemma_feed_append(s, a, b.drop_last());
    }
}

/// While an opening tag is spelled, its markup is accumulated and nothing
/// is handed out.
proof fn lemma_feed_opening_prefix(s: XmlStateView, open: Seq<Seq<char>>, k: int)
    requires
        !s.in_xml_body,
        spells_opening_tag(open),
        1 <= k < open.len(),
    ensures
        feed(s, open.take(k)) == (accumulating(s, false, concat_texts(open.take(k))), Seq::<Seq<char>>::empty()),
    decreases k,
{
    lemma_feed_take(s, open, k - 1);
    lemma_concat_take(open, k - 1);
    if k > 1 {
        lemma_feed_opening_prefix(s, open, k - 1);
    }
}

/// Once an opening tag is spelled, the machine is inside its body.
pub proof fn lemma_feed_opening(s: XmlStateView, open: Seq<Seq<char>>)
    requires
        !s.in_xml_body,
        spells_opening_tag(open),
    ensures
        feed(s, open) == (inside_body(concat_texts(open), s.xml_body_content), Seq::<Seq<char>>::empty()),
{
    let n = open.len() as int;
    lemma_feed_take(s, open, n - 1);
    lemma_concat_take(open, n - 1);
    if n > 1 {
        lemma_feed_opening_prefix(s, open, n - 1);
    }
}

/// Inside a body, tokens without `</` join the body and nothing is handed
/// out.
pub proof fn lemma_feed_body(tag: Seq<char>, gathered: Seq<char>, body: Seq<Seq<char>>)
    requires
        spells_body(body),
    ensures
        feed(inside_body(tag, gathered), body) == (
            inside_body(tag, gathered + concat_texts(body)),
            Seq::<Seq<char>>::empty(),
        ),
    decreases body.len(),
{
    if body.len() > 0 {
        let rest = body.drop_last();
        assert(spells_body(rest)) by {
            assert forall|j: int| 0 <= j < rest.len() implies !contains_text(#[trigger] rest[j], closing_prefix()) by {
                assert(rest[j] == body[j]);
            }
        }
        lemma_feed_body(tag, gathered, rest);
        assert((gathered + concat_texts(rest)) + body.last() =~= gathered + concat_texts(body));
    }
}

/// While a closing tag is spelled inside a body, its markup is accumulated
/// and nothing is handed out.
proof fn lemma_feed_closing_prefix(tag: Seq<char>, gathered: Seq<char>, close: Seq<Seq<char>>, k: int)
    requires
        spells_closing_tag(close),
        1 <= k < close.len(),
    ensures
        feed(inside_body(tag, gathered), close.take(k)) == (
            accumulating(inside_body(tag, gathered), true, concat_texts(close.take(k))),
            Seq::<Seq<char>>::empty(),
        ),
    decreases k,
{
    let s = inside_body(tag, gathered);
    lemma_feed_take(s, close, k - 1);
    lemma_concat_take(close, k - 1);
    if k > 1 {
        lemma_feed_closing_prefix(tag, gathered, close, k - 1);
    }
}

/// Once a closing tag is spelled inside a body, the body is handed out and
/// the machine is behind the block.
pub proof fn lemma_feed_closing(tag: Seq<char>, gathered: Seq<char>, close: Seq<Seq<char>>)
    requires
        spells_closing_tag(close),
    ensures
        feed(inside_body(tag, gathered), close) == (behind_block(tag), seq![gathered]),
{
    let s = inside_body(tag, gathered);
    let n = close.len() as int;
    lemma_feed_take(s, close, n - 1);
    lemma_concat_take(close, n - 1);
    lemma_feed_closing_prefix(tag, gathered, close, n - 1);
}

/// A tagged block yields its body, once, however it is split into tokens.
/// From a state outside any body with nothing gathered, an opening tag, a
/// body and a closing tag hand out exactly one payload, the text of the
/// body, and leave the machine behind the block, with output no longer
/// withheld.
pub proof fn lemma_tagged_block_yields_its_body(
    s: XmlStateView,
    open: Seq<Seq<char>>,
    body: Seq<Seq<char>>,
    close: Seq<Seq<char>>,
)
    requires
        !s.in_xml_body,
        s.xml_body_content == Seq::<char>::empty(),
        spells_opening_tag(open),
        spells_body(body),
        spells_closing_tag(close),
    ensures
        feed(s, open + body + close) == (behind_block(concat_texts(open)), seq![concat_texts(body)]),
{
    let tag = concat_texts(open);
    lemma_feed_opening(s, open);
    lemma_feed_body(tag, s.xml_body_content, body);
    lemma_feed_closing(tag, concat_texts(body), close);
    lemma_feed_append(s, open, body);
    lemma_feed_append(s, open + body, close);
}

} // verus!

//! The generation session: the token-by-token protocol between the caller
//! and the inference backend, as a state machine.
//!
//! The caller owns the backend. It hands every backend outcome to
//! [`GenerationSession::advance`] and carries out the action that comes
//! back: sample a token, deliver an event and decode, deliver the terminal
//! event, or give up.

use vstd::prelude::*;
use crate::errors::ServeError;
use crate::text::{concat_all, concat_texts, same_text, texts_of};

verus! {

/// One step of the visible token stream.
#[derive(Debug)]
pub struct TokenEvent {
    /// The text of the token, or of the whole answer on the terminal event.
    pub text: String,
    /// Set on the terminal event and on no other.
    pub is_last: bool,
}

/// The mathematical value of a [`TokenEvent`].
pub struct TokenEventView {
    pub text: Seq<char>,
    pub is_last: bool,
}

impl View for TokenEvent {
    type V = TokenEventView;

    open spec fn view(&self) -> TokenEventView {
        TokenEventView { text: self.text@, is_last: self.is_last }
    }
}

/// What a finished session reports.
#[derive(Debug)]
pub struct LlamaResult {
    /// Tokens held in the context at the end: prompt plus generated.
    pub n_tokens: u32,
    /// Decode calls made for generated tokens.
    pub n_decode: u32,
    /// Time spent generating, in microseconds.
    pub duration_micros: u64,
    /// The generated token ids, in order.
    pub generated_tokens: Vec<i32>,
    /// The generated token texts, in order.
    pub generated_tokens_data: Vec<String>,
}

/// `text` is one of `stops`.
pub open spec fn is_stop(stops: Seq<Seq<char>>, text: Seq<char>) -> bool {
    exists|i: int| 0 <= i < stops.len() && stops[i] == text
}

/// The stop strings that an optional list stands for.
pub open spec fn stops_of(s: Option<&Vec<String>>) -> Seq<Seq<char>> {
    match s {
        Some(v) => texts_of(v@),
        None => Seq::empty(),
    }
}

/// Whether `t` equals one of the stop strings.
pub fn find_stops(s: Option<&Vec<String>>, t: &str) -> (r: bool)
    ensures
        r == is_stop(stops_of(s), t@),
{
    match s {
        Some(v) => {
            let mut i: usize = 0;
            while i < v.len()
                invariant
                    i <= v.len(),
                    stops_of(s) == texts_of(v@),
                    forall|j: int| 0 <= j < i ==> texts_of(v@)[j] != t@,
                decreases v.len() - i,
            {
                if same_text(v[i].as_str(), t) {
                    assert(texts_of(v@)[i as int] == t@);
                    return true;
                }
                i += 1;
            }
            false
        },
        None => false,
    }
}

impl LlamaResult {
    /// The empty result: nothing held, nothing generated, no time spent.
    pub fn default() -> (r: Self)
        ensures
            r.n_tokens == 0,
            r.n_decode == 0,
            r.duration_micros == 0,
            r.generated_tokens@ == Seq::<i32>::empty(),
            r.generated_tokens_data@ == Seq::<String>::empty(),
    {
        LlamaResult {
            n_tokens: 0,
            n_decode: 0,
            duration_micros: 0,
            generated_tokens: Vec::new(),
            generated_tokens_data: Vec::new(),
        }
    }

    /// The whole generated text.
    pub fn response_text(&self) -> (r: String)
        ensures
            r@ == concat_texts(texts_of(self.generated_tokens_data@)),
    {
        concat_all(&self.generated_tokens_data)
    }

    /// The time spent generating, in nanoseconds.
    pub fn took(&self) -> (r: u128)
        ensures
            r == self.duration_micros * 1000,
    {
        let micros: u128 = self.duration_micros as u128;
        micros * 1000
    }
}

/// Why a session stopped generating.
#[derive(Clone, Copy, Debug, PartialEq, Eq, Structural)]
pub enum HaltReason {
    /// The backend produced its end-of-sequence token.
    EndOfSequence,
    /// The token just decoded equals a stop string.
    StopString,
    /// The token count reached the generation limit.
    LimitReached,
}

/// Where a session stands.
#[derive(Clone, Copy, Debug, PartialEq, Eq, Structural)]
pub enum SessionPhase {
    /// The prompt is being decoded.
    Priming,
    /// The backend is asked for the next token.
    Sampling,
    /// The token just accepted is being decoded.
    Decoding,
    /// The terminal event has been produced.
    Finished,
    /// The backend failed; no terminal event will come.
    Aborted,
    /// The consumer went away; no further event will come.
    Cancelled,
}

/// What the caller reports to the session.
#[derive(Debug)]
pub enum SessionEvent {
    /// The pending decode succeeded.
    Decoded,
    /// A token was sampled.
    Token { id: i32, text: String, end_of_sequence: bool },
    /// Sampling or decoding failed.
    Failure,
    /// The consumer of the events has gone.
    Disconnected,
}

/// The mathematical value of a [`SessionEvent`].
pub enum SessionEventView {
    Decoded,
    Token { id: i32, text: Seq<char>, end_of_sequence: bool },
    Failure,
    Disconnected,
}

impl View for SessionEvent {
    type V = SessionEventView;

    open spec fn view(&self) -> SessionEventView {
        match self {
            SessionEvent::Decoded => SessionEventView::Decoded,
            SessionEvent::Token { id, text, end_of_sequence } => SessionEventView::Token {
                id: *id,
                text: text@,
                end_of_sequence: *end_of_sequence,
            },
            SessionEvent::Failure => SessionEventView::Failure,
            SessionEvent::Disconnected => SessionEventView::Disconnected,
        }
    }
}

/// What the caller does next.
#[derive(Debug)]
pub enum SessionAction {
    /// Ask the backend for the next token, under the JSON grammar if
    /// `constrain_to_json` is set.
    Sample { constrain_to_json: bool },
    /// Deliver `event`, then decode `token` at `position`.
    Decode { event: TokenEvent, token: i32, position: u32 },
    /// Deliver `event`, the terminal one. The session is complete.
    Finish { event: TokenEvent, reason: HaltReason },
    /// Surface the error. The session is over and delivers nothing more.
    Abort { error: ServeError },
    /// Stop decoding: nobody listens. The session is over and delivers
    /// nothing more.
    Cancel,
    /// The report does not fit the session's phase; nothing changed.
    Ignored,
}

/// The mathematical value of a [`SessionAction`].
pub enum SessionActionView {
    Sample { constrain_to_json: bool },
    Decode { event: TokenEventView, token: i32, position: u32 },
    Finish { event: TokenEventView, reason: HaltReason },
    Abort { error: ServeError },
    Cancel,
    Ignored,
}

impl View for SessionAction {
    type V = SessionActionView;

    open spec fn view(&self) -> SessionActionView {
        match self {
            SessionAction::Sample { constrain_to_json } => SessionActionView::Sample {
                constrain_to_json: *constrain_to_json,
            },
            SessionAction::Decode { event, token, position } => SessionActionView::Decode {
                event: event@,
                token: *token,
                position: *position,
            },
            SessionAction::Finish { event, reason } => SessionActionView::Finish {
                event: event@,
                reason: *reason,
            },
            SessionAction::Abort { error } => SessionActionView::Abort { error: *error },
            SessionAction::Cancel => SessionActionView::Cancel,
            SessionAction::Ignored => SessionActionView::Ignored,
        }
    }
}

impl SessionActionView {
    /// The token events that the action delivers.
    pub open spec fn events(self) -> Seq<TokenEventView> {
        match self {
            SessionActionView::Decode { event, .. } => seq![event],
            SessionActionView::Finish { event, .. } => seq![event],
            _ => Seq::empty(),
        }
    }
}

/// One generation session.
#[derive(Debug)]
pub struct GenerationSession {
    phase: SessionPhase,
    prompt_tokens: u32,
    n_len: u32,
    n_cur: u32,
    n_decode: u32,
    generated_tokens: Vec<i32>,
    generated_tokens_data: Vec<String>,
    stops: Vec<String>,
    json_format: bool,
    halt: Option<HaltReason>,
}

/// The mathematical value of a [`GenerationSession`].
pub struct SessionView {
    pub phase: SessionPhase,
    pub prompt_tokens: nat,
    pub n_len: nat,
    pub n_cur: nat,
    pub n_decode: nat,
    pub generated_tokens: Seq<i32>,
    pub generated_texts: Seq<Seq<char>>,
    pub stops: Seq<Seq<char>>,
    pub json_format: bool,
    pub halt: Option<HaltReason>,
}

impl View for GenerationSession {
    type V = SessionView;

    closed spec fn view(&self) -> SessionView {
        SessionView {
            phase: self.phase,
            prompt_tokens: self.prompt_tokens as nat,
            n_len: self.n_len as nat,
            n_cur: self.n_cur as nat,
            n_decode: self.n_decode as nat,
            generated_tokens: self.generated_tokens@,
            generated_texts: texts_of(self.generated_tokens_data@),
            stops: texts_of(self.stops@),
            json_format: self.json_format,
            halt: self.halt,
        }
    }
}

impl SessionView {
    /// The state of a session that has just been handed its prompt.
    pub open spec fn initial(prompt_tokens: nat, n_len: nat, stops: Seq<Seq<char>>, json_format: bool) -> SessionView {
        SessionView {
            phase: SessionPhase::Priming,
            prompt_tokens,
            n_len,
            n_cur: prompt_tokens,
            n_decode: 0,
            generated_tokens: Seq::empty(),
            generated_texts: Seq::empty(),
            stops,
            json_format,
            halt: None,
        }
    }

    /// The counters agree with what was generated, and the phase with the
    /// limit: the count is the prompt plus the accepted tokens and never
    /// passes the limit by generating; every accepted token has been
    /// decoded, but for the one that is being decoded or whose decoding
    /// failed or was cancelled.
    pub open spec fn wf(self) -> bool {
        &&& self.n_len <= u32::MAX
        &&& self.generated_tokens.len() == self.generated_texts.len()
        &&& self.n_cur == self.prompt_tokens + self.generated_texts.len()
        &&& (self.n_cur <= self.n_len || self.n_cur == self.prompt_tokens)
        &&& self.n_decode <= self.generated_texts.len() <= self.n_decode + 1
        &&& self.phase == SessionPhase::Priming ==> self.generated_texts.len() == 0
        &&& self.phase == SessionPhase::Sampling ==> self.n_cur < self.n_len
        &&& self.phase == SessionPhase::Decoding ==> self.n_decode + 1 == self.generated_texts.len()
        &&& (self.phase == SessionPhase::Priming || self.phase == SessionPhase::Sampling || self.phase
            == SessionPhase::Finished) ==> self.n_decode == self.generated_texts.len()
        &&& (self.phase == SessionPhase::Finished <==> self.halt is Some)
        &&& self.halt == Some(HaltReason::LimitReached) ==> self.n_cur >= self.n_len
    }

    /// The terminal event of a session that ends now: the whole generated
    /// text, marked as last.
    pub open spec fn terminal_event(self) -> TokenEventView {
        TokenEventView { text: concat_texts(self.generated_texts), is_last: true }
    }

    /// Every token event that the session has delivered so far, in order:
    /// one per accepted token, then the terminal event once finished.
    pub open spec fn events(self) -> Seq<TokenEventView> {
        let tokens = Seq::new(
            self.generated_texts.len(),
            |i: int| TokenEventView { text: self.generated_texts[i], is_last: false },
        );
        if self.phase == SessionPhase::Finished {
            tokens.push(self.terminal_event())
        } else {
            tokens
        }
    }

    /// The session ends now for `reason`.
    pub open spec fn finish(self, reason: HaltReason) -> (SessionView, SessionActionView) {
        (
            SessionView { phase: SessionPhase::Finished, halt: Some(reason), ..self },
            SessionActionView::Finish { event: self.terminal_event(), reason },
        )
    }

    /// The backend failed.
    pub open spec fn abort(self) -> (SessionView, SessionActionView) {
        (
            SessionView { phase: SessionPhase::Aborted, ..self },
            SessionActionView::Abort { error: ServeError::BackendFailure },
        )
    }

    /// The consumer went away.
    pub open spec fn cancel(self) -> (SessionView, SessionActionView) {
        (SessionView { phase: SessionPhase::Cancelled, ..self }, SessionActionView::Cancel)
    }

    /// A decode has succeeded: stop at the limit, else sample.
    pub open spec fn after_decode(self) -> (SessionView, SessionActionView) {
        if self.n_cur >= self.n_len {
            self.finish(HaltReason::LimitReached)
        } else {
            (
                SessionView { phase: SessionPhase::Sampling, ..self },
                SessionActionView::Sample { constrain_to_json: self.json_format },
            )
        }
    }

    /// The state after the backend's report and the action that answers it.
    ///
    /// Once the prompt is decoded, and after every later decode, the
    /// session finishes if the token count has reached the limit and asks
    /// for a token otherwise. A sampled token ends the session if it is the
    /// end-of-sequence token or its text equals a stop string; any other
    /// token is recorded, delivered and sent to be decoded at the position
    /// that the count held. A failure aborts the session, and the news that
    /// the consumer has gone cancels it. A report that does not fit the
    /// phase changes nothing.
    pub open spec fn step(self, e: SessionEventView) -> (SessionView, SessionActionView) {
        match self.phase {
            SessionPhase::Priming => match e {
                SessionEventView::Decoded => self.after_decode(),
                SessionEventView::Failure => self.abort(),
                SessionEventView::Disconnected => self.cancel(),
                SessionEventView::Token { .. } => (self, SessionActionView::Ignored),
            },
            SessionPhase::Sampling => match e {
                SessionEventView::Token { id, text, end_of_sequence } => {
                    if end_of_sequence {
                        self.finish(HaltReason::EndOfSequence)
                    } else if is_stop(self.stops, text) {
                        self.finish(HaltReason::StopString)
                    } else {
                        (
                            SessionView {
                                phase: SessionPhase::Decoding,
                                n_cur: self.n_cur + 1,
                                generated_tokens: self.generated_tokens.push(id),
                                generated_texts: self.generated_texts.push(text),
                                ..self
                            },
                            SessionActionView::Decode {
                                event: TokenEventView { text, is_last: false },
                                token: id,
                                position: self.n_cur as u32,
                            },
                        )
                    }
                },
                SessionEventView::Failure => self.abort(),
                SessionEventView::Disconnected => self.cancel(),
                SessionEventView::Decoded => (self, SessionActionView::Ignored),
            },
            SessionPhase::Decoding => match e {
                SessionEventView::Decoded => SessionView { n_decode: self.n_decode + 1, ..self }.after_decode(),
                SessionEventView::Failure => self.abort(),
                SessionEventView::Disconnected => self.cancel(),
                SessionEventView::Token { .. } => (self, SessionActionView::Ignored),
            },
            SessionPhase::Finished => (self, SessionActionView::Ignored),
            SessionPhase::Aborted => (self, SessionActionView::Ignored),
            SessionPhase::Cancelled => (self, SessionActionView::Ignored),
        }
    }
}


/// The session state after a run of reports, and every token event
/// delivered along the way.
pub open spec fn run(s: SessionView, reports: Seq<SessionEventView>) -> (SessionView, Seq<TokenEventView>)
    decreases reports.len(),
{
    if reports.len() == 0 {
        (s, Seq::empty())
    } else {
        let before = run(s, reports.drop_last());
        let last = before.0.step(reports.last());
        (last.0, before.1 + last.1.events())
    }
}

/// One step keeps the session well formed and adds to its record of
/// delivered events exactly the events of the action that it returns.
pub proof fn lemma_step_records_events(s: SessionView, e: SessionEventView)
    requires
        s.wf(),
    ensures
        s.step(e).0.wf(),
        s.step(e).0.events() == s.events() + s.step(e).1.events(),
{
}

/// A run keeps the session well formed, and the events delivered along it
/// are exactly those by which the session's record grew.
pub proof fn lemma_run_records_events(s: SessionView, reports: Seq<SessionEventView>)
    requires
        s.wf(),
    ensures
        run(s, reports).0.wf(),
        run(s, reports).0.events() == s.events() + run(s, reports).1,
    decreases reports.len(),
{
    if reports.len() > 0 {
        lemma_run_records_events(s, reports.drop_last());
        lemma_step_records_events(run(s, reports.drop_last()).0, reports.last());
    }
}

/// Whatever is reported to it, a session that has finished has delivered
/// exactly one terminal event, as its last event; a session that has not
/// finished has delivered none.
pub proof fn lemma_one_terminal_event_at_the_end(
    prompt_tokens: nat,
    n_len: nat,
    stops: Seq<Seq<char>>,
    json_format: bool,
    reports: Seq<SessionEventView>,
)
    requires
        n_len <= u32::MAX,
    ensures
        ({
            let start = SessionView::initial(prompt_tokens, n_len, stops, json_format);
            let end = run(start, reports).0;
            let delivered = run(start, reports).1;
            &&& end.phase == SessionPhase::Finished ==> delivered.len() > 0 && delivered.last().is_last
            &&& forall|i: int|
                0 <= i < delivered.len() && #[trigger] delivered[i].is_last ==> i == delivered.len() - 1
                    && end.phase == SessionPhase::Finished
        }),
{
    lemma_run_records_events(SessionView::initial(prompt_tokens, n_len, stops, json_format), reports);
}

impl GenerationSession {
    /// A session for a prompt of `prompt_token_count` tokens that may hold
    /// `generation_limit` tokens in all. The caller decodes the prompt and
    /// reports the outcome to [`GenerationSession::advance`].
    pub fn new(prompt_token_count: u32, generation_limit: u32, stops: Vec<String>, json_format: bool) -> (r: Self)
        ensures
            r@ == SessionView::initial(
                prompt_token_count as nat,
                generation_limit as nat,
                texts_of(stops@),
                json_format,
            ),
            r@.wf(),
    {
        let r = GenerationSession {
            phase: SessionPhase::Priming,
            prompt_tokens: prompt_token_count,
            n_len: generation_limit,
            n_cur: prompt_token_count,
            n_decode: 0,
            generated_tokens: Vec::new(),
            generated_tokens_data: Vec::new(),
            stops,
            json_format,
            halt: None,
        };
        assert(r@.generated_texts =~= Seq::<Seq<char>>::empty());
        r
    }

    /// Where the session stands.
    pub fn phase(&self) -> (r: SessionPhase)
        ensures
            r == self@.phase,
    {
        self.phase
    }

    /// Why the session finished, once it has.
    pub fn halt_reason(&self) -> (r: Option<HaltReason>)
        ensures
            r == self@.halt,
    {
        self.halt
    }

    /// Whether the terminal event has been produced.
    pub fn is_complete(&self) -> (r: bool)
        ensures
            r == (self@.phase == SessionPhase::Finished),
    {
        self.phase == SessionPhase::Finished
    }

    /// Tokens held in the context: prompt plus generated.
    pub fn n_tokens(&self) -> (r: u32)
        ensures
            r == self@.n_cur,
    {
        self.n_cur
    }

    fn finish(&mut self, reason: HaltReason) -> (action: SessionAction)
        ensures
            final(self)@ == old(self)@.finish(reason).0,
            action@ == old(self)@.finish(reason).1,
    {
        let text = concat_all(&self.generated_tokens_data);
        self.phase = SessionPhase::Finished;
        self.halt = Some(reason);
        SessionAction::Finish { event: TokenEvent { text, is_last: true }, reason }
    }

    fn abort(&mut self) -> (action: SessionAction)
        ensures
            final(self)@ == old(self)@.abort().0,
            action@ == old(self)@.abort().1,
    {
        self.phase = SessionPhase::Aborted;
        SessionAction::Abort { error: ServeError::BackendFailure }
    }

    fn cancel(&mut self) -> (action: SessionAction)
        ensures
            final(self)@ == old(self)@.cancel().0,
            action@ == old(self)@.cancel().1,
    {
        self.phase = SessionPhase::Cancelled;
        SessionAction::Cancel
    }

    fn after_decode(&mut self) -> (action: SessionAction)
        ensures
            final(self)@ == old(self)@.after_decode().0,
            action@ == old(self)@.after_decode().1,
    {
        if self.n_cur >= self.n_len {
            self.finish(HaltReason::LimitReached)
        } else {
            self.phase = SessionPhase::Sampling;
            SessionAction::Sample { constrain_to_json: self.json_format }
        }
    }

    /// Takes the backend's report and says what to do next.
    pub fn advance(&mut self, event: SessionEvent) -> (action: SessionAction)
        requires
            old(self)@.wf(),
        ensures
            final(self)@ == old(self)@.step(event@).0,
            action@ == old(self)@.step(event@).1,
            final(self)@.wf(),
            final(self)@.events() == old(self)@.events() + action@.events(),
    {
        proof {
            lemma_step_records_events(self@, event@);
        }
        match self.phase {
            SessionPhase::Priming => match event {
                SessionEvent::Decoded => self.after_decode(),
                SessionEvent::Failure => self.abort(),
                SessionEvent::Disconnected => self.cancel(),
                SessionEvent::Token { .. } => SessionAction::Ignored,
            },
            SessionPhase::Sampling => match event {
                SessionEvent::Token { id, text, end_of_sequence } => {
                    if end_of_sequence {
                        self.finish(HaltReason::EndOfSequence)
                    } else if find_stops(Some(&self.stops), text.as_str()) {
                        self.finish(HaltReason::StopString)
                    } else {
                        let position = self.n_cur;
                        let recorded = text.clone();
                        self.generated_tokens.push(id);
                        self.generated_tokens_data.push(recorded);
                        self.n_cur = self.n_cur + 1;
                        self.phase = SessionPhase::Decoding;
                        assert(self@.generated_texts =~= old(self)@.generated_texts.push(text@));
                        SessionAction::Decode { event: TokenEvent { text, is_last: false }, token: id, position }
                    }
                },
                SessionEvent::Failure => self.abort(),
                SessionEvent::Disconnected => self.cancel(),
                SessionEvent::Decoded => SessionAction::Ignored,
            },
            SessionPhase::Decoding => match event {
                SessionEvent::Decoded => {
                    self.n_decode = self.n_decode + 1;
                    self.after_decode()
                },
                SessionEvent::Failure => self.abort(),
                SessionEvent::Disconnected => self.cancel(),
                SessionEvent::Token { .. } => SessionAction::Ignored,
            },
            SessionPhase::Finished => SessionAction::Ignored,
            SessionPhase::Aborted => SessionAction::Ignored,
            SessionPhase::Cancelled => SessionAction::Ignored,
        }
    }

    /// What the session generated, with the time that the caller measured.
    pub fn into_result(self, duration_micros: u64) -> (r: LlamaResult)
        ensures
            r.n_tokens == self@.n_cur,
            r.n_decode == self@.n_decode,
            r.duration_micros == duration_micros,
            r.generated_tokens@ == self@.generated_tokens,
            texts_of(r.generated_tokens_data@) == self@.generated_texts,
    {
        LlamaResult {
            n_tokens: self.n_cur,
            n_decode: self.n_decode,
            duration_micros,
            generated_tokens: self.generated_tokens,
            generated_tokens_data: self.generated_tokens_data,
        }
    }
}


/// The values of a list of reports.
pub open spec fn reports_of(v: Seq<SessionEvent>) -> Seq<SessionEventView> {
    Seq::new(v.len(), |i: int| v[i]@)
}

/// The values of a list of token events.
pub open spec fn events_of(v: Seq<TokenEvent>) -> Seq<TokenEventView> {
    Seq::new(v.len(), |i: int| v[i]@)
}

impl SessionEvent {
    /// A copy of the report.
    pub fn duplicate(&self) -> (r: SessionEvent)
        ensures
            r@ == self@,
    {
        match self {
            SessionEvent::Decoded => SessionEvent::Decoded,
            SessionEvent::Token { id, text, end_of_sequence } => SessionEvent::Token {
                id: *id,
                text: text.clone(),
                end_of_sequence: *end_of_sequence,
            },
            SessionEvent::Failure => SessionEvent::Failure,
            SessionEvent::Disconnected => SessionEvent::Disconnected,
        }
    }
}

/// How a run of reports ends: in the result of the session where it has
/// finished, in `Cancelled` where the consumer went away, and in
/// `BackendFailure` where the backend failed or fell silent.
pub open spec fn outcome_of(end: SessionView) -> Result<SessionView, ServeError> {
    if end.phase == SessionPhase::Finished {
        Ok(end)
    } else if end.phase == SessionPhase::Cancelled {
        Err(ServeError::Cancelled)
    } else {
        Err(ServeError::BackendFailure)
    }
}

/// Runs one generation session over the reports of the backend, from the
/// decoding of a prompt of `prompt_token_count` tokens on, and hands every
/// token event to `delivered`, in order.
///
/// The session ends on the end-of-sequence token, on a token that equals
/// a stop string, or when the token count reaches `n_len`; then, and only
/// then, the result is `Ok`, and exactly one terminal event was delivered,
/// as the last event. Where the session does not finish, the events
/// delivered so far stay delivered, none of them terminal, and the result
/// is the error.
pub fn generate(
    prompt_token_count: u32,
    n_len: u32,
    stops: Vec<String>,
    json_format: bool,
    reports: &Vec<SessionEvent>,
    duration_micros: u64,
    delivered: &mut Vec<TokenEvent>,
) -> (r: Result<LlamaResult, ServeError>)
    ensures
        ({
            let start = SessionView::initial(
                prompt_token_count as nat,
                n_len as nat,
                texts_of(stops@),
                json_format,
            );
            let end = run(start, reports_of(reports@)).0;
            let events = run(start, reports_of(reports@)).1;
            &&& events_of(final(delivered)@) == events_of(old(delivered)@) + events
            &&& match r {
                Ok(result) => {
                    &&& outcome_of(end) == Ok::<SessionView, ServeError>(end)
                    &&& result.n_tokens == end.n_cur
                    &&& result.n_decode == end.n_decode
                    &&& result.duration_micros == duration_micros
                    &&& result.generated_tokens@ == end.generated_tokens
                    &&& texts_of(result.generated_tokens_data@) == end.generated_texts
                },
                Err(e) => outcome_of(end) == Err::<SessionView, ServeError>(e),
            }
            &&& r is Ok ==> events.len() > 0 && events.last().is_last && events.last().text == concat_texts(
                end.generated_texts,
            )
            &&& forall|i: int|
                0 <= i < events.len() && #[trigger] events[i].is_last ==> i == events.len() - 1 && r is Ok
        }),
{
    let ghost start = SessionView::initial(prompt_token_count as nat, n_len as nat, texts_of(stops@), json_format);
    let ghost all = reports_of(reports@);
    let ghost base = events_of(delivered@);
    let mut session = GenerationSession::new(prompt_token_count, n_len, stops, json_format);
    let mut i: usize = 0;
    assert(all.take(0) =~= Seq::<SessionEventView>::empty());
    assert(base + run(start, all.take(0)).1 =~= base);
    while i < reports.len()
        invariant
            i <= reports.len(),
            all == reports_of(reports@),
            session@.wf(),
            session@ == run(start, all.take(i as int)).0,
            events_of(delivered@) == base + run(start, all.take(i as int)).1,
        decreases reports.len() - i,
    {
        proof {
            assert(all.take(i + 1).drop_last() =~= all.take(i as int));
            assert(all.take(i + 1).last() == reports@[i as int]@);
        }
        let ghost before = events_of(delivered@);
        let ghost sent = run(start, all.take(i as int)).1;
        let action = session.advance(reports[i].duplicate());
        match action {
            SessionAction::Decode { event, token, position } => {
                delivered.push(event);
                assert(events_of(delivered@) =~= before.push(event@));
                assert(before.push(event@) =~= base + (sent + seq![event@]));
            },
            SessionAction::Finish { event, reason } => {
                delivered.push(event);
                assert(events_of(delivered@) =~= before.push(event@));
                assert(before.push(event@) =~= base + (sent + seq![event@]));
            },
            _ => {
                assert(before =~= base + (sent + Seq::<TokenEventView>::empty()));
            },
        }
        i += 1;
    }
    proof {
        assert(all.take(reports.len() as int) =~= all);
        lemma_one_terminal_event_at_the_end(
            prompt_token_count as nat,
            n_len as nat,
            start.stops,
            json_format,
            all,
        );
        lemma_run_records_events(start, all);
    }
    match session.phase() {
        SessionPhase::Finished => Ok(session.into_result(duration_micros)),
        SessionPhase::Cancelled => Err(ServeError::Cancelled),
        _ => Err(ServeError::BackendFailure),
    }
}

} // verus!

use shurbai::errors::ServeError;
use shurbai::session::{
    find_stops, generate, GenerationSession, HaltReason, LlamaResult, SessionAction, SessionEvent, SessionPhase,
    TokenEvent,
};

fn token(id: i32, text: &str) -> SessionEvent {
    SessionEvent::Token { id, text: text.to_string(), end_of_sequence: false }
}

fn end_of_sequence() -> SessionEvent {
    SessionEvent::Token { id: 2, text: String::new(), end_of_sequence: true }
}

fn events_of(action: &SessionAction, log: &mut Vec<(String, bool)>) {
    match action {
        SessionAction::Decode { event, .. } => log.push((event.text.clone(), event.is_last)),
        SessionAction::Finish { event, .. } => log.push((event.text.clone(), event.is_last)),
        _ => {}
    }
}

fn drive(session: &mut GenerationSession, reports: Vec<SessionEvent>) -> Vec<(String, bool)> {
    let mut log = Vec::new();
    for report in reports {
        let action = session.advance(report);
        events_of(&action, &mut log);
    }
    log
}

#[test]
fn find_stops_matches_whole_tokens_only() {
    let stops = vec!["</s>".to_string(), "<|im_end|>".to_string()];
    assert!(find_stops(Some(&stops), "</s>"));
    assert!(find_stops(Some(&stops), "<|im_end|>"));
    assert!(!find_stops(Some(&stops), "</s"));
    assert!(!find_stops(Some(&stops), "x</s>"));
    assert!(!find_stops(None, "</s>"));
    assert!(!find_stops(Some(&Vec::new()), ""));
}

#[test]
fn session_starts_by_priming() {
    let session = GenerationSession::new(3, 10, vec![], false);
    assert_eq!(session.phase(), SessionPhase::Priming);
    assert_eq!(session.n_tokens(), 3);
    assert_eq!(session.halt_reason(), None);
    assert!(!session.is_complete());
}

#[test]
fn session_samples_after_the_prompt_is_decoded() {
    let mut session = GenerationSession::new(3, 10, vec![], true);
    match session.advance(SessionEvent::Decoded) {
        SessionAction::Sample { constrain_to_json } => assert!(constrain_to_json),
        other => panic!("unexpected action {:?}", other),
    }
    assert_eq!(session.phase(), SessionPhase::Sampling);
}

#[test]
fn accepted_token_is_delivered_and_decoded_at_its_position() {
    let mut session = GenerationSession::new(3, 10, vec![], false);
    session.advance(SessionEvent::Decoded);
    match session.advance(token(42, "Hi")) {
        SessionAction::Decode { event, token, position } => {
            assert_eq!(event.text, "Hi");
            assert!(!event.is_last);
            assert_eq!(token, 42);
            assert_eq!(position, 3);
        }
        other => panic!("unexpected action {:?}", other),
    }
    assert_eq!(session.phase(), SessionPhase::Decoding);
    assert_eq!(session.n_tokens(), 4);
}

#[test]
fn completed_session_has_exactly_one_terminal_event_at_the_end() {
    let mut session = GenerationSession::new(2, 100, vec!["STOP".to_string()], false);
    let log = drive(
        &mut session,
        vec![
            SessionEvent::Decoded,
            token(5, "a"),
            SessionEvent::Decoded,
            token(6, "b"),
            SessionEvent::Decoded,
            token(7, "STOP"),
            token(8, "late"),
            SessionEvent::Decoded,
        ],
    );
    assert!(session.is_complete());
    assert_eq!(session.halt_reason(), Some(HaltReason::StopString));
    assert_eq!(
        log,
        vec![("a".to_string(), false), ("b".to_string(), false), ("ab".to_string(), true)]
    );
    assert_eq!(log.iter().filter(|e| e.1).count(), 1);
    assert!(log.last().unwrap().1);
}

#[test]
fn end_of_sequence_finishes_the_session() {
    let mut session = GenerationSession::new(1, 100, vec![], false);
    session.advance(SessionEvent::Decoded);
    session.advance(token(3, "x"));
    session.advance(SessionEvent::Decoded);
    match session.advance(end_of_sequence()) {
        SessionAction::Finish { event, reason } => {
            assert_eq!(event.text, "x");
            assert!(event.is_last);
            assert_eq!(reason, HaltReason::EndOfSequence);
        }
        other => panic!("unexpected action {:?}", other),
    }
    assert_eq!(session.phase(), SessionPhase::Finished);
}

#[test]
fn limit_finishes_the_session_after_the_last_decode() {
    let mut session = GenerationSession::new(2, 4, vec![], false);
    let log = drive(
        &mut session,
        vec![SessionEvent::Decoded, token(1, "p"), SessionEvent::Decoded, token(2, "q"), SessionEvent::Decoded],
    );
    assert_eq!(session.halt_reason(), Some(HaltReason::LimitReached));
    assert_eq!(
        log,
        vec![("p".to_string(), false), ("q".to_string(), false), ("pq".to_string(), true)]
    );
    let result = session.into_result(1500);
    assert_eq!(result.n_tokens, 4);
    assert_eq!(result.n_decode, 2);
    assert_eq!(result.generated_tokens, vec![1, 2]);
    assert_eq!(result.generated_tokens_data, vec!["p".to_string(), "q".to_string()]);
    assert_eq!(result.duration_micros, 1500);
    assert_eq!(result.took(), 1_500_000);
    assert_eq!(result.response_text(), "pq");
}

#[test]
fn full_prompt_finishes_with_an_empty_terminal_event() {
    let mut session = GenerationSession::new(8, 8, vec![], false);
    match session.advance(SessionEvent::Decoded) {
        SessionAction::Finish { event, reason } => {
            assert_eq!(event.text, "");
            assert!(event.is_last);
            assert_eq!(reason, HaltReason::LimitReached);
        }
        other => panic!("unexpected action {:?}", other),
    }
}

#[test]
fn backend_failure_aborts_without_a_terminal_event() {
    let mut session = GenerationSession::new(2, 100, vec![], false);
    let mut log = Vec::new();
    for report in [SessionEvent::Decoded, token(1, "a")] {
        let action = session.advance(report);
        events_of(&action, &mut log);
    }
    match session.advance(SessionEvent::Failure) {
        SessionAction::Abort { error } => assert_eq!(error, ServeError::BackendFailure),
        other => panic!("unexpected action {:?}", other),
    }
    assert_eq!(session.phase(), SessionPhase::Aborted);
    assert_eq!(log, vec![("a".to_string(), false)]);
    assert!(matches!(session.advance(SessionEvent::Decoded), SessionAction::Ignored));
    assert!(matches!(session.advance(token(9, "z")), SessionAction::Ignored));
    assert!(!session.is_complete());
}

#[test]
fn disconnect_cancels_the_session() {
    let mut session = GenerationSession::new(2, 100, vec![], false);
    session.advance(SessionEvent::Decoded);
    assert!(matches!(session.advance(SessionEvent::Disconnected), SessionAction::Cancel));
    assert_eq!(session.phase(), SessionPhase::Cancelled);
    assert!(matches!(session.advance(token(9, "z")), SessionAction::Ignored));
}

#[test]
fn reports_out_of_turn_are_ignored() {
    let mut session = GenerationSession::new(2, 100, vec![], false);
    assert!(matches!(session.advance(token(1, "a")), SessionAction::Ignored));
    assert_eq!(session.phase(), SessionPhase::Priming);
    session.advance(SessionEvent::Decoded);
    assert!(matches!(session.advance(SessionEvent::Decoded), SessionAction::Ignored));
    assert_eq!(session.phase(), SessionPhase::Sampling);
}

#[test]
fn finished_session_ignores_everything() {
    let mut session = GenerationSession::new(2, 2, vec![], false);
    session.advance(SessionEvent::Decoded);
    assert!(session.is_complete());
    let log = drive(&mut session, vec![SessionEvent::Decoded, token(1, "a"), SessionEvent::Failure]);
    assert!(log.is_empty());
    assert!(session.is_complete());
}

#[test]
fn empty_result_holds_nothing() {
    let result = LlamaResult::default();
    assert_eq!(result.n_tokens, 0);
    assert_eq!(result.n_decode, 0);
    assert_eq!(result.duration_micros, 0);
    assert!(result.generated_tokens.is_empty());
    assert!(result.generated_tokens_data.is_empty());
    assert_eq!(result.response_text(), "");
}

#[test]
fn token_event_carries_text_and_flag() {
    let event = TokenEvent { text: "t".to_string(), is_last: false };
    assert_eq!(event.text, "t");
    assert!(!event.is_last);
}

fn texts(events: &Vec<TokenEvent>) -> Vec<(String, bool)> {
    events.iter().map(|e| (e.text.clone(), e.is_last)).collect()
}

#[test]
fn generate_delivers_every_token_and_one_terminal_event() {
    let reports = vec![
        SessionEvent::Decoded,
        token(5, "Hel"),
        SessionEvent::Decoded,
        token(6, "lo"),
        SessionEvent::Decoded,
        end_of_sequence(),
    ];
    let mut delivered = Vec::new();
    let result = generate(4, 100, vec![], false, &reports, 250, &mut delivered).unwrap();
    assert_eq!(
        texts(&delivered),
        vec![("Hel".to_string(), false), ("lo".to_string(), false), ("Hello".to_string(), true)]
    );
    assert_eq!(result.n_tokens, 6);
    assert_eq!(result.n_decode, 2);
    assert_eq!(result.duration_micros, 250);
    assert_eq!(result.generated_tokens, vec![5, 6]);
    assert_eq!(result.generated_tokens_data, vec!["Hel".to_string(), "lo".to_string()]);
}

#[test]
fn generate_stops_at_the_limit_and_at_stop_strings() {
    let reports = vec![SessionEvent::Decoded, token(1, "a"), SessionEvent::Decoded, token(2, "b"), SessionEvent::Decoded];
    let mut delivered = Vec::new();
    let result = generate(2, 3, vec![], false, &reports, 0, &mut delivered).unwrap();
    assert_eq!(texts(&delivered), vec![("a".to_string(), false), ("a".to_string(), true)]);
    assert_eq!(result.n_tokens, 3);
    let mut delivered = Vec::new();
    let result = generate(2, 9, vec!["b".to_string()], false, &reports, 0, &mut delivered).unwrap();
    assert_eq!(texts(&delivered), vec![("a".to_string(), false), ("a".to_string(), true)]);
    assert_eq!(result.generated_tokens, vec![1]);
}

#[test]
fn generate_keeps_what_was_delivered_when_the_backend_fails() {
    let reports = vec![SessionEvent::Decoded, token(1, "a"), SessionEvent::Failure, token(2, "b")];
    let mut delivered = vec![TokenEvent { text: "earlier".to_string(), is_last: false }];
    let outcome = generate(2, 9, vec![], false, &reports, 0, &mut delivered);
    assert_eq!(outcome.err(), Some(ServeError::BackendFailure));
    assert_eq!(texts(&delivered), vec![("earlier".to_string(), false), ("a".to_string(), false)]);
}

#[test]
fn generate_reports_silence_and_cancellation() {
    let mut delivered = Vec::new();
    assert_eq!(generate(2, 9, vec![], false, &vec![], 0, &mut delivered).err(), Some(ServeError::BackendFailure));
    let reports = vec![SessionEvent::Decoded, token(1, "a")];
    assert_eq!(generate(2, 9, vec![], false, &reports, 0, &mut delivered).err(), Some(ServeError::BackendFailure));
    let reports = vec![SessionEvent::Decoded, SessionEvent::Disconnected, token(1, "b")];
    assert_eq!(generate(2, 9, vec![], false, &reports, 0, &mut delivered).err(), Some(ServeError::Cancelled));
    assert_eq!(texts(&delivered), vec![("a".to_string(), false)]);
    assert_eq!(ServeError::Cancelled.message(), "Generation cancelled");
}

#[test]
fn reports_are_copied_whole() {
    match token(3, "x").duplicate() {
        SessionEvent::Token { id, text, end_of_sequence } => {
            assert_eq!((id, text.as_str(), end_of_sequence), (3, "x", false));
        }
        other => panic!("unexpected report {:?}", other),
    }
    assert!(matches!(SessionEvent::Decoded.duplicate(), SessionEvent::Decoded));
    assert!(matches!(SessionEvent::Failure.duplicate(), SessionEvent::Failure));
    assert!(matches!(SessionEvent::Disconnected.duplicate(), SessionEvent::Disconnected));
}

use wordgames_client::clock::Timestamp;
use wordgames_client::protocol::{decode_frame, NoticeKind, ServerEvent, WireMessage};
use wordgames_client::round::{next, RoundState};
use wordgames_client::session::Session;

const ROUND_FRAME: &str = r#"{"type":"OngoingRoundInfo","content":{"word_to_guess":"APPLE","round_finish_time":"2030-01-01T00:00:00Z"}}"#;

fn deadline_2030() -> Timestamp {
    Timestamp { unix_seconds: 1_893_456_000, nanosecond: 0 }
}

fn ongoing(word: &str, time: &str) -> WireMessage {
    WireMessage::OngoingRoundInfo {
        word_to_guess: word.to_string(),
        round_finish_time: time.to_string(),
    }
}

#[test]
fn round_start_frame_starts_guessing_from_any_state() {
    let event = decode_frame(ROUND_FRAME.to_string(), Some(ongoing("APPLE", "2030-01-01T00:00:00Z")));
    assert_eq!(
        event,
        ServerEvent::RoundStarted { word: "APPLE".to_string(), deadline: deadline_2030() }
    );
    let priors = vec![
        RoundState::Idle,
        RoundState::Guessing {
            word: "PEAR".to_string(),
            deadline: Timestamp { unix_seconds: 1, nanosecond: 0 },
        },
        RoundState::Revealed {
            answer: "PLUM".to_string(),
            next_deadline: Timestamp { unix_seconds: 2, nanosecond: 0 },
        },
    ];
    for prior in priors {
        assert_eq!(
            next(prior, event.clone()),
            RoundState::Guessing { word: "APPLE".to_string(), deadline: deadline_2030() }
        );
    }
}

#[test]
fn finished_game_frame_returns_to_idle() {
    let frame = r#"{"type":"FinishedGame","content":null}"#;
    let event = decode_frame(frame.to_string(), Some(WireMessage::FinishedGame));
    assert_eq!(event, ServerEvent::GameFinished);
    let state = RoundState::Guessing { word: "APPLE".to_string(), deadline: deadline_2030() };
    assert_eq!(next(state, event), RoundState::Idle);
}

#[test]
fn round_end_frame_reveals_answer() {
    let frame = r#"{"type":"FinishedRoundInfo","content":{"word_answer":"APPLE","to_next_round_time":"2030-01-01T00:00:10Z"}}"#;
    let parsed = WireMessage::FinishedRoundInfo {
        word_answer: "APPLE".to_string(),
        to_next_round_time: "2030-01-01T00:00:10Z".to_string(),
    };
    let event = decode_frame(frame.to_string(), Some(parsed));
    assert_eq!(
        event,
        ServerEvent::RoundEnded {
            answer: "APPLE".to_string(),
            next_deadline: Timestamp { unix_seconds: 1_893_456_010, nanosecond: 0 },
        }
    );
}

#[test]
fn chat_frame_is_chat_event() {
    let frame = r#"{"type":"ChatMessage","content":"hi all"}"#;
    let event = decode_frame(frame.to_string(), Some(WireMessage::ChatMessage("hi all".to_string())));
    assert_eq!(event, ServerEvent::ChatMessage("hi all".to_string()));
}

#[test]
fn unreadable_frame_is_malformed_notice() {
    let frame = r#"{"type":"Bogus","content":1}"#;
    assert_eq!(
        decode_frame(frame.to_string(), None),
        ServerEvent::ProtocolNotice { kind: NoticeKind::MalformedFrame, frame: frame.to_string() }
    );
}

#[test]
fn bad_round_time_is_notice_and_keeps_state() {
    let frame = r#"{"type":"OngoingRoundInfo","content":{"word_to_guess":"APPLE","round_finish_time":"tomorrow"}}"#;
    let event = decode_frame(frame.to_string(), Some(ongoing("APPLE", "tomorrow")));
    assert_eq!(
        event,
        ServerEvent::ProtocolNotice { kind: NoticeKind::BadTimestamp, frame: frame.to_string() }
    );
    let state = RoundState::Revealed { answer: "PLUM".to_string(), next_deadline: deadline_2030() };
    assert_eq!(next(state.clone(), event.clone()), state);

    let bad_end = WireMessage::FinishedRoundInfo {
        word_answer: "APPLE".to_string(),
        to_next_round_time: "2030-02-30T00:00:00Z".to_string(),
    };
    let event2 = decode_frame("x".to_string(), Some(bad_end));
    assert_eq!(
        event2,
        ServerEvent::ProtocolNotice { kind: NoticeKind::BadTimestamp, frame: "x".to_string() }
    );

    let mut session = Session::new();
    session.round = state.clone();
    session.receive(event);
    assert_eq!(session.round, state);
    assert_eq!(session.notices.len(), 1);
}

#[test]
fn one_event_for_each_frame() {
    let frames: Vec<(String, Option<WireMessage>)> = vec![
        ("a".to_string(), None),
        (ROUND_FRAME.to_string(), Some(ongoing("APPLE", "2030-01-01T00:00:00Z"))),
        ("b".to_string(), Some(ongoing("APPLE", "never"))),
        ("c".to_string(), Some(WireMessage::ChatMessage("x".to_string()))),
        ("d".to_string(), Some(WireMessage::FinishedGame)),
    ];
    let events: Vec<ServerEvent> = frames.into_iter().map(|(f, p)| decode_frame(f, p)).collect();
    assert_eq!(events.len(), 5);
    assert!(matches!(events[0], ServerEvent::ProtocolNotice { kind: NoticeKind::MalformedFrame, .. }));
    assert!(matches!(events[1], ServerEvent::RoundStarted { .. }));
    assert!(matches!(events[2], ServerEvent::ProtocolNotice { kind: NoticeKind::BadTimestamp, .. }));
    assert!(matches!(events[3], ServerEvent::ChatMessage(_)));
    assert_eq!(events[4], ServerEvent::GameFinished);
}

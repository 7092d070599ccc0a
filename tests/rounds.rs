use wordgames_client::clock::Timestamp;
use wordgames_client::protocol::{NoticeKind, ServerEvent};
use wordgames_client::round::{next, remaining, remaining_now, RoundState};

fn ts(unix_seconds: i64, nanosecond: u32) -> Timestamp {
    Timestamp { unix_seconds, nanosecond }
}

fn states() -> Vec<RoundState> {
    vec![
        RoundState::Idle,
        RoundState::Guessing { word: "W".to_string(), deadline: ts(100, 0) },
        RoundState::Revealed { answer: "A".to_string(), next_deadline: ts(200, 0) },
    ]
}

#[test]
fn reducer_handles_every_pair() {
    for state in states() {
        assert_eq!(
            next(state.clone(), ServerEvent::RoundStarted { word: "N".to_string(), deadline: ts(5, 1) }),
            RoundState::Guessing { word: "N".to_string(), deadline: ts(5, 1) }
        );
        assert_eq!(
            next(state.clone(), ServerEvent::RoundEnded { answer: "M".to_string(), next_deadline: ts(6, 2) }),
            RoundState::Revealed { answer: "M".to_string(), next_deadline: ts(6, 2) }
        );
        assert_eq!(next(state.clone(), ServerEvent::GameFinished), RoundState::Idle);
        assert_eq!(next(state.clone(), ServerEvent::ChatMessage("c".to_string())), state);
        assert_eq!(
            next(
                state.clone(),
                ServerEvent::ProtocolNotice { kind: NoticeKind::MalformedFrame, frame: "f".to_string() }
            ),
            state
        );
        assert_eq!(next(state.clone(), ServerEvent::TransportError("e".to_string())), state);
    }
}

#[test]
fn remaining_counts_down_and_goes_negative() {
    let state = RoundState::Guessing { word: "W".to_string(), deadline: ts(100, 0) };
    assert_eq!(remaining(&state, &ts(90, 0)), Some(10_000_000_000));
    assert_eq!(remaining(&state, &ts(99, 500_000_000)), Some(500_000_000));
    assert_eq!(remaining(&state, &ts(100, 0)), Some(0));
    assert_eq!(remaining(&state, &ts(101, 250_000_000)), Some(-1_250_000_000));
    let mut last = i128::MAX;
    for s in 95..106 {
        let r = remaining(&state, &ts(s, 0)).unwrap();
        assert!(r <= last);
        last = r;
    }
}

#[test]
fn remaining_uses_next_deadline_when_revealed() {
    let state = RoundState::Revealed { answer: "A".to_string(), next_deadline: ts(200, 0) };
    assert_eq!(remaining(&state, &ts(150, 0)), Some(50_000_000_000));
}

#[test]
fn remaining_is_absent_when_idle() {
    assert_eq!(remaining(&RoundState::Idle, &ts(0, 0)), None);
    assert_eq!(remaining_now(&RoundState::Idle), None);
}

#[test]
fn remaining_now_is_negative_for_past_deadline() {
    let state = RoundState::Guessing { word: "W".to_string(), deadline: ts(1_000, 0) };
    assert!(remaining_now(&state).unwrap() < 0);
}

#[test]
fn display_projection_follows_state() {
    let s = states();
    assert_eq!(s[0].guide(), "Waiting Round Start!");
    assert_eq!(s[0].shown_word(), "");
    assert_eq!(s[1].guide(), "Please guess:");
    assert_eq!(s[1].shown_word(), "W");
    assert_eq!(s[2].guide(), "Time's up! The answer is:");
    assert_eq!(s[2].shown_word(), "A");
}

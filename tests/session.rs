use wordgames_client::clock::Timestamp;
use wordgames_client::protocol::{NoticeKind, ServerEvent};
use wordgames_client::queues::SendError;
use wordgames_client::round::RoundState;
use wordgames_client::session::{outgoing_text, Notice, Session};

#[test]
fn events_land_in_their_logs() {
    let mut s = Session::new();
    s.receive(ServerEvent::ChatMessage("hi".to_string()));
    s.receive(ServerEvent::ProtocolNotice { kind: NoticeKind::MalformedFrame, frame: "?".to_string() });
    s.receive(ServerEvent::RoundStarted {
        word: "APPLE".to_string(),
        deadline: Timestamp { unix_seconds: 9, nanosecond: 0 },
    });
    s.receive(ServerEvent::TransportError("reset".to_string()));
    assert_eq!(s.messages, vec!["hi".to_string()]);
    assert_eq!(
        s.notices,
        vec![
            Notice::Protocol { kind: NoticeKind::MalformedFrame, frame: "?".to_string() },
            Notice::Transport("reset".to_string()),
        ]
    );
    assert_eq!(
        s.round,
        RoundState::Guessing {
            word: "APPLE".to_string(),
            deadline: Timestamp { unix_seconds: 9, nanosecond: 0 },
        }
    );
}

#[test]
fn disconnect_resets_round_and_keeps_logs() {
    let mut s = Session::new();
    s.receive(ServerEvent::ChatMessage("hi".to_string()));
    s.receive(ServerEvent::RoundEnded {
        answer: "PEAR".to_string(),
        next_deadline: Timestamp { unix_seconds: 3, nanosecond: 0 },
    });
    s.disconnected(Vec::new());
    assert_eq!(s.round, RoundState::Idle);
    assert_eq!(s.messages.len(), 1);
    assert!(s.notices.is_empty());
}

#[test]
fn failures_become_notices_and_can_be_dismissed() {
    let mut s = Session::new();
    s.connect_failed("refused".to_string());
    s.send_failed(SendError::Disconnected, "hi".to_string());
    let refused = Notice::Send { error: SendError::Disconnected, text: "hi".to_string() };
    assert_eq!(s.notices, vec![Notice::Connection("refused".to_string()), refused.clone()]);
    s.dismiss_notice(0);
    assert_eq!(s.notices, vec![refused]);
}

#[test]
fn empty_draft_sends_nothing() {
    assert_eq!(outgoing_text(String::new()), None);
    assert_eq!(outgoing_text("guess".to_string()), Some("guess".to_string()));
}

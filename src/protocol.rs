//! The inbound protocol: the frames the server sends, the events they decode
//! to, and the decoder itself. Every frame yields exactly one event; a frame
//! that cannot be read yields a notice rather than an error.
use vstd::prelude::*;

use crate::clock::{instant_of, Timestamp};

verus! {

/// One inbound frame as its JSON text reads: the `type` field selects the
/// variant and the `content` field holds its payload.
#[derive(Clone, Debug, PartialEq, Eq)]
pub enum WireMessage {
    ChatMessage(String),
    OngoingRoundInfo { word_to_guess: String, round_finish_time: String },
    FinishedRoundInfo { word_answer: String, to_next_round_time: String },
    FinishedGame,
}

/// Why a frame was turned into a notice.
#[derive(Clone, Copy, Debug, PartialEq, Eq, Structural)]
pub enum NoticeKind {
    /// The frame is not one of the protocol's messages.
    MalformedFrame,
    /// A round message holds a time that is no ISO 8601 instant.
    BadTimestamp,
}

/// A typed event of the inbound stream.
#[derive(Clone, Debug, PartialEq, Eq)]
pub enum ServerEvent {
    ChatMessage(String),
    RoundStarted { word: String, deadline: Timestamp },
    RoundEnded { answer: String, next_deadline: Timestamp },
    GameFinished,
    /// Stands for one frame that could not be decoded; holds that frame.
    ProtocolNotice { kind: NoticeKind, frame: String },
    /// The bridge's one terminal report of a failed read or write.
    TransportError(String),
}

/// The event that `frame` decodes to, given what the JSON reader made of it
/// (`None` where it matched none of the protocol's messages).
pub open spec fn decoded(frame: String, parsed: Option<WireMessage>) -> ServerEvent {
    match parsed {
        None => ServerEvent::ProtocolNotice { kind: NoticeKind::MalformedFrame, frame },
        Some(WireMessage::ChatMessage(text)) => ServerEvent::ChatMessage(text),
        Some(WireMessage::OngoingRoundInfo { word_to_guess, round_finish_time }) => {
            match instant_of(round_finish_time@) {
                Some(deadline) => ServerEvent::RoundStarted { word: word_to_guess, deadline },
                None => ServerEvent::ProtocolNotice { kind: NoticeKind::BadTimestamp, frame },
            }
        },
        Some(WireMessage::FinishedRoundInfo { word_answer, to_next_round_time }) => {
            match instant_of(to_next_round_time@) {
                Some(next_deadline) => ServerEvent::RoundEnded { answer: word_answer, next_deadline },
                None => ServerEvent::ProtocolNotice { kind: NoticeKind::BadTimestamp, frame },
            }
        },
        Some(WireMessage::FinishedGame) => ServerEvent::GameFinished,
    }
}

/// Decodes one frame into one event. `parsed` is what the JSON reader made of
/// `frame`; the round times in it are parsed here.
pub fn decode_frame(frame: String, parsed: Option<WireMessage>) -> (r: ServerEvent)
    ensures
        r == decoded(frame, parsed),
{
    match parsed {
        None => ServerEvent::ProtocolNotice { kind: NoticeKind::MalformedFrame, frame },
        Some(WireMessage::ChatMessage(text)) => ServerEvent::ChatMessage(text),
        Some(WireMessage::OngoingRoundInfo { word_to_guess, round_finish_time }) => {
            match Timestamp::parse(round_finish_time.as_str()) {
                Some(deadline) => ServerEvent::RoundStarted { word: word_to_guess, deadline },
                None => ServerEvent::ProtocolNotice { kind: NoticeKind::BadTimestamp, frame },
            }
        },
        Some(WireMessage::FinishedRoundInfo { word_answer, to_next_round_time }) => {
            match Timestamp::parse(to_next_round_time.as_str()) {
                Some(next_deadline) => ServerEvent::RoundEnded { answer: word_answer, next_deadline },
                None => ServerEvent::ProtocolNotice { kind: NoticeKind::BadTimestamp, frame },
            }
        },
        Some(WireMessage::FinishedGame) => ServerEvent::GameFinished,
    }
}

/// The events that a sequence of frames decodes to, one for each.
pub open spec fn decoded_all(frames: Seq<(String, Option<WireMessage>)>) -> Seq<ServerEvent> {
    frames.map_values(|f: (String, Option<WireMessage>)| decoded(f.0, f.1))
}

/// Decoding is one to one: a sequence of frames yields exactly as many events,
/// the i-th event being the decoding of the i-th frame, notices included.
pub proof fn lemma_one_event_per_frame(frames: Seq<(String, Option<WireMessage>)>)
    ensures
        decoded_all(frames).len() == frames.len(),
        forall|i: int|
            0 <= i < frames.len() ==> #[trigger] decoded_all(frames)[i] == decoded(
                frames[i].0,
                frames[i].1,
            ),
{
}

} // verus!

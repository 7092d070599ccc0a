//! The consumer's view of one session: the round state, the chat log, and the
//! visible list of problems. Every event of the inbound stream lands in
//! exactly one of them, or changes nothing.
use vstd::prelude::*;

use crate::protocol::{NoticeKind, ServerEvent};
use crate::queues::SendError;
use crate::round::{next, next_state, RoundState};

verus! {

/// A problem shown to the user until dismissed.
#[derive(Clone, Debug, PartialEq, Eq)]
pub enum Notice {
    /// Connecting failed, for this reason.
    Connection(String),
    /// A text will not be written: refused by the queue, or still queued at
    /// disconnect.
    Send { error: SendError, text: String },
    /// A frame could not be decoded; holds the frame.
    Protocol { kind: NoticeKind, frame: String },
    /// The connection failed mid-session, for this reason.
    Transport(String),
}

/// The chat line an event adds, if any.
pub open spec fn chat_line(event: ServerEvent) -> Option<String> {
    match event {
        ServerEvent::ChatMessage(text) => Some(text),
        _ => None,
    }
}

/// The notice an event adds, if any.
pub open spec fn notice_of(event: ServerEvent) -> Option<Notice> {
    match event {
        ServerEvent::ProtocolNotice { kind, frame } => Some(Notice::Protocol { kind, frame }),
        ServerEvent::TransportError(reason) => Some(Notice::Transport(reason)),
        _ => None,
    }
}

/// The notices for texts still queued at disconnect, one for each, in order.
pub open spec fn unsent_notices(texts: Seq<String>) -> Seq<Notice> {
    texts.map_values(|t: String| Notice::Send { error: SendError::Disconnected, text: t })
}

/// Appends the item, if there is one.
pub open spec fn push_opt<T>(s: Seq<T>, item: Option<T>) -> Seq<T> {
    match item {
        Some(x) => s.push(x),
        None => s,
    }
}

/// The text to queue for a submitted draft: nothing for an empty draft.
pub fn outgoing_text(draft: String) -> (r: Option<String>)
    ensures
        r == (if draft@.len() == 0 {
            None
        } else {
            Some(draft)
        }),
{
    if draft.as_str().is_empty() {
        None
    } else {
        Some(draft)
    }
}

/// What the consumer shows of one session.
pub struct Session {
    pub round: RoundState,
    pub messages: Vec<String>,
    pub notices: Vec<Notice>,
}

impl Session {
    /// A session with no round, no chat and no notice.
    pub fn new() -> (r: Session)
        ensures
            r.round == RoundState::Idle,
            r.messages@.len() == 0,
            r.notices@.len() == 0,
    {
        Session { round: RoundState::Idle, messages: Vec::new(), notices: Vec::new() }
    }

    /// Takes in one inbound event: the round state follows the reducer, a chat
    /// message joins the log, and a notice or transport error joins the
    /// notices.
    pub fn receive(&mut self, event: ServerEvent)
        ensures
            final(self).round == next_state(old(self).round, event),
            final(self).messages@ == push_opt(old(self).messages@, chat_line(event)),
            final(self).notices@ == push_opt(old(self).notices@, notice_of(event)),
    {
        match event {
            ServerEvent::ChatMessage(text) => {
                self.messages.push(text);
            },
            ServerEvent::ProtocolNotice { kind, frame } => {
                self.notices.push(Notice::Protocol { kind, frame });
            },
            ServerEvent::TransportError(reason) => {
                self.notices.push(Notice::Transport(reason));
            },
            other => {
                self.round = next(RoundState::Idle, other);
            },
        }
    }

    /// Records a failed attempt to connect.
    pub fn connect_failed(&mut self, reason: String)
        ensures
            final(self).round == old(self).round,
            final(self).messages@ == old(self).messages@,
            final(self).notices@ == old(self).notices@.push(Notice::Connection(reason)),
    {
        self.notices.push(Notice::Connection(reason));
    }

    /// Records a text that could not be queued.
    pub fn send_failed(&mut self, error: SendError, text: String)
        ensures
            final(self).round == old(self).round,
            final(self).messages@ == old(self).messages@,
            final(self).notices@ == old(self).notices@.push(Notice::Send { error, text }),
    {
        self.notices.push(Notice::Send { error, text });
    }

    /// Ends the session's round on disconnecting, and records one notice for
    /// each text that was still queued and so will not be written. The chat
    /// log stays.
    pub fn disconnected(&mut self, unsent: Vec<String>)
        ensures
            final(self).round == RoundState::Idle,
            final(self).messages@ == old(self).messages@,
            final(self).notices@ == old(self).notices@ + unsent_notices(unsent@),
    {
        self.round = RoundState::Idle;
        let mut i: usize = 0;
        while i < unsent.len()
            invariant
                i <= unsent@.len(),
                self.round == RoundState::Idle,
                self.messages@ == old(self).messages@,
                self.notices@ == old(self).notices@ + unsent_notices(unsent@.take(i as int)),
            decreases unsent@.len() - i,
        {
            let text = unsent[i].clone();
            proof {
                assert(unsent@.take(i as int + 1) =~= unsent@.take(i as int).push(unsent@[i as int]));
            }
            self.notices.push(Notice::Send { error: SendError::Disconnected, text });
            i = i + 1;
        }
        proof {
            assert(unsent@.take(i as int) =~= unsent@);
        }
    }

    /// Dismisses the notice at `index`.
    pub fn dismiss_notice(&mut self, index: usize)
        requires
            index < old(self).notices@.len(),
        ensures
            final(self).round == old(self).round,
            final(self).messages@ == old(self).messages@,
            final(self).notices@ == old(self).notices@.remove(index as int),
    {
        self.notices.remove(index);
    }
}

} // verus!

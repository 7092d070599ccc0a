//! The round state machine: which phase of the game is shown, folded from the
//! event stream, and the time left in it, derived on demand from the stored
//! deadline and the current instant.
use vstd::prelude::*;

use crate::clock::{instant_of, nanos_until, Timestamp};
use crate::protocol::{decoded, NoticeKind, ServerEvent, WireMessage};

verus! {

/// The phase of the game as last announced by the server.
#[derive(Clone, Debug, PartialEq, Eq)]
pub enum RoundState {
    Idle,
    Guessing { word: String, deadline: Timestamp },
    Revealed { answer: String, next_deadline: Timestamp },
}

/// The transition table: round events replace the state whatever it was, the
/// end of the game returns to `Idle`, and every other event leaves it alone.
pub open spec fn next_state(state: RoundState, event: ServerEvent) -> RoundState {
    match event {
        ServerEvent::RoundStarted { word, deadline } => RoundState::Guessing { word, deadline },
        ServerEvent::RoundEnded { answer, next_deadline } => RoundState::Revealed {
            answer,
            next_deadline,
        },
        ServerEvent::GameFinished => RoundState::Idle,
        _ => state,
    }
}

/// The deadline a state carries, if any.
pub open spec fn deadline_of(state: RoundState) -> Option<Timestamp> {
    match state {
        RoundState::Idle => None,
        RoundState::Guessing { deadline, .. } => Some(deadline),
        RoundState::Revealed { next_deadline, .. } => Some(next_deadline),
    }
}

/// Signed nanoseconds left before the state's deadline at instant `now`.
pub open spec fn remaining_at(state: RoundState, now: Timestamp) -> Option<int> {
    match deadline_of(state) {
        Some(d) => Some(nanos_until(d, now)),
        None => None,
    }
}

/// Folds one event into the round state. Defined for every pair.
pub fn next(state: RoundState, event: ServerEvent) -> (r: RoundState)
    ensures
        r == next_state(state, event),
{
    match event {
        ServerEvent::RoundStarted { word, deadline } => RoundState::Guessing { word, deadline },
        ServerEvent::RoundEnded { answer, next_deadline } => RoundState::Revealed {
            answer,
            next_deadline,
        },
        ServerEvent::GameFinished => RoundState::Idle,
        _ => state,
    }
}

/// Signed nanoseconds left before the state's deadline at instant `now`:
/// `None` in `Idle`, negative once the deadline is past.
pub fn remaining(state: &RoundState, now: &Timestamp) -> (r: Option<i128>)
    ensures
        r matches Some(n) ==> remaining_at(*state, *now) == Some(n as int),
        r is None <==> remaining_at(*state, *now) is None,
{
    match state {
        RoundState::Idle => None,
        RoundState::Guessing { deadline, .. } => Some(deadline.nanos_until(now)),
        RoundState::Revealed { next_deadline, .. } => Some(next_deadline.nanos_until(now)),
    }
}

/// Signed nanoseconds left before the state's deadline, read against the
/// system clock: `None` exactly in `Idle`, else the time left at the instant
/// the clock gave.
pub fn remaining_now(state: &RoundState) -> (r: Option<i128>)
    ensures
        r is None <==> state is Idle,
        r matches Some(n) ==> exists|now: Timestamp|
            now.wf() && #[trigger] remaining_at(*state, now) == Some(n as int),
{
    let now = Timestamp::now();
    let r = remaining(state, &now);
    proof {
        if r is Some {
            assert(remaining_at(*state, now) == Some(r->0 as int));
        }
    }
    r
}

impl RoundState {
    /// The line shown above the word for this phase.
    pub fn guide(&self) -> (r: &'static str)
        ensures
            self is Idle ==> r@ == "Waiting Round Start!"@,
            self is Guessing ==> r@ == "Please guess:"@,
            self is Revealed ==> r@ == "Time's up! The answer is:"@,
    {
        match self {
            RoundState::Idle => "Waiting Round Start!",
            RoundState::Guessing { .. } => "Please guess:",
            RoundState::Revealed { .. } => "Time's up! The answer is:",
        }
    }

    /// The word shown for this phase: the word to guess, the answer, or
    /// nothing while idle.
    pub fn shown_word(&self) -> (r: &str)
        ensures
            self is Idle ==> r@ == Seq::<char>::empty(),
            self matches RoundState::Guessing { word, .. } ==> r@ == word@,
            self matches RoundState::Revealed { answer, .. } ==> r@ == answer@,
    {
        match self {
            RoundState::Idle => {
                proof {
                    reveal_strlit("");
                }
                ""
            },
            RoundState::Guessing { word, .. } => word.as_str(),
            RoundState::Revealed { answer, .. } => answer.as_str(),
        }
    }
}

/// With no event in between, the time left never grows as the clock advances,
/// and stays defined (negative if need be) past the deadline.
pub proof fn lemma_remaining_non_increasing(state: RoundState, earlier: Timestamp, later: Timestamp)
    requires
        earlier.total_nanos() <= later.total_nanos(),
    ensures
        remaining_at(state, earlier) is Some <==> !(state is Idle),
        remaining_at(state, later) is Some <==> !(state is Idle),
        !(state is Idle) ==> remaining_at(state, later)->0 <= remaining_at(state, earlier)->0,
{
}

/// A round message whose time is no ISO 8601 instant decodes to a notice, and
/// folding that notice leaves the round state as it was.
pub proof fn lemma_bad_time_is_notice(
    state: RoundState,
    frame: String,
    word: String,
    time_text: String,
    starts_round: bool,
)
    requires
        instant_of(time_text@) is None,
    ensures
        ({
            let msg = if starts_round {
                WireMessage::OngoingRoundInfo { word_to_guess: word, round_finish_time: time_text }
            } else {
                WireMessage::FinishedRoundInfo { word_answer: word, to_next_round_time: time_text }
            };
            &&& decoded(frame, Some(msg)) == ServerEvent::ProtocolNotice {
                kind: NoticeKind::BadTimestamp,
                frame,
            }
            &&& next_state(state, decoded(frame, Some(msg))) == state
        }),
{
}

} // verus!

use vstd::prelude::*;
use crate::session::result_of;
use crate::types::{Event, GameMetrics, GameState, Session, SessionStatus, StateQuery, StateReply};

verus! {

/// `a` and `b` carry the same solver answer.
pub open spec fn same_event(a: Event, b: Event) -> bool {
    match (a, b) {
        (Event::GameStarted { user: u }, Event::GameStarted { user: v }) => u == v,
        (
            Event::WordChecked { user: u, correct_positions: p, contained_in_word: c },
            Event::WordChecked { user: v, correct_positions: q, contained_in_word: d },
        ) => u == v && p@ == q@ && c@ == d@,
        _ => false,
    }
}

/// `a` and `b` are the same status.
pub open spec fn same_status(a: SessionStatus, b: SessionStatus) -> bool {
    match (a, b) {
        (SessionStatus::Waiting, SessionStatus::Waiting) => true,
        (SessionStatus::MessageSent, SessionStatus::MessageSent) => true,
        (SessionStatus::MessageReceived(x), SessionStatus::MessageReceived(y)) => same_event(x, y),
        (SessionStatus::GameEnded { result: x }, SessionStatus::GameEnded { result: y }) => x == y,
        _ => false,
    }
}

/// All counters zero: the session keeps no statistics.
pub open spec fn empty_metrics() -> GameMetrics {
    GameMetrics { total_games_played: 0, total_wins: 0, total_losses: 0, average_attempts: 0 }
}

fn copy_bytes(v: &Vec<u8>) -> (r: Vec<u8>)
    ensures
        r@ == v@,
{
    let mut r: Vec<u8> = Vec::with_capacity(v.len());
    let mut i: usize = 0;
    while i < v.len()
        invariant
            i <= v@.len(),
            r@ == v@.subrange(0, i as int),
        decreases v@.len() - i,
    {
        r.push(v[i]);
        i = i + 1;
    }
    assert(r@ =~= v@);
    r
}

impl Event {
    /// A copy of the answer, byte lists included.
    pub fn duplicate(&self) -> (r: Event)
        ensures
            same_event(r, *self),
    {
        match self {
            Event::GameStarted { user } => Event::GameStarted { user: *user },
            Event::WordChecked { user, correct_positions, contained_in_word } => Event::WordChecked {
                user: *user,
                correct_positions: copy_bytes(correct_positions),
                contained_in_word: copy_bytes(contained_in_word),
            },
        }
    }
}

impl SessionStatus {
    /// A copy of the status, a pending answer included.
    pub fn duplicate(&self) -> (r: SessionStatus)
        ensures
            same_status(r, *self),
    {
        match self {
            SessionStatus::Waiting => SessionStatus::Waiting,
            SessionStatus::MessageSent => SessionStatus::MessageSent,
            SessionStatus::MessageReceived(event) => SessionStatus::MessageReceived(event.duplicate()),
            SessionStatus::GameEnded { result } => SessionStatus::GameEnded { result: *result },
        }
    }
}

impl GameState {
    /// What an inspection of `session` shows: its status, the attempts left, the
    /// outcome if the round is over, and the block at which the round began.
    pub fn from_session(session: &Session) -> (g: GameState)
        ensures
            same_status(g.session_status, session.session_status),
            g.attempts_remaining == session.attempts,
            g.game_result == result_of(session.session_status),
            g.last_action_block == session.start_block_height,
    {
        GameState {
            session_status: session.session_status.duplicate(),
            attempts_remaining: session.attempts,
            game_result: session.game_result(),
            last_action_block: session.start_block_height,
        }
    }
}

impl Session {
    /// Answers a read-only question; the session is not changed.
    pub fn handle_state_query(&self, query: StateQuery) -> (r: StateReply)
        ensures
            match query {
                StateQuery::GetGameState => match r {
                    StateReply::GameState(g) => {
                        &&& same_status(g.session_status, self.session_status)
                        &&& g.attempts_remaining == self.attempts
                        &&& g.game_result == result_of(self.session_status)
                        &&& g.last_action_block == self.start_block_height
                    },
                    _ => false,
                },
                StateQuery::GetGameMetrics => r == StateReply::GameMetrics(empty_metrics()),
            },
    {
        match query {
            StateQuery::GetGameState => StateReply::GameState(GameState::from_session(self)),
            StateQuery::GetGameMetrics => StateReply::GameMetrics(
                GameMetrics { total_games_played: 0, total_wins: 0, total_losses: 0, average_attempts: 0 },
            ),
        }
    }
}

} // verus!

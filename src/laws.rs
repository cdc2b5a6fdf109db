use vstd::prelude::*;
use crate::session::{
    exhausted_text, ended_text, is_error_reply, is_status_reply, result_of, Effect, MAX_ATTEMPTS,
    WORD_LENGTH,
};
use crate::types::{Action, ActorId, Event, GameResult, Session, SessionAction, SessionStatus};

verus! {

/// No step takes the attempts left above what a fresh round allows; being a `u8`,
/// the count is never negative either.
pub proof fn lemma_attempts_bounded(s: Session, action: SessionAction, now: u32, t: Session, e: Effect)
    requires
        s.wf(),
        s.handle_post(action, now, t, e),
    ensures
        t.wf(),
        0 <= t.attempts <= MAX_ATTEMPTS,
{
}

/// Starting a game from any state that has no request outstanding resets the
/// attempts to the maximum and the round's start to the current block, and waits
/// for the solver to confirm.
pub proof fn lemma_start_resets(s: Session, user: ActorId, now: u32, t: Session, e: Effect)
    requires
        !(s.session_status is MessageSent),
        !(s.session_status is MessageReceived),
        s.handle_post(SessionAction::StartGame { user }, now, t, e),
    ensures
        t.attempts == MAX_ATTEMPTS,
        t.start_block_height == now,
        t.session_status is MessageSent,
        e == (Effect::SendAndWait { request: Action::StartGame { user } }),
{
}

/// A guess after the round has ended changes nothing and is answered with an error.
pub proof fn lemma_guess_after_end(s: Session, user: ActorId, word: String, now: u32, t: Session, e: Effect)
    requires
        s.is_ended(),
        s.handle_post(SessionAction::CheckWord { user, word }, now, t, e),
    ensures
        t == s,
        is_error_reply(e, ended_text()),
{
}

/// A guess with no attempt left ends the round as lost; polls after that, at any
/// block, keep it lost.
pub proof fn lemma_exhausted_guess_loses(
    s: Session,
    user: ActorId,
    word: String,
    now: u32,
    t: Session,
    e: Effect,
    later: u32,
    u: Session,
    f: Effect,
)
    requires
        s.session_status is Waiting,
        s.attempts == 0,
        s.handle_post(SessionAction::CheckWord { user, word }, now, t, e),
        t.handle_post(SessionAction::CheckGameStatus { user }, later, u, f),
    ensures
        t.session_status == (SessionStatus::GameEnded { result: GameResult::Lose }),
        is_error_reply(e, exhausted_text()),
        u == t,
        is_status_reply(f, Some(GameResult::Lose)),
{
}

/// An answer in which every letter stands in its place wins the round, whatever
/// the attempts left.
pub proof fn lemma_full_match_wins(
    s: Session,
    user: ActorId,
    correct_positions: Vec<u8>,
    contained_in_word: Vec<u8>,
    action: SessionAction,
    now: u32,
    t: Session,
    e: Effect,
)
    requires
        correct_positions@.len() == WORD_LENGTH,
        s.session_status == SessionStatus::MessageReceived(
            Event::WordChecked { user, correct_positions, contained_in_word },
        ),
        s.handle_post(action, now, t, e),
    ensures
        t.session_status == (SessionStatus::GameEnded { result: GameResult::Win }),
        t.attempts == s.attempts,
        is_status_reply(e, Some(GameResult::Win)),
{
}

/// A poll on a round that is still played loses it once the timeout has passed,
/// and changes nothing before.
pub proof fn lemma_poll_timeout(s: Session, user: ActorId, now: u32, t: Session, e: Effect)
    requires
        s.session_status is Waiting || s.session_status is MessageSent,
        s.handle_post(SessionAction::CheckGameStatus { user }, now, t, e),
    ensures
        s.timed_out(now) ==> t.session_status == (SessionStatus::GameEnded { result: GameResult::Lose })
            && is_status_reply(e, Some(GameResult::Lose)),
        !s.timed_out(now) ==> t == s && is_status_reply(e, None),
{
}

/// Once the round has ended, any command but a fresh start leaves the status and
/// the outcome as they are.
pub proof fn lemma_ended_is_stable(s: Session, action: SessionAction, now: u32, t: Session, e: Effect)
    requires
        s.is_ended(),
        !(action is StartGame),
        s.handle_post(action, now, t, e),
    ensures
        t.session_status == s.session_status,
        result_of(t.session_status) == result_of(s.session_status),
{
}

} // verus!

use vstd::prelude::*;
use crate::types::{
    Action, ActorId, Event, GameResult, GameStatus, Session, SessionAction, SessionEvent,
    SessionStatus,
};

verus! {

/// Number of guesses a fresh round allows.
pub const MAX_ATTEMPTS: u8 = 5;

/// Blocks after the start of a round at which it is lost for lack of time.
pub const TIMEOUT_BLOCKS: u32 = 200;

/// Letters in a word: a guess with this many correct positions wins.
pub const WORD_LENGTH: usize = 5;

/// What the host must do after the session has taken a step.
#[derive(Clone, Debug)]
pub enum Effect {
    /// Send `request` to the solver and suspend the current command until it answers.
    SendAndWait { request: Action },
    /// Answer the current command with `event`.
    Reply { event: SessionEvent },
    /// Send `check` to the session itself after `delay` blocks, then answer with `event`.
    ScheduleAndReply { check: SessionAction, delay: u32, event: SessionEvent },
}

/// The outcome that `status` records, if the round is over.
pub open spec fn result_of(status: SessionStatus) -> Option<GameResult> {
    match status {
        SessionStatus::GameEnded { result } => Some(result),
        _ => None,
    }
}

/// What a guess after the end of the round is told.
pub open spec fn ended_text() -> Seq<char> {
    "Game has already ended"@
}

/// What a guess with no attempt left is told.
pub open spec fn exhausted_text() -> Seq<char> {
    "No more attempts left, game over"@
}

/// What a command is told while a request to the solver is outstanding.
pub open spec fn in_flight_text() -> Seq<char> {
    "Message has already been sent, restart the game"@
}

/// `e` answers with a `GameError` that says `text`.
pub open spec fn is_error_reply(e: Effect, text: Seq<char>) -> bool {
    match e {
        Effect::Reply { event: SessionEvent::GameError(m) } => m@ == text,
        _ => false,
    }
}

/// `e` answers with the outcome `r`.
pub open spec fn is_status_reply(e: Effect, r: Option<GameResult>) -> bool {
    e == (Effect::Reply { event: SessionEvent::GameStatus(GameStatus { game_result: r }) })
}

impl Session {
    /// The attempts left never exceed what a fresh round allows.
    pub open spec fn wf(&self) -> bool {
        self.attempts <= MAX_ATTEMPTS
    }

    pub open spec fn is_ended(&self) -> bool {
        self.session_status is GameEnded
    }

    /// Blocks since the round began; a clock that reads earlier counts as none.
    pub open spec fn elapsed(&self, now: u32) -> int {
        if now >= self.start_block_height {
            now - self.start_block_height
        } else {
            0
        }
    }

    pub open spec fn timed_out(&self, now: u32) -> bool {
        self.elapsed(now) >= TIMEOUT_BLOCKS
    }

    /// `t` is `self` with another status, its counters kept.
    pub open spec fn with_status(&self, t: Session, status: SessionStatus) -> bool {
        &&& t.session_status == status
        &&& t.target_program_id == self.target_program_id
        &&& t.start_block_height == self.start_block_height
        &&& t.attempts == self.attempts
    }

    /// A status poll at block `now` took `self` to `t` with effect `e`.
    pub open spec fn poll_post(&self, now: u32, t: Session, e: Effect) -> bool {
        if !self.is_ended() && self.timed_out(now) {
            &&& self.with_status(t, SessionStatus::GameEnded { result: GameResult::Lose })
            &&& is_status_reply(e, Some(GameResult::Lose))
        } else {
            &&& t == *self
            &&& is_status_reply(e, result_of(self.session_status))
        }
    }

    /// A fresh round began at block `now` for `user`.
    pub open spec fn start_post(&self, user: ActorId, now: u32, t: Session, e: Effect) -> bool {
        &&& t.session_status is MessageSent
        &&& t.target_program_id == self.target_program_id
        &&& t.start_block_height == now
        &&& t.attempts == MAX_ATTEMPTS
        &&& e == (Effect::SendAndWait { request: Action::StartGame { user } })
    }

    /// A guess of `word` by `user` took `self` to `t` with effect `e`.
    pub open spec fn guess_post(&self, user: ActorId, word: String, t: Session, e: Effect) -> bool {
        if self.is_ended() {
            &&& t == *self
            &&& is_error_reply(e, ended_text())
        } else if self.attempts == 0 {
            &&& self.with_status(t, SessionStatus::GameEnded { result: GameResult::Lose })
            &&& is_error_reply(e, exhausted_text())
        } else {
            &&& t.session_status is MessageSent
            &&& t.target_program_id == self.target_program_id
            &&& t.start_block_height == self.start_block_height
            &&& t.attempts == self.attempts - 1
            &&& e == (Effect::SendAndWait { request: Action::CheckWord { user, word } })
        }
    }

    /// The solver's `event` was taken in by the suspended command.
    pub open spec fn event_post(&self, event: Event, t: Session, e: Effect) -> bool {
        match event {
            Event::GameStarted { user } => {
                &&& self.with_status(t, SessionStatus::Waiting)
                &&& e == (Effect::ScheduleAndReply {
                    check: SessionAction::CheckGameStatus { user },
                    delay: TIMEOUT_BLOCKS,
                    event: SessionEvent::GameStarted { user },
                })
            },
            Event::WordChecked { user, correct_positions, contained_in_word } => {
                if correct_positions@.len() == WORD_LENGTH {
                    &&& self.with_status(t, SessionStatus::GameEnded { result: GameResult::Win })
                    &&& is_status_reply(e, Some(GameResult::Win))
                } else {
                    &&& self.with_status(
                        t,
                        if self.attempts == 0 {
                            SessionStatus::GameEnded { result: GameResult::Lose }
                        } else {
                            SessionStatus::Waiting
                        },
                    )
                    &&& e == (Effect::Reply {
                        event: SessionEvent::WordChecked { user, correct_positions, contained_in_word },
                    })
                }
            },
        }
    }

    /// Command `action`, coming at block `now`, took `self` to `t` with effect `e`.
    pub open spec fn handle_post(&self, action: SessionAction, now: u32, t: Session, e: Effect) -> bool {
        match self.session_status {
            SessionStatus::MessageReceived(event) => self.event_post(event, t, e),
            SessionStatus::MessageSent => match action {
                SessionAction::CheckGameStatus { .. } => self.poll_post(now, t, e),
                _ => t == *self && is_error_reply(e, in_flight_text()),
            },
            _ => match action {
                SessionAction::StartGame { user } => self.start_post(user, now, t, e),
                SessionAction::CheckWord { user, word } => self.guess_post(user, word, t, e),
                SessionAction::CheckGameStatus { .. } => self.poll_post(now, t, e),
            },
        }
    }

    /// A session for the solver `target_program_id`, set up at block `now`.
    pub fn new(target_program_id: ActorId, now: u32) -> (s: Session)
        ensures
            s.wf(),
            s.target_program_id == target_program_id,
            s.session_status is Waiting,
            s.start_block_height == now,
            s.attempts == MAX_ATTEMPTS,
    {
        Session {
            target_program_id,
            session_status: SessionStatus::Waiting,
            start_block_height: now,
            attempts: MAX_ATTEMPTS,
        }
    }

    fn status_reply(r: Option<GameResult>) -> (e: Effect)
        ensures
            is_status_reply(e, r),
    {
        Effect::Reply { event: SessionEvent::GameStatus(GameStatus { game_result: r }) }
    }

    fn error_reply(text: &str) -> (e: Effect)
        ensures
            is_error_reply(e, text@),
    {
        Effect::Reply { event: SessionEvent::GameError(text.to_owned()) }
    }

    /// The outcome of the round, if it is over.
    pub fn game_result(&self) -> (r: Option<GameResult>)
        ensures
            r == result_of(self.session_status),
    {
        match &self.session_status {
            SessionStatus::GameEnded { result } => Some(*result),
            _ => None,
        }
    }

    /// Answers a status poll at block `now`; a round that has run out of time is lost.
    pub fn poll(&mut self, now: u32) -> (e: Effect)
        requires
            old(self).wf(),
        ensures
            final(self).wf(),
            old(self).poll_post(now, *final(self), e),
    {
        let elapsed: u32 = now.saturating_sub(self.start_block_height);
        let ended = matches!(self.session_status, SessionStatus::GameEnded { .. });
        if !ended && elapsed >= TIMEOUT_BLOCKS {
            self.session_status = SessionStatus::GameEnded { result: GameResult::Lose };
            Self::status_reply(Some(GameResult::Lose))
        } else {
            Self::status_reply(self.game_result())
        }
    }

    /// Begins a fresh round at block `now` and asks the solver to start it.
    pub fn start(&mut self, user: ActorId, now: u32) -> (e: Effect)
        ensures
            final(self).wf(),
            old(self).start_post(user, now, *final(self), e),
    {
        self.start_block_height = now;
        self.attempts = MAX_ATTEMPTS;
        self.session_status = SessionStatus::MessageSent;
        Effect::SendAndWait { request: Action::StartGame { user } }
    }

    /// Spends an attempt on `word` and hands it to the solver, unless the round is
    /// over or no attempt is left.
    pub fn guess(&mut self, user: ActorId, word: String) -> (e: Effect)
        requires
            old(self).wf(),
        ensures
            final(self).wf(),
            old(self).guess_post(user, word, *final(self), e),
    {
        if matches!(self.session_status, SessionStatus::GameEnded { .. }) {
            Self::error_reply("Game has already ended")
        } else if self.attempts == 0 {
            self.session_status = SessionStatus::GameEnded { result: GameResult::Lose };
            Self::error_reply("No more attempts left, game over")
        } else {
            self.attempts = self.attempts - 1;
            self.session_status = SessionStatus::MessageSent;
            Effect::SendAndWait { request: Action::CheckWord { user, word } }
        }
    }

    /// Takes in the solver's answer on behalf of the suspended command.
    pub fn take_event(&mut self, event: Event) -> (e: Effect)
        requires
            old(self).wf(),
        ensures
            final(self).wf(),
            old(self).event_post(event, *final(self), e),
    {
        match event {
            Event::GameStarted { user } => {
                self.session_status = SessionStatus::Waiting;
                Effect::ScheduleAndReply {
                    check: SessionAction::CheckGameStatus { user },
                    delay: TIMEOUT_BLOCKS,
                    event: SessionEvent::GameStarted { user },
                }
            },
            Event::WordChecked { user, correct_positions, contained_in_word } => {
                if correct_positions.len() == WORD_LENGTH {
                    self.session_status = SessionStatus::GameEnded { result: GameResult::Win };
                    Self::status_reply(Some(GameResult::Win))
                } else {
                    if self.attempts == 0 {
                        self.session_status = SessionStatus::GameEnded { result: GameResult::Lose };
                    } else {
                        self.session_status = SessionStatus::Waiting;
                    }
                    Effect::Reply {
                        event: SessionEvent::WordChecked { user, correct_positions, contained_in_word },
                    }
                }
            },
        }
    }

    /// Takes one step on command `action`, come at block `now`: a command of a user,
    /// the session's own timeout check, or a suspended command that the solver's
    /// answer has resumed.
    pub fn handle(&mut self, action: SessionAction, now: u32) -> (e: Effect)
        requires
            old(self).wf(),
        ensures
            final(self).wf(),
            final(self).target_program_id == old(self).target_program_id,
            old(self).handle_post(action, now, *final(self), e),
    {
        let mut status = SessionStatus::Waiting;
        core::mem::swap(&mut status, &mut self.session_status);
        match status {
            SessionStatus::MessageReceived(event) => self.take_event(event),
            SessionStatus::MessageSent => {
                self.session_status = SessionStatus::MessageSent;
                match action {
                    SessionAction::CheckGameStatus { .. } => self.poll(now),
                    _ => Self::error_reply("Message has already been sent, restart the game"),
                }
            },
            SessionStatus::Waiting => {
                self.session_status = SessionStatus::Waiting;
                self.command(action, now)
            },
            SessionStatus::GameEnded { result } => {
                self.session_status = SessionStatus::GameEnded { result };
                self.command(action, now)
            },
        }
    }

    fn command(&mut self, action: SessionAction, now: u32) -> (e: Effect)
        requires
            old(self).wf(),
        ensures
            final(self).wf(),
            match action {
                SessionAction::StartGame { user } => old(self).start_post(user, now, *final(self), e),
                SessionAction::CheckWord { user, word } => old(self).guess_post(user, word, *final(self), e),
                SessionAction::CheckGameStatus { .. } => old(self).poll_post(now, *final(self), e),
            },
    {
        match action {
            SessionAction::StartGame { user } => self.start(user, now),
            SessionAction::CheckWord { user, word } => self.guess(user, word),
            SessionAction::CheckGameStatus { .. } => self.poll(now),
        }
    }

    /// Hands the solver's answer to the session. Only an outstanding request takes
    /// it: then the suspended command is to be resumed, and the result says so.
    pub fn receive_reply(&mut self, event: Event) -> (resumed: bool)
        requires
            old(self).wf(),
        ensures
            final(self).wf(),
            resumed == (old(self).session_status is MessageSent),
            resumed ==> old(self).with_status(*final(self), SessionStatus::MessageReceived(event)),
            !resumed ==> *final(self) == *old(self),
    {
        if matches!(self.session_status, SessionStatus::MessageSent) {
            self.session_status = SessionStatus::MessageReceived(event);
            true
        } else {
            false
        }
    }
}

} // verus!

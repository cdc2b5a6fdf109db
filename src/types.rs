use vstd::prelude::*;

verus! {

/// Identity of an actor: the 32 bytes by which the host addresses it.
#[derive(Clone, Copy, Debug, PartialEq, Eq)]
pub struct ActorId(pub [u8; 32]);

/// How a finished round ended.
#[derive(Clone, Copy, Debug, PartialEq, Eq, Structural)]
pub enum GameResult {
    Win,
    Lose,
}

/// A command sent to the session by a user, or by the session to itself.
#[derive(Clone, Debug)]
pub enum SessionAction {
    StartGame { user: ActorId },
    CheckWord { user: ActorId, word: String },
    CheckGameStatus { user: ActorId },
}

/// A reply from the session to whoever sent it a command.
#[derive(Clone, Debug)]
pub enum SessionEvent {
    GameStarted { user: ActorId },
    WordChecked { user: ActorId, correct_positions: Vec<u8>, contained_in_word: Vec<u8> },
    GameStatus(GameStatus),
    GameError(String),
}

/// The outcome of a round as a reply reports it: `None` while it is still played.
#[derive(Clone, Copy, Debug, PartialEq, Eq, Structural)]
pub struct GameStatus {
    pub game_result: Option<GameResult>,
}

/// A request from the session to the solver.
#[derive(Clone, Debug)]
pub enum Action {
    StartGame { user: ActorId },
    CheckWord { user: ActorId, word: String },
}

/// The solver's answer to an `Action`.
#[derive(Clone, Debug)]
pub enum Event {
    GameStarted { user: ActorId },
    WordChecked { user: ActorId, correct_positions: Vec<u8>, contained_in_word: Vec<u8> },
}

/// Where the session stands in a round.
#[derive(Clone, Debug)]
pub enum SessionStatus {
    /// Idle: a new command may come.
    Waiting,
    /// A request to the solver is outstanding and its caller is suspended.
    MessageSent,
    /// The solver's answer has come and waits for the suspended caller.
    MessageReceived(Event),
    /// The round is over.
    GameEnded { result: GameResult },
}

/// The one record that a session keeps.
#[derive(Clone, Debug)]
pub struct Session {
    pub target_program_id: ActorId,
    pub session_status: SessionStatus,
    pub start_block_height: u32,
    pub attempts: u8,
}

/// What an inspection of the session shows.
#[derive(Clone, Debug)]
pub struct GameState {
    pub session_status: SessionStatus,
    pub attempts_remaining: u8,
    pub game_result: Option<GameResult>,
    pub last_action_block: u32,
}

/// Counters over many rounds; the session keeps none, so all stay zero.
#[derive(Clone, Copy, Debug, PartialEq, Eq, Structural)]
pub struct GameMetrics {
    pub total_games_played: u32,
    pub total_wins: u32,
    pub total_losses: u32,
    pub average_attempts: u32,
}

/// A read-only question about the session.
#[derive(Clone, Copy, Debug, PartialEq, Eq, Structural)]
pub enum StateQuery {
    GetGameState,
    GetGameMetrics,
}

/// The answer to a `StateQuery`.
#[derive(Clone, Debug)]
pub enum StateReply {
    GameState(GameState),
    GameMetrics(GameMetrics),
}

} // verus!

use vstd::prelude::*;
use vstd::string::StringExecFns;
use crate::cards::Card;

verus! {

/// Phase of a table. `Betting(k)` and `Trick(k)` count the actions (0 to 3) already taken
/// in the current bidding round or trick.
#[derive(Debug, Clone, Copy, PartialEq, Eq, Structural)]
pub enum State {
    NotStarted,
    Betting(usize),
    Trick(usize),
    Completed,
    Aborted,
}

impl State {
    /// A table in a terminal phase takes no more moves.
    pub open spec fn is_terminal_spec(&self) -> bool {
        self matches State::Completed || self matches State::Aborted
    }

    pub fn is_terminal(&self) -> (b: bool)
        ensures
            b == self.is_terminal_spec(),
    {
        match self {
            State::Completed => true,
            State::Aborted => true,
            _ => false,
        }
    }
}

/// A move submitted to a table.
#[derive(Debug, Clone, Copy)]
pub enum GameTransition {
    Bet(i32),
    Card(Card),
    Start,
}

/// The move kinds as they arrive from a client request.
#[derive(Debug, Clone, Copy)]
pub enum TransitionRequestType {
    Start,
    Bet { amount: i32 },
    Card { card: Card },
}

impl TransitionRequestType {
    pub fn to_transition(&self) -> (t: GameTransition)
        ensures
            match *self {
                TransitionRequestType::Start => t matches GameTransition::Start,
                TransitionRequestType::Bet { amount } => t matches GameTransition::Bet(a) && a == amount,
                TransitionRequestType::Card { card } => t matches GameTransition::Card(c) && c == card,
            },
    {
        match *self {
            TransitionRequestType::Start => GameTransition::Start,
            TransitionRequestType::Bet { amount } => GameTransition::Bet(amount),
            TransitionRequestType::Card { card } => GameTransition::Card(card),
        }
    }
}

/// What a successful move did.
#[derive(Debug, Clone, Copy, PartialEq, Eq, Structural)]
pub enum TransitionSuccess {
    Bet,
    BetComplete,
    Trick,
    PlayCard,
    GameOver,
    Start,
}

/// Why a query on a table failed.
#[derive(Debug, Clone, Copy, PartialEq, Eq, Structural)]
pub enum GetError {
    InvalidUuid,
    GameNotStarted,
    GameCompleted,
    GameNotCompleted,
    Unknown,
}

/// Why a move was refused.
#[derive(Debug, Clone, Copy, PartialEq, Eq, Structural)]
pub enum TransitionError {
    AlreadyStarted,
    NotStarted,
    CardInBettingStage,
    BetInTrickStage,
    CompletedGame,
    CardNotInHand,
    CardIncorrectSuit,
}

/// The failure a move of kind `t` meets in phase `s` before the cards are looked at,
/// or `None` when the move fits the phase.
pub open spec fn phase_error(s: State, t: GameTransition) -> Option<TransitionError> {
    match t {
        GameTransition::Start => if s == State::NotStarted {
            None
        } else {
            Some(TransitionError::AlreadyStarted)
        },
        GameTransition::Bet(_) => match s {
            State::NotStarted => Some(TransitionError::NotStarted),
            State::Trick(_) => Some(TransitionError::BetInTrickStage),
            State::Betting(_) => None,
            _ => Some(TransitionError::CompletedGame),
        },
        GameTransition::Card(_) => match s {
            State::NotStarted => Some(TransitionError::NotStarted),
            State::Betting(_) => Some(TransitionError::CardInBettingStage),
            State::Trick(_) => None,
            _ => Some(TransitionError::CompletedGame),
        },
    }
}

/// Checks that a move fits the table's phase.
pub fn check_phase(s: State, t: &GameTransition) -> (r: Option<TransitionError>)
    ensures
        r == phase_error(s, *t),
{
    match t {
        GameTransition::Start => match s {
            State::NotStarted => None,
            _ => Some(TransitionError::AlreadyStarted),
        },
        GameTransition::Bet(_) => match s {
            State::NotStarted => Some(TransitionError::NotStarted),
            State::Trick(_) => Some(TransitionError::BetInTrickStage),
            State::Betting(_) => None,
            _ => Some(TransitionError::CompletedGame),
        },
        GameTransition::Card(_) => match s {
            State::NotStarted => Some(TransitionError::NotStarted),
            State::Betting(_) => Some(TransitionError::CardInBettingStage),
            State::Trick(_) => None,
            _ => Some(TransitionError::CompletedGame),
        },
    }
}

/// Errors of the durable store.
#[derive(Debug, Clone)]
pub enum StorageError {
    DatabaseError(String),
    SerializationError(String),
    GameNotFound,
}

/// Errors of the table registry.
#[derive(Debug, Clone)]
pub enum GameManagerError {
    GameNotFound,
    GameError(String),
    LockError,
    StorageError(String),
}

impl GameManagerError {
    /// A store failure as the registry reports it: a missing row is a missing table.
    pub fn from_storage(err: StorageError) -> (r: GameManagerError)
        ensures
            match err {
                StorageError::GameNotFound => r matches GameManagerError::GameNotFound,
                StorageError::DatabaseError(m) => r matches GameManagerError::StorageError(n) && n@ == m@,
                StorageError::SerializationError(m) => r matches GameManagerError::StorageError(n) && n@ == m@,
            },
    {
        match err {
            StorageError::GameNotFound => GameManagerError::GameNotFound,
            StorageError::DatabaseError(msg) => GameManagerError::StorageError(msg),
            StorageError::SerializationError(msg) => GameManagerError::StorageError(msg),
        }
    }
}

/// Errors of the seek and lobby broker.
#[derive(Debug, Clone)]
pub enum MatchmakingError {
    LobbyNotFound,
    LobbyFull,
    LockError,
    GameCreationFailed(String),
}

/// How many seekers wait under one points target.
#[derive(Debug, Clone, Copy, PartialEq, Eq, Structural)]
pub struct SeekSummary {
    pub max_points: i32,
    pub waiting: usize,
}

/// Errors of the challenge broker.
#[derive(Debug, Clone)]
pub enum ChallengeError {
    NotFound,
    SeatTaken,
    NotOpen,
    NotCreator,
    InvalidSeat,
    LockError,
    GameCreationFailed(String),
}

pub open spec fn challenge_error_text(e: ChallengeError) -> Seq<char> {
    match e {
        ChallengeError::NotFound => "Challenge not found"@,
        ChallengeError::SeatTaken => "Seat is already taken"@,
        ChallengeError::NotOpen => "Challenge is not open"@,
        ChallengeError::NotCreator => "Only the creator can cancel this challenge"@,
        ChallengeError::InvalidSeat => "Invalid seat"@,
        ChallengeError::LockError => "Internal lock error"@,
        ChallengeError::GameCreationFailed(m) => "Game creation failed: "@ + m@,
    }
}

impl ChallengeError {
    /// The message shown for this error.
    pub fn to_string(&self) -> (r: String)
        ensures
            r@ == challenge_error_text(*self),
    {
        match self {
            ChallengeError::NotFound => String::from_str("Challenge not found"),
            ChallengeError::SeatTaken => String::from_str("Seat is already taken"),
            ChallengeError::NotOpen => String::from_str("Challenge is not open"),
            ChallengeError::NotCreator => String::from_str("Only the creator can cancel this challenge"),
            ChallengeError::InvalidSeat => String::from_str("Invalid seat"),
            ChallengeError::LockError => String::from_str("Internal lock error"),
            ChallengeError::GameCreationFailed(msg) => String::from_str("Game creation failed: ").concat(msg.as_str()),
        }
    }
}

} // verus!

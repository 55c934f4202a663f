//! Messages between users, this proxy and the word service, and the statuses
//! of a game.
use vstd::prelude::*;

use crate::consts::game_rules::WORD_LENGTH;
use crate::ids::{ActorId, MessageId};

verus! {

/// How a finished game ended.
#[derive(Clone, Copy, Debug, PartialEq, Eq, Structural)]
pub enum GameOverStatus {
    Win,
    Lose,
}

/// Represents the various statuses that a game can have.
#[derive(Clone, Debug, PartialEq, Eq)]
pub enum GameStatus {
    /// The request to start the game is with the word service.
    Starting,
    /// The word service started the game; the user has not been told yet.
    Started,
    /// A guessed word is with the word service.
    CheckingWord,
    /// The word service answered a guess; the round is not finished yet.
    ///
    /// - `correct_positions`: positions where the guessed letter is the one of the word.
    /// - `contained_in_word`: positions whose letter is in the word, elsewhere.
    /// - `is_guessed`: whether every letter stands in its place.
    WordChecked { correct_positions: Vec<u8>, contained_in_word: Vec<u8>, is_guessed: bool },
    /// The game waits for the user's next guess.
    InProgress,
    /// The game has ended, with a win or a loss.
    Completed(GameOverStatus),
}

/// What a user sends to this proxy.
#[derive(Clone, Debug)]
pub enum Action {
    StartGame,
    CheckWord { word: String },
    /// Sent by the proxy to itself, some blocks after a game starts.
    CheckGameStatus { user: ActorId, init_id: MessageId },
}

/// What this proxy sends to a user.
#[derive(Clone, Debug, PartialEq, Eq)]
pub enum Event {
    GameStarted,
    WordChecked { correct_positions: Vec<u8>, contained_in_word: Vec<u8> },
    GameOver(GameOverStatus),
}

/// What this proxy asks of the word service.
#[derive(Clone, Debug, PartialEq, Eq)]
pub enum WordleAction {
    StartGame { user: ActorId },
    CheckWord { user: ActorId, word: String },
}

/// What the word service answers.
#[derive(Clone, Debug, PartialEq, Eq)]
pub enum WordleEvent {
    GameStarted { user: ActorId },
    WordChecked { user: ActorId, correct_positions: Vec<u8>, contained_in_word: Vec<u8> },
}

impl WordleEvent {
    /// The user whose game the answer is about.
    pub open spec fn spec_user(&self) -> ActorId {
        match self {
            WordleEvent::GameStarted { user } => *user,
            WordleEvent::WordChecked { user, .. } => *user,
        }
    }

    pub fn user(&self) -> (r: ActorId)
        ensures
            r == self.spec_user(),
    {
        match self {
            WordleEvent::GameStarted { user } => *user,
            WordleEvent::WordChecked { user, .. } => *user,
        }
    }
}

/// The status that an answer of the word service leads to.
pub open spec fn status_of_event(event: WordleEvent) -> GameStatus {
    match event {
        WordleEvent::GameStarted { .. } => GameStatus::Started,
        WordleEvent::WordChecked { correct_positions, contained_in_word, .. } => {
            GameStatus::WordChecked {
                correct_positions,
                contained_in_word,
                is_guessed: correct_positions@.len() == WORD_LENGTH,
            }
        },
    }
}

impl From<WordleEvent> for GameStatus {
    fn from(event: WordleEvent) -> (r: GameStatus) {
        match event {
            WordleEvent::GameStarted { .. } => GameStatus::Started,
            WordleEvent::WordChecked { correct_positions, contained_in_word, .. } => {
                let is_guessed = correct_positions.len() == WORD_LENGTH;
                GameStatus::WordChecked { correct_positions, contained_in_word, is_guessed }
            },
        }
    }
}

impl vstd::std_specs::convert::FromSpecImpl<WordleEvent> for GameStatus {
    open spec fn obeys_from_spec() -> bool {
        true
    }

    open spec fn from_spec(event: WordleEvent) -> GameStatus {
        status_of_event(event)
    }
}

} // verus!

//! The record that the proxy keeps for each user.
use vstd::prelude::*;

use crate::ids::MessageId;
use crate::io::GameStatus;

verus! {

/// The request awaiting an answer from the word service, and the call that
/// waits for that answer.
#[derive(Clone, Copy, Debug, PartialEq, Eq)]
pub struct Correlation {
    /// The message sent to the word service.
    pub request_id: MessageId,
    /// The call suspended until the answer comes.
    pub call_id: MessageId,
}

/// Whether a game in status `s` accepts guesses.
pub open spec fn is_playing_status(s: GameStatus) -> bool {
    s is CheckingWord || s is WordChecked || s is InProgress
}

/// Whether a game in status `s` waits for an answer of the word service.
pub open spec fn is_waiting_status(s: GameStatus) -> bool {
    s is Starting || s is CheckingWord
}

/// One user's game.
#[derive(Clone, Debug)]
pub struct PlayerInfo {
    pub game_status: GameStatus,
    /// Guesses answered in this game.
    pub attempts_count: u32,
    /// The call that started this game; a deferred check names the game by it.
    pub init_msg_id: MessageId,
    /// The pending request and the call waiting for it; only meaningful while
    /// the status waits for the word service.
    pub pending: Correlation,
}

impl PlayerInfo {
    /// A game that has just asked the word service to start.
    pub open spec fn spec_new(sent_msg_id: MessageId, original_msg_id: MessageId) -> PlayerInfo {
        PlayerInfo {
            game_status: GameStatus::Starting,
            attempts_count: 0,
            init_msg_id: original_msg_id,
            pending: Correlation { request_id: sent_msg_id, call_id: original_msg_id },
        }
    }

    pub fn new(sent_msg_id: MessageId, original_msg_id: MessageId) -> (r: PlayerInfo)
        ensures
            r == PlayerInfo::spec_new(sent_msg_id, original_msg_id),
    {
        PlayerInfo {
            game_status: GameStatus::Starting,
            attempts_count: 0,
            init_msg_id: original_msg_id,
            pending: Correlation { request_id: sent_msg_id, call_id: original_msg_id },
        }
    }

    pub fn sent_msg_id(&self) -> (r: MessageId)
        ensures
            r == self.pending.request_id,
    {
        self.pending.request_id
    }

    pub fn original_msg_id(&self) -> (r: MessageId)
        ensures
            r == self.pending.call_id,
    {
        self.pending.call_id
    }

    pub fn set_msg_ids(&mut self, sent_msg_id: MessageId, original_msg_id: MessageId)
        ensures
            *final(self) == (PlayerInfo {
                pending: Correlation { request_id: sent_msg_id, call_id: original_msg_id },
                ..*old(self)
            }),
    {
        self.pending = Correlation { request_id: sent_msg_id, call_id: original_msg_id };
    }

    pub fn increment_attempt(&mut self)
        requires
            old(self).attempts_count < u32::MAX,
        ensures
            *final(self) == (PlayerInfo {
                attempts_count: (old(self).attempts_count + 1) as u32,
                ..*old(self)
            }),
    {
        self.attempts_count = self.attempts_count + 1;
    }

    pub fn is_playing(&self) -> (r: bool)
        ensures
            r == is_playing_status(self.game_status),
    {
        match self.game_status {
            GameStatus::CheckingWord | GameStatus::WordChecked { .. } | GameStatus::InProgress => true,
            _ => false,
        }
    }

    pub fn is_waiting(&self) -> (r: bool)
        ensures
            r == is_waiting_status(self.game_status),
    {
        match self.game_status {
            GameStatus::Starting | GameStatus::CheckingWord => true,
            _ => false,
        }
    }
}

} // verus!

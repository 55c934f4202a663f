//! The ways in which the proxy refuses a call.
use vstd::prelude::*;

use crate::consts::err_msgs;
use crate::word::WordShapeError;

verus! {

/// A refused call. Each is detected before any state changes.
#[derive(Clone, Copy, Debug, PartialEq, Eq, Structural)]
pub enum SessionError {
    /// A start while the user's game is still going.
    SessionConflict,
    /// A call about a user who has no game.
    SessionNotFound,
    /// A guess while the game is starting or over.
    SessionNotPlayable,
    /// A guess whose word has the wrong length or case.
    InvalidWordShape(WordShapeError),
    /// A status check that does not come from the proxy itself.
    UnauthorizedCaller,
}

impl SessionError {
    /// The text with which the refused call fails.
    pub fn message(&self) -> (r: &'static str)
        ensures
            r == match *self {
                SessionError::SessionConflict => err_msgs::GAME_IS_PLAYING,
                SessionError::SessionNotFound => err_msgs::GAME_NOT_FOUND,
                SessionError::SessionNotPlayable => err_msgs::GAME_NOT_PLAYABLE,
                SessionError::InvalidWordShape(WordShapeError::WrongLength) => err_msgs::INVALID_WORD_LEN,
                SessionError::InvalidWordShape(WordShapeError::NotLowercase) => err_msgs::INVALID_WORD_CASE,
                SessionError::UnauthorizedCaller => err_msgs::PROGRAM_ONLY,
            },
    {
        match self {
            SessionError::SessionConflict => err_msgs::GAME_IS_PLAYING,
            SessionError::SessionNotFound => err_msgs::GAME_NOT_FOUND,
            SessionError::SessionNotPlayable => err_msgs::GAME_NOT_PLAYABLE,
            SessionError::InvalidWordShape(WordShapeError::WrongLength) => err_msgs::INVALID_WORD_LEN,
            SessionError::InvalidWordShape(WordShapeError::NotLowercase) => err_msgs::INVALID_WORD_CASE,
            SessionError::UnauthorizedCaller => err_msgs::PROGRAM_ONLY,
        }
    }
}

} // verus!

//! The texts with which a rejected call fails.
use vstd::prelude::*;

verus! {

pub const GAME_IS_PLAYING: &'static str = "A game is in progress for this user";

pub const SEND_FAILED: &'static str = "Error in sending message";

pub const SEND_DELAYED_FAILED: &'static str = "Error in sending delayed message";

pub const GAME_NOT_FOUND: &'static str = "Game does not exist for the user";

pub const GAME_NOT_PLAYABLE: &'static str = "Game is not available to play";

pub const INVALID_WORD_LEN: &'static str = "Word must be 5 character long";

pub const INVALID_WORD_CASE: &'static str = "Word must be lowercased";

pub const LOAD_FAILED: &'static str = "Unable to message's payload";

pub const PLAYER_INFO_NOT_FOUND: &'static str = "Player info does not exist";

pub const PROGRAM_ONLY: &'static str = "Callable by current program only";

pub const RESUME_FAILED: &'static str = "Error in resuming paused message";

pub const READ_REPLY_FAILED: &'static str = "Error in reading replied Message ID";

} // verus!

//! The fixed rules of a game.
use vstd::prelude::*;

verus! {

/// Blocks between the start of a game and the check that ends a stalled one.
pub const DELAY_CHECK_STATUS_DURATION: u32 = 200;

/// Guesses a user may make in one game.
pub const MAX_ATTEMPTS: u32 = 5;

/// Bytes in a guessed word.
pub const WORD_LENGTH: usize = 5;

} // verus!

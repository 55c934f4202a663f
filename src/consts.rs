//! Fixed values of the game and the texts of the errors.
pub mod err_msgs;
pub mod game_rules;

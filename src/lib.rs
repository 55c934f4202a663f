//! A session proxy between users and a word-guessing service.
pub mod consts;
pub mod error;
pub mod ids;
pub mod io;
pub mod laws;
pub mod machine;
pub mod player;
pub mod players;
pub mod session;
pub mod word;

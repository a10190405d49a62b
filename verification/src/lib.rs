//! Core of a social elimination party game: a moderator starts a game,
//! enrolls participants with a life count, opens voting rounds in which
//! living participants nominate one another, and the nominee with a
//! plurality of votes loses a life.  The chat-platform transport around
//! these rules lives outside this crate; the crate owns the game state,
//! the voting rules, the tally, and their invariants.

pub mod assoc;
pub mod checks;
pub mod game;
pub mod roster;
pub mod session;
pub mod tally;
pub mod utils;
pub mod voting;

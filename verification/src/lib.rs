//! Two small teaching components, verified.
//!
//! `concepts` covers core language behaviours: saturating arithmetic,
//! a labeled nested loop, and a loop that produces a result value.
//! `ownership` models single-owner handles and the borrow discipline
//! (many readers or one writer). `game` holds the number-guessing
//! logic: parsing a guess, comparing it to a target, and the game
//! state machine.

pub mod concepts;
pub mod game;
pub mod ownership;

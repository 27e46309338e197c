//! Scorekeeping for a doubles game with rally-point scoring: the score,
//! the rotation of serve among the four players, and the end of the game.

pub mod game;
pub mod input;

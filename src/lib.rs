//! Verified core of a snake game played by a learning agent: the grid
//! rules of the game and the twelve features it reports, the agent's
//! discrete actions, the bounded replay memory it samples past transitions
//! from, the temporal-difference target it trains towards, and a dense
//! matrix whose shapes are checked while its element arithmetic is left to
//! the caller.

mod random;

pub mod action;
pub mod game;
pub mod matrix;
pub mod qlearning;
pub mod replay;

//! Two-player tic-tac-toe: the board, the rules for moving on it, and the
//! test for a won game, with contracts that Verus proves.
//!
//! - `player`: the two players, what a cell holds, the colour it is shown in.
//! - `position`: the game as mathematics, over which every contract is stated.
//! - `board`: the board itself, with the moves and the queries.
//! - `victory`: the test for a winning line, the winner, the state of a game.
//! - `render`: the board and the winner as text.
//! - `console`: moves typed as text.
//! - `session`: a game played with a pointer, event by event.
//! - `laws`: what holds of every game.

pub mod player;
pub mod position;
pub mod board;
pub mod victory;
pub mod render;
pub mod console;
pub mod session;
pub mod laws;

//! When a game is over: the test for a winning line, the winner, and the
//! state of the game.

use vstd::prelude::*;
use crate::board::Ttt;
use crate::player::{CellPlayed, Players};
use crate::position::{Position, winning_lines};

verus! {

/// Where a game stands.
#[derive(Debug, Clone, Copy, PartialEq, Eq, Structural)]
pub enum GameState {
    /// No line is complete and a cell is still free.
    InProgress,
    /// A player holds a winning line.
    Decided,
    /// Every cell is taken and nobody holds a line.
    Draw,
}

impl Position {
    /// Where the game stands in this position. A complete line decides the
    /// game even on a full board.
    pub open spec fn state(self) -> GameState {
        if self.decided() {
            GameState::Decided
        } else if self.full() {
            GameState::Draw
        } else {
            GameState::InProgress
        }
    }
}

/// Whether the game is decided: whether one of the eight winning lines is
/// held by one player. A line is held where its first cell is taken and the
/// other two hold the same mark.
pub fn is_victory(board: &Ttt) -> (r: bool)
    ensures
        r == board@.decided(),
        r <==> exists|who: Players, k: int| 0 <= k < 8 && #[trigger] board@.holds_line(who, k),
{
    let winning_combinations: [[usize; 3]; 8] = [
        [0, 1, 2],
        [3, 4, 5],
        [6, 7, 8],
        [0, 3, 6],
        [1, 4, 7],
        [2, 5, 8],
        [0, 4, 8],
        [2, 4, 6],
    ];
    let mut k: usize = 0;
    while k < 8
        invariant
            k <= 8,
            forall|j: int|
                0 <= j < 8 ==> {
                    let line = winning_lines()[j];
                    let combo = #[trigger] winning_combinations@[j];
                    combo@[0] == line.0 && combo@[1] == line.1 && combo@[2] == line.2
                },
            forall|who: Players, j: int| 0 <= j < k ==> !#[trigger] board@.holds_line(who, j),
        decreases 8 - k,
    {
        let combo = winning_combinations[k];
        let first = *board.pos(combo[0]);
        if first != CellPlayed::No && first == *board.pos(combo[1]) && first == *board.pos(
            combo[2],
        ) {
            proof {
                let who = first->Yes_0;
                assert(board@.holds_line(who, k as int));
            }
            return true;
        }
        k += 1;
    }
    false
}

/// The winner of a decided game: the side that is not to move. The turn
/// passes on with every move, so after the winning move the winner is the
/// other side, not the one whose turn it is.
pub fn winner_player_based_on_current_player(board: &Ttt) -> (r: &Players)
    ensures
        *r == board@.winner(),
{
    match board.get_player() {
        Players::Player1 => &Players::Player2,
        Players::Player2 => &Players::Player1,
    }
}

/// Where the game stands: decided, drawn, or still in progress.
pub fn game_state(board: &Ttt) -> (r: GameState)
    ensures
        r == board@.state(),
{
    if is_victory(board) {
        return GameState::Decided;
    }
    let mut i: usize = 0;
    while i < 9
        invariant
            i <= 9,
            !board@.decided(),
            forall|j: int| 0 <= j < i ==> !board@.free(j),
        decreases 9 - i,
    {
        if *board.pos(i) == CellPlayed::No {
            assert(board@.free(i as int));
            return GameState::InProgress;
        }
        i += 1;
    }
    GameState::Draw
}

} // verus!

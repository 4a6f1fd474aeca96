//! The board as text: one digit per cell, `0` for a free cell and the
//! player's number for a taken one, three rows between two rules.

use vstd::prelude::*;
use vstd::string::*;
use crate::board::Ttt;
use crate::player::{CellPlayed, Players};
use crate::position::Position;
use crate::victory::winner_player_based_on_current_player;

verus! {

/// The number a player is written as: `1` for the first, `2` for the second.
pub open spec fn player_text(p: Players) -> Seq<char> {
    match p {
        Players::Player1 => seq!['1'],
        Players::Player2 => seq!['2'],
    }
}

/// The digit a cell is written as: `0` where it is free, else its owner's
/// number.
pub open spec fn cell_text(c: CellPlayed) -> Seq<char> {
    match c {
        CellPlayed::No => seq!['0'],
        CellPlayed::Yes(p) => player_text(p),
    }
}

/// Row `row` of the board: its three cells with two blanks between
/// neighbours, and a line feed.
pub open spec fn row_text(p: Position, row: int) -> Seq<char> {
    cell_text(p.at(3 * row)) + seq![' ', ' '] + cell_text(p.at(3 * row + 1)) + seq![' ', ' ']
        + cell_text(p.at(3 * row + 2)) + seq!['\n']
}

/// The rule above and below the rows: ten equals signs and a line feed.
pub open spec fn rule_text() -> Seq<char> {
    Seq::new(10, |i: int| '=') + seq!['\n']
}

/// The whole board: a rule, the three rows from the top, a rule.
pub open spec fn board_text(p: Position) -> Seq<char> {
    rule_text() + row_text(p, 0) + row_text(p, 1) + row_text(p, 2) + rule_text()
}

/// What is announced when a game is decided.
pub open spec fn winner_text(p: Position) -> Seq<char> {
    seq!['P', 'l', 'a', 'y', 'e', 'r', ' '] + player_text(p.winner()) + seq![' ', 'w', 'o', 'n', '!']
}

/// The digit that cell `pos` of the board is written as.
pub fn pos_to_string(board: &Ttt, pos: usize) -> (r: String)
    ensures
        r@ == cell_text(board@.at(pos as int)),
{
    broadcast use group_string_axioms;

    match board.pos(pos) {
        CellPlayed::No => {
            proof {
                reveal_strlit("0");
            }
            "0".to_string()
        },
        CellPlayed::Yes(x) => player_to_string(x),
    }
}

/// The number a player is written as.
pub fn player_to_string(p: &Players) -> (r: String)
    ensures
        r@ == player_text(*p),
{
    broadcast use group_string_axioms;

    match p {
        Players::Player1 => {
            proof {
                reveal_strlit("1");
            }
            "1".to_string()
        },
        Players::Player2 => {
            proof {
                reveal_strlit("2");
            }
            "2".to_string()
        },
    }
}

/// Row `row` of the board as text.
fn row_to_string(board: &Ttt, row: usize) -> (r: String)
    requires
        row < 3,
    ensures
        r@ == row_text(board@, row as int),
{
    proof {
        reveal_strlit("  ");
        reveal_strlit("\n");
    }
    let mut text = pos_to_string(board, 3 * row);
    text.append("  ");
    text.append(pos_to_string(board, 3 * row + 1).as_str());
    text.append("  ");
    text.append(pos_to_string(board, 3 * row + 2).as_str());
    text.append("\n");
    text
}

impl Ttt {
    /// The board as text, ready to be printed: a rule, the three rows, a
    /// rule, each ended by a line feed.
    pub fn show(&self) -> (r: String)
        ensures
            r@ == board_text(self@),
    {
        proof {
            reveal_strlit("==========\n");
        }
        let mut text = "==========\n".to_owned();
        text.append(row_to_string(self, 0).as_str());
        text.append(row_to_string(self, 1).as_str());
        text.append(row_to_string(self, 2).as_str());
        text.append("==========\n");
        text
    }
}

/// The announcement of the winner: `Player 1 won!` or `Player 2 won!`,
/// naming the side that is not to move.
pub fn winner_message(board: &Ttt) -> (r: String)
    ensures
        r@ == winner_text(board@),
{
    proof {
        reveal_strlit("Player ");
        reveal_strlit(" won!");
    }
    let mut text = "Player ".to_owned();
    text.append(player_to_string(winner_player_based_on_current_player(board)).as_str());
    text.append(" won!");
    text
}

} // verus!

//! The board: nine cells and the side to move, with the operations that
//! change and read it.

use vstd::prelude::*;
use crate::player::{CellPlayed, Players};
use crate::laws::lemma_start_is_open;
use crate::position::{Position, lemma_mark_wf};

verus! {

/// A game of tic-tac-toe in progress. The cells are numbered 0 to 8, row by
/// row.
#[derive(Debug, Clone, Copy, PartialEq, Eq)]
pub struct Ttt {
    board: [CellPlayed; 9],
    player: Players,
}

impl View for Ttt {
    type V = Position;

    closed spec fn view(&self) -> Position {
        Position { cells: self.board@, player: self.player }
    }
}

impl Ttt {
    /// Every board is a well-formed position.
    #[verifier::type_invariant]
    pub open spec fn inv(self) -> bool {
        self@.wf()
    }

    /// A fresh game: every cell free, the first player to move, nothing
    /// decided.
    pub fn new() -> (r: Ttt)
        ensures
            r@ == Position::start(),
            r@.wf(),
            r@.player == Players::Player1,
            forall|i: int| 0 <= i < 9 ==> r@.cells[i] == CellPlayed::No,
            !r@.decided(),
    {
        let board = [CellPlayed::No; 9];
        proof {
            assert(board@ =~= Position::start().cells);
            lemma_start_is_open();
        }
        Ttt { board, player: Players::Player1 }
    }

    /// Attempts a move of the side to move on cell `position`. The move is
    /// made, and `true` returned, where the cell is on the board and free:
    /// the cell then holds the mover's mark and the turn passes to the other
    /// side. Otherwise nothing changes and `false` is returned.
    pub fn play(&mut self, position: usize) -> (r: bool)
        ensures
            r == old(self)@.free(position as int),
            final(self)@ == old(self)@.attempt(position as int),
            final(self)@.wf(),
            !r ==> *final(self) == *old(self),
            r ==> final(self)@.player == old(self)@.player.opponent(),
            r ==> final(self)@.winner() == old(self)@.player,
            r ==> old(self)@.cells[position as int] == CellPlayed::No,
            r ==> final(self)@.cells[position as int] == CellPlayed::Yes(old(self)@.player),
            r ==> forall|j: int|
                0 <= j < 9 && j != position ==> final(self)@.cells[j] == old(self)@.cells[j],
    {
        proof {
            use_type_invariant(&*self);
        }
        if position > 8 {
            return false;
        }
        if self.board[position] != CellPlayed::No {
            return false;
        }
        proof {
            lemma_mark_wf(self@, position as int);
        }
        let mut board = self.board;
        board[position] = CellPlayed::Yes(self.player);
        *self = Ttt { board, player: self.player.other() };
        true
    }

    /// Attempts a move of the side to move on the cell that a pointer was
    /// resolved to. Where the pointer met no cell, nothing happens and `false`
    /// is returned; where it met one, this is `play` on that cell, so a cell
    /// that is taken is refused here as it is there.
    pub fn play_cell(&mut self, cell: Option<usize>) -> (r: bool)
        ensures
            r == match cell {
                Some(position) => old(self)@.free(position as int),
                None => false,
            },
            final(self)@ == match cell {
                Some(position) => old(self)@.attempt(position as int),
                None => old(self)@,
            },
            final(self)@.wf(),
            !r ==> *final(self) == *old(self),
    {
        match cell {
            None => {
                proof {
                    use_type_invariant(&*self);
                }
                false
            },
            Some(position) => self.play(position),
        }
    }

    /// What cell `position` holds; a position off the board holds nothing.
    pub fn pos(&self, position: usize) -> (r: &CellPlayed)
        ensures
            *r == self@.at(position as int),
    {
        if position > 8 {
            return &CellPlayed::No;
        }
        &self.board[position]
    }

    /// The side to move.
    pub fn get_player(&self) -> (r: &Players)
        ensures
            *r == self@.player,
    {
        &self.player
    }
}

} // verus!

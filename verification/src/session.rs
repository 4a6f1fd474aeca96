//! A game played with a pointer: which cell a press lands on, and what a
//! press does to the game.

use vstd::prelude::*;
use crate::board::Ttt;
use crate::laws::lemma_winner_made_last_move;
use crate::player::Players;
use crate::position::Position;
use crate::victory::{is_victory, winner_player_based_on_current_player};

verus! {

/// What the player did with the pointer.
#[derive(Debug, Clone, Copy)]
pub enum Event {
    /// The restart region was pressed.
    Restart,
    /// A point outside the restart region was pressed; it lies on the given
    /// cell, or on none.
    Press(Option<usize>),
}

impl Position {
    /// The position after an event. A restart gives a fresh game. A press
    /// on a cell is an attempt on that cell while the game is undecided; a
    /// press on a decided game, or beside the cells, changes nothing.
    pub open spec fn after(self, event: Event) -> Position {
        match event {
            Event::Restart => Position::start(),
            Event::Press(Some(cell)) => if self.decided() {
                self
            } else {
                self.attempt(cell as int)
            },
            Event::Press(None) => self,
        }
    }
}

/// The cell that a point lies on, given for each cell, in board order,
/// whether the point lies on it: the first such cell, or none.
pub fn screen_pos_to_cell(hits: &[bool]) -> (r: Option<usize>)
    ensures
        match r {
            Some(cell) => cell < hits@.len() && hits@[cell as int] && forall|j: int|
                0 <= j < cell ==> !hits@[j],
            None => forall|j: int| 0 <= j < hits@.len() ==> !hits@[j],
        },
{
    let mut i: usize = 0;
    while i < hits.len()
        invariant
            i <= hits@.len(),
            forall|j: int| 0 <= j < i ==> !hits@[j],
        decreases hits@.len() - i,
    {
        if hits[i] {
            return Some(i);
        }
        i += 1;
    }
    None
}

/// Applies an event to the game and says whether a winner is to be
/// announced: the event's move decided the game, and the result names the
/// winner. Once a game is decided only a restart changes it.
pub fn handle(board: &mut Ttt, event: Event) -> (announce: Option<Players>)
    ensures
        final(board)@ == old(board)@.after(event),
        final(board)@.wf(),
        announce == if !old(board)@.decided() && final(board)@.decided() {
            Some(final(board)@.winner())
        } else {
            None
        },
        announce matches Some(winner) ==> winner == old(board)@.player && final(board)@.has_line(
            winner,
        ) && !final(board)@.has_line(winner.opponent()),
{
    proof {
        use_type_invariant(&*board);
    }
    match event {
        Event::Restart => {
            *board = Ttt::new();
            None
        },
        Event::Press(cell) => {
            if is_victory(board) {
                return None;
            }
            if board.play_cell(cell) && is_victory(board) {
                proof {
                    lemma_winner_made_last_move(old(board)@, cell->0 as int);
                }
                Some(*winner_player_based_on_current_player(board))
            } else {
                None
            }
        },
    }
}

} // verus!

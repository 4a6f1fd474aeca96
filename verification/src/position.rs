//! The game as mathematics: a position is nine cells in row order and the
//! side to move. Every contract of the library is stated over this model.

use vstd::prelude::*;
use crate::player::{CellPlayed, Players};

verus! {

/// How many cells of `cells` hold a mark of `who`.
pub open spec fn marks(cells: Seq<CellPlayed>, who: Players) -> nat
    decreases cells.len(),
{
    if cells.len() == 0 {
        0
    } else {
        marks(cells.drop_last(), who) + if cells.last() == CellPlayed::Yes(who) {
            1nat
        } else {
            0nat
        }
    }
}

/// The eight lines that win: three rows, three columns and two diagonals of
/// a board whose cell `row * 3 + col` lies in row `row` and column `col`.
pub open spec fn winning_lines() -> Seq<(int, int, int)> {
    seq![
        (0int, 1int, 2int),
        (3int, 4int, 5int),
        (6int, 7int, 8int),
        (0int, 3int, 6int),
        (1int, 4int, 7int),
        (2int, 5int, 8int),
        (0int, 4int, 8int),
        (2int, 4int, 6int),
    ]
}

/// A position of the game.
pub struct Position {
    /// The cells, row by row.
    pub cells: Seq<CellPlayed>,
    /// The side to move.
    pub player: Players,
}

impl Position {
    /// The position a game starts from: every cell free, the first player to
    /// move.
    pub open spec fn start() -> Position {
        Position { cells: Seq::new(9, |i: int| CellPlayed::No), player: Players::Player1 }
    }

    /// A position has nine cells, and the marks alternate: the players hold
    /// equally many while the first player is to move, and the first player
    /// holds one more while the second is to move.
    pub open spec fn wf(self) -> bool {
        let first = marks(self.cells, Players::Player1);
        let second = marks(self.cells, Players::Player2);
        &&& self.cells.len() == 9
        &&& self.player == Players::Player1 ==> first == second
        &&& self.player == Players::Player2 ==> first == second + 1
    }

    /// What cell `i` holds; a cell off the board holds nothing.
    pub open spec fn at(self, i: int) -> CellPlayed {
        if 0 <= i < 9 {
            self.cells[i]
        } else {
            CellPlayed::No
        }
    }

    /// Cell `i` is on the board and free, so the side to move may take it.
    pub open spec fn free(self, i: int) -> bool {
        0 <= i < 9 && self.cells[i] == CellPlayed::No
    }

    /// The position after the side to move has marked cell `i`.
    pub open spec fn mark(self, i: int) -> Position {
        Position {
            cells: self.cells.update(i, CellPlayed::Yes(self.player)),
            player: self.player.opponent(),
        }
    }

    /// The position after an attempt on cell `i`: the move is made where the
    /// cell is free, and nothing happens where it is not.
    pub open spec fn attempt(self, i: int) -> Position {
        if self.free(i) {
            self.mark(i)
        } else {
            self
        }
    }

    /// All three cells of winning line `k` hold a mark of `who`.
    pub open spec fn holds_line(self, who: Players, k: int) -> bool {
        let (a, b, c) = winning_lines()[k];
        &&& self.cells[a] == CellPlayed::Yes(who)
        &&& self.cells[b] == CellPlayed::Yes(who)
        &&& self.cells[c] == CellPlayed::Yes(who)
    }

    /// `who` holds one of the eight winning lines.
    pub open spec fn has_line(self, who: Players) -> bool {
        exists|k: int| 0 <= k < 8 && #[trigger] self.holds_line(who, k)
    }

    /// The game is decided: a player holds a winning line.
    pub open spec fn decided(self) -> bool {
        self.has_line(Players::Player1) || self.has_line(Players::Player2)
    }

    /// The winner of a decided game: the side that is not to move, since the
    /// turn passed on with the winning move.
    pub open spec fn winner(self) -> Players {
        self.player.opponent()
    }

    /// No cell is free.
    pub open spec fn full(self) -> bool {
        forall|i: int| !self.free(i)
    }
}

/// An empty row of cells holds no marks.
pub proof fn lemma_marks_of_free_cells(cells: Seq<CellPlayed>, who: Players)
    requires
        forall|i: int| 0 <= i < cells.len() ==> cells[i] == CellPlayed::No,
    ensures
        marks(cells, who) == 0,
    decreases cells.len(),
{
    if cells.len() > 0 {
        lemma_marks_of_free_cells(cells.drop_last(), who);
    }
}

/// Writing `mark` into cell `i` changes the count of `who` by what the cell
/// gains and loses.
pub proof fn lemma_marks_update(cells: Seq<CellPlayed>, i: int, mark: CellPlayed, who: Players)
    requires
        0 <= i < cells.len(),
    ensures
        marks(cells.update(i, mark), who) + (if cells[i] == CellPlayed::Yes(who) {
            1nat
        } else {
            0nat
        }) == marks(cells, who) + (if mark == CellPlayed::Yes(who) {
            1nat
        } else {
            0nat
        }),
    decreases cells.len(),
{
    let after = cells.update(i, mark);
    if i == cells.len() - 1 {
        assert(after.drop_last() =~= cells.drop_last());
    } else {
        assert(after.drop_last() =~= cells.drop_last().update(i, mark));
        lemma_marks_update(cells.drop_last(), i, mark, who);
    }
}

/// The starting position is well formed.
pub proof fn lemma_start_wf()
    ensures
        Position::start().wf(),
{
    lemma_marks_of_free_cells(Position::start().cells, Players::Player1);
    lemma_marks_of_free_cells(Position::start().cells, Players::Player2);
}

/// A move on a free cell keeps the position well formed.
pub proof fn lemma_mark_wf(p: Position, i: int)
    requires
        p.wf(),
        p.free(i),
    ensures
        p.mark(i).wf(),
{
    lemma_marks_update(p.cells, i, CellPlayed::Yes(p.player), Players::Player1);
    lemma_marks_update(p.cells, i, CellPlayed::Yes(p.player), Players::Player2);
}

} // verus!

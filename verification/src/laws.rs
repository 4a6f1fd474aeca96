//! What holds of every game: the turn alternates, marks stay where they
//! are, and the winner is the player who made the last move.

use vstd::prelude::*;
use crate::player::{CellPlayed, Players};
use crate::position::{Position, winning_lines, lemma_start_wf, lemma_mark_wf};
use crate::session::Event;
use crate::victory::GameState;

verus! {

impl Position {
    /// The position after the attempts `moves`, made in order.
    pub open spec fn attempts(self, moves: Seq<int>) -> Position
        decreases moves.len(),
    {
        if moves.len() == 0 {
            self
        } else {
            self.attempts(moves.drop_last()).attempt(moves.last())
        }
    }

    /// How many of the attempts `moves`, made in order, are accepted.
    pub open spec fn accepted(self, moves: Seq<int>) -> nat
        decreases moves.len(),
    {
        if moves.len() == 0 {
            0
        } else {
            self.accepted(moves.drop_last()) + if self.attempts(moves.drop_last()).free(
                moves.last(),
            ) {
                1nat
            } else {
                0nat
            }
        }
    }

    /// The position after the events `events`, in order.
    pub open spec fn run(self, events: Seq<Event>) -> Position
        decreases events.len(),
    {
        if events.len() == 0 {
            self
        } else {
            self.run(events.drop_last()).after(events.last())
        }
    }

    /// The side to move holds no winning line.
    pub open spec fn sound(self) -> bool {
        self.wf() && !self.has_line(self.player)
    }
}

/// Each winning line names three different cells of the board.
pub proof fn lemma_lines_on_board(k: int)
    requires
        0 <= k < 8,
    ensures
        ({
            let (a, b, c) = winning_lines()[k];
            0 <= a < b < c < 9
        }),
{
}

/// A fresh game is undecided and in progress, with every cell free and the
/// first player to move.
pub proof fn lemma_start_is_open()
    ensures
        Position::start().wf(),
        Position::start().player == Players::Player1,
        forall|i: int| 0 <= i < 9 ==> Position::start().free(i),
        !Position::start().decided(),
        Position::start().state() == GameState::InProgress,
{
    lemma_start_wf();
    let p = Position::start();
    assert forall|who: Players, k: int| 0 <= k < 8 implies !#[trigger] p.holds_line(who, k) by {
        lemma_lines_on_board(k);
    }
    assert(p.free(0));
}

/// Over any run of attempts the turn alternates with the accepted moves and
/// stays with the refused ones: it is back with the side that began after an
/// even number of accepted moves, and with the other side after an odd
/// number. The position stays well formed throughout.
pub proof fn lemma_turn_alternates(p: Position, moves: Seq<int>)
    requires
        p.wf(),
    ensures
        p.attempts(moves).wf(),
        p.attempts(moves).player == if p.accepted(moves) % 2 == 0 {
            p.player
        } else {
            p.player.opponent()
        },
    decreases moves.len(),
{
    if moves.len() > 0 {
        lemma_turn_alternates(p, moves.drop_last());
        let before = p.attempts(moves.drop_last());
        if before.free(moves.last()) {
            lemma_mark_wf(before, moves.last());
        }
    }
}

/// A mark, once made, stays: over any run of attempts a taken cell holds
/// what it held.
pub proof fn lemma_marks_stay(p: Position, moves: Seq<int>, i: int)
    requires
        p.wf(),
        0 <= i < 9,
        p.cells[i] != CellPlayed::No,
    ensures
        p.attempts(moves).cells[i] == p.cells[i],
    decreases moves.len(),
{
    if moves.len() > 0 {
        lemma_marks_stay(p, moves.drop_last(), i);
        lemma_turn_alternates(p, moves.drop_last());
    }
}

/// On a full board no attempt is accepted.
pub proof fn lemma_full_board_refuses(p: Position, i: int)
    requires
        p.full(),
    ensures
        p.attempt(i) == p,
{
}

/// The winner is the player who made the last move: after a move the side
/// not to move, which is what the winner is read off as, is the mover. And
/// where the move decided a game that was undecided, the mover holds a line
/// and the other side holds none.
pub proof fn lemma_winner_made_last_move(p: Position, i: int)
    requires
        p.wf(),
        p.free(i),
    ensures
        p.mark(i).winner() == p.player,
        !p.decided() && p.mark(i).decided() ==> p.mark(i).has_line(p.player) && !p.mark(
            i,
        ).has_line(p.player.opponent()),
{
    let q = p.mark(i);
    let other = p.player.opponent();
    if !p.decided() {
        assert forall|k: int| 0 <= k < 8 implies !#[trigger] q.holds_line(other, k) by {
            lemma_lines_on_board(k);
            if q.holds_line(other, k) {
                assert(p.holds_line(other, k));
            }
        }
    }
}

/// An event keeps a position sound.
pub proof fn lemma_after_sound(p: Position, event: Event)
    requires
        p.sound(),
    ensures
        p.after(event).sound(),
{
    match event {
        Event::Restart => {
            lemma_start_is_open();
        },
        Event::Press(Some(cell)) => {
            let i = cell as int;
            if !p.decided() && p.free(i) {
                lemma_mark_wf(p, i);
                lemma_winner_made_last_move(p, i);
            }
        },
        Event::Press(None) => {},
    }
}

/// In every game that events lead to from the start, the position is well
/// formed and the side to move holds no line; so once the game is decided,
/// the winner, read off as the side not to move, is the one player who
/// holds a line.
pub proof fn lemma_winner_holds_the_line(events: Seq<Event>)
    ensures
        Position::start().run(events).sound(),
        Position::start().run(events).decided() ==> Position::start().run(events).has_line(
            Position::start().run(events).winner(),
        ),
    decreases events.len(),
{
    if events.len() == 0 {
        lemma_start_is_open();
    } else {
        lemma_winner_holds_the_line(events.drop_last());
        lemma_after_sound(Position::start().run(events.drop_last()), events.last());
    }
}

} // verus!

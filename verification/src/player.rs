//! The two players, what a cell holds, and the colour a cell is shown in.

use vstd::prelude::*;

verus! {

/// One of the two sides. `Player1` moves first.
#[derive(Debug, Clone, Copy, PartialEq, Eq, Structural)]
pub enum Players {
    Player1,
    Player2,
}

/// The colours a cell can be shown in.
#[derive(Debug, Clone, Copy, PartialEq, Eq, Structural)]
pub enum CellColors {
    Purple,
    Green,
    Blue,
}

/// What a cell holds: the mark of the player who took it, or nothing yet.
#[derive(Debug, Clone, Copy, PartialEq, Eq, Structural)]
pub enum CellPlayed {
    Yes(Players),
    No,
}

impl Players {
    /// The other side.
    pub open spec fn opponent(self) -> Players {
        match self {
            Players::Player1 => Players::Player2,
            Players::Player2 => Players::Player1,
        }
    }

    /// The colour of this player's marks.
    pub open spec fn color_spec(self) -> CellColors {
        match self {
            Players::Player1 => CellColors::Blue,
            Players::Player2 => CellColors::Green,
        }
    }

    /// The side that moves after this one.
    pub fn other(&self) -> (r: Players)
        ensures
            r == self.opponent(),
    {
        match self {
            Players::Player1 => Players::Player2,
            Players::Player2 => Players::Player1,
        }
    }

    /// The colour of this player's marks: blue for the first player, green
    /// for the second.
    pub fn color(&self) -> (r: CellColors)
        ensures
            r == self.color_spec(),
    {
        match self {
            Players::Player1 => CellColors::Blue,
            Players::Player2 => CellColors::Green,
        }
    }
}

impl CellPlayed {
    /// The colour a cell with this content is shown in.
    pub open spec fn color_spec(self) -> CellColors {
        match self {
            CellPlayed::Yes(p) => p.color_spec(),
            CellPlayed::No => CellColors::Purple,
        }
    }

    /// The colour a cell with this content is shown in: the owner's colour,
    /// or purple while the cell is free. The colour is computed from the
    /// mark whenever it is wanted and is stored nowhere.
    pub fn color(&self) -> (r: CellColors)
        ensures
            r == self.color_spec(),
    {
        match self {
            CellPlayed::Yes(p) => p.color(),
            CellPlayed::No => CellColors::Purple,
        }
    }
}

} // verus!

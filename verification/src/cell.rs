//! A single cell of the board and the rule by which it lives or dies.

use vstd::prelude::*;

verus! {

/// Whether a cell is populated.
#[derive(Clone, Copy, Debug, PartialEq, Eq, Structural)]
pub enum CellState {
    Dead,
    Alive,
}

/// One position of the board. A cell carries nothing but its state; which
/// cell it is follows from where it stands.
#[derive(Clone, Copy, Debug, PartialEq, Eq, Structural)]
pub struct Cell {
    pub cell_state: CellState,
}

/// Tile shown for a dead cell.
pub const DEAD_TEXTURE_INDEX: u32 = 4;

/// Tile shown for a live cell.
pub const ALIVE_TEXTURE_INDEX: u32 = 5;

/// The rule of the game: a live cell survives with two or three live
/// neighbours, a dead cell comes to life with exactly three.
pub open spec fn next_state(current: CellState, alive_neighbours: int) -> CellState {
    match current {
        CellState::Alive => if alive_neighbours == 2 || alive_neighbours == 3 {
            CellState::Alive
        } else {
            CellState::Dead
        },
        CellState::Dead => if alive_neighbours == 3 {
            CellState::Alive
        } else {
            CellState::Dead
        },
    }
}

impl CellState {
    /// `1` for a live cell and `0` for a dead one: what the cell adds to the
    /// neighbour count of each cell around it.
    pub open spec fn population(self) -> int {
        match self {
            CellState::Alive => 1,
            CellState::Dead => 0,
        }
    }

    /// The state of a cell that is alive or not, as `alive` says.
    pub fn from_alive(alive: bool) -> (state: CellState)
        ensures
            state == (if alive {
                CellState::Alive
            } else {
                CellState::Dead
            }),
    {
        if alive {
            CellState::Alive
        } else {
            CellState::Dead
        }
    }

    pub fn is_alive(&self) -> (alive: bool)
        ensures
            alive == (*self == CellState::Alive),
    {
        match self {
            CellState::Alive => true,
            CellState::Dead => false,
        }
    }

    /// The state that a cell in state `self` takes in the next generation
    /// when `alive_neighbours` of the cells around it are alive.
    pub fn evolve(&self, alive_neighbours: u8) -> (next: CellState)
        ensures
            next == next_state(*self, alive_neighbours as int),
    {
        match self {
            CellState::Alive => {
                if alive_neighbours == 2 || alive_neighbours == 3 {
                    CellState::Alive
                } else {
                    CellState::Dead
                }
            },
            CellState::Dead => {
                if alive_neighbours == 3 {
                    CellState::Alive
                } else {
                    CellState::Dead
                }
            },
        }
    }

    /// The index of the tile that displays this state.
    pub fn texture_index(&self) -> (index: u32)
        ensures
            index == (if *self == CellState::Alive {
                ALIVE_TEXTURE_INDEX
            } else {
                DEAD_TEXTURE_INDEX
            }),
    {
        match self {
            CellState::Alive => ALIVE_TEXTURE_INDEX,
            CellState::Dead => DEAD_TEXTURE_INDEX,
        }
    }
}

impl Default for CellState {
    fn default() -> (state: CellState)
        ensures
            state == CellState::Dead,
    {
        CellState::Dead
    }
}

impl Default for Cell {
    fn default() -> (cell: Cell)
        ensures
            cell.cell_state == CellState::Dead,
    {
        Cell { cell_state: CellState::Dead }
    }
}

} // verus!

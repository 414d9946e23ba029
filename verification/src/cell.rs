use core::ops::Not;
use vstd::prelude::*;

verus! {

/// One cell of a universe.
#[derive(Debug, Clone, Copy, PartialEq, Eq, Structural)]
pub enum UniverseCell {
    Dead,
    Alive,
}

impl UniverseCell {
    /// The other of the two values.
    pub open spec fn opposite(self) -> UniverseCell {
        match self {
            UniverseCell::Alive => UniverseCell::Dead,
            UniverseCell::Dead => UniverseCell::Alive,
        }
    }

    /// The value of this cell one generation later, when `neighbours` of the
    /// cells that touch it are alive: a live cell survives with two or three, a
    /// dead one comes to life with exactly three.
    pub open spec fn successor(self, neighbours: int) -> UniverseCell {
        if neighbours == 3 || (neighbours == 2 && self is Alive) {
            UniverseCell::Alive
        } else {
            UniverseCell::Dead
        }
    }

    pub fn is_alive(&self) -> (alive: bool)
        ensures
            alive == (*self is Alive),
    {
        match self {
            UniverseCell::Alive => true,
            UniverseCell::Dead => false,
        }
    }

    /// Applies the rule of life to this cell.
    pub fn evolve(&self, neighbours: u8) -> (next: UniverseCell)
        ensures
            next == self.successor(neighbours as int),
    {
        match self {
            UniverseCell::Alive if neighbours == 2 || neighbours == 3 => UniverseCell::Alive,
            UniverseCell::Dead if neighbours == 3 => UniverseCell::Alive,
            _ => UniverseCell::Dead,
        }
    }
}

impl Not for UniverseCell {
    type Output = UniverseCell;

    fn not(self) -> (inverted: UniverseCell) {
        match self {
            UniverseCell::Alive => UniverseCell::Dead,
            UniverseCell::Dead => UniverseCell::Alive,
        }
    }
}

impl vstd::std_specs::ops::NotSpecImpl for UniverseCell {
    open spec fn obeys_not_spec() -> bool {
        true
    }

    open spec fn not_req(self) -> bool {
        true
    }

    open spec fn not_spec(self) -> UniverseCell {
        self.opposite()
    }
}

} // verus!

use vstd::prelude::*;

verus! {

/// The state of one grid cell.
#[derive(Clone, Copy, Debug, PartialEq, Eq, Structural)]
pub enum Cell {
    Dead,
    Alive,
}

impl Cell {
    /// The cell's contribution to a live count: `Dead` is 0, `Alive` is 1.
    pub open spec fn spec_value(self) -> nat {
        match self {
            Cell::Dead => 0,
            Cell::Alive => 1,
        }
    }

    /// The cell as a small integer: `Dead` is 0, `Alive` is 1.
    pub fn value(self) -> (r: u8)
        ensures
            r as nat == self.spec_value(),
    {
        match self {
            Cell::Dead => 0,
            Cell::Alive => 1,
        }
    }
}

} // verus!

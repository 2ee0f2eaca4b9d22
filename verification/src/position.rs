//! Direction of a position or order.

use vstd::prelude::*;

verus! {

/// Which side of the market an order or position is on.
#[derive(Clone, Copy, Debug, PartialEq, Eq, Structural)]
pub enum PositionDirection {
    Long,
    Short,
}

impl PositionDirection {
    /// The other side of the market.
    pub fn opposite(&self) -> (r: Self)
        ensures
            r == self.spec_opposite(),
    {
        match self {
            PositionDirection::Long => PositionDirection::Short,
            PositionDirection::Short => PositionDirection::Long,
        }
    }

    /// The other side of the market.
    pub open spec fn spec_opposite(self) -> Self {
        match self {
            PositionDirection::Long => PositionDirection::Short,
            PositionDirection::Short => PositionDirection::Long,
        }
    }
}

impl Default for PositionDirection {
    fn default() -> (r: Self)
        ensures
            r == PositionDirection::Long,
    {
        PositionDirection::Long
    }
}

} // verus!

//! Margin requirement kinds for the clearing-house risk engine.

use vstd::prelude::*;

verus! {

/// Which margin requirement is being computed. `Initial` gates opening a
/// position, `Partial` gates partial liquidation, `Maintenance` gates
/// full liquidation.
#[derive(Clone, Copy, Debug, PartialEq, Eq, Structural)]
pub enum MarginRequirementType {
    Initial,
    Partial,
    Maintenance,
}

} // verus!

use vstd::prelude::*;

verus! {

/// Target temperatures, in whole degrees.
#[derive(Default, Debug, Clone, Copy, PartialEq, Eq, Structural)]
pub struct Targets {
    pub tool0: i64,
}

/// A command for the print head's tool.
#[derive(Debug, Clone, Copy, PartialEq, Eq, Structural)]
pub enum Tool {
    /// Sets the target temperatures.
    Target { targets: Targets },
    /// Moves filament through the hot end: `amount` in mm (positive feeds,
    /// negative retracts), `speed` in mm/min.
    Extrude { amount: i64, speed: Option<i64> },
}

} // verus!

//! Electrical levels of the digital lines the two nodes are wired to.

use vstd::prelude::*;

verus! {

/// The level of a digital line.
///
/// The button input is pulled up, so `Low` means "pressed"; the indicator
/// outputs are driven active-low, so `Low` means "lit".
#[derive(Clone, Copy, Debug, PartialEq, Eq, Structural)]
pub enum Level {
    Low,
    High,
}

impl Level {
    /// Whether the line is at its low level.
    pub open spec fn spec_is_low(self) -> bool {
        self is Low
    }

    /// Whether the line is at its low level.
    #[verifier::when_used_as_spec(spec_is_low)]
    pub fn is_low(self) -> (low: bool)
        ensures
            low == self.spec_is_low(),
    {
        match self {
            Level::Low => true,
            Level::High => false,
        }
    }

    /// The level that a reading of "is the line low?" stands for.
    pub fn from_low(low: bool) -> (level: Level)
        ensures
            level.spec_is_low() == low,
    {
        if low {
            Level::Low
        } else {
            Level::High
        }
    }
}

} // verus!

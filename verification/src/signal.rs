//! Signals between the core and the firmware: the levels
//! that lines are driven to, and what came of an action.

use vstd::prelude::*;

verus! {

/// The level of a digital line.
#[derive(Clone, Copy, Debug, PartialEq, Eq, Structural)]
pub enum Level {
    Low,
    High,
}

/// What came of an action that the firmware performed.
#[derive(Clone, Copy, Debug, PartialEq, Eq, Structural)]
pub enum Outcome {
    Done,
    Failed,
}

} // verus!

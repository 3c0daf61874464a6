use vstd::prelude::*;

verus! {

/// How long a unit stays on the ice before it is changed.
#[derive(PartialEq, Eq, Structural, Clone, Copy, Debug)]
pub enum IceTimePriority {
    SuperLowPriority,
    LowPriority,
    Normal,
    HighPriority,
    SuperHighPriority,
}

/// How a unit plays.
#[derive(PartialEq, Eq, Structural, Clone, Copy, Debug)]
pub enum Tactics {
    Safe,
    Defensive,
    Neutral,
    Offensive,
    Aggressive,
}

} // verus!

use vstd::prelude::*;

verus! {

/// The two goalies of a team.
#[derive(PartialEq, Eq, Structural, Clone, Copy, Debug)]
pub enum GoalieNumber {
    MainGoalkeeper,
    SubstituteGoalkeeper,
}

/// The units of a team: four even-strength lines, two power-play units and two
/// penalty-kill units.
#[derive(PartialEq, Eq, Structural, Clone, Copy, Debug)]
pub enum FiveNumber {
    First,
    Second,
    Third,
    Fourth,
    PowerPlay1,
    PowerPlay2,
    PenaltyKill1,
    PenaltyKill2,
}

impl FiveNumber {
    pub open spec fn is_penalty_kill(self) -> bool {
        self == FiveNumber::PenaltyKill1 || self == FiveNumber::PenaltyKill2
    }

    pub open spec fn is_power_play(self) -> bool {
        self == FiveNumber::PowerPlay1 || self == FiveNumber::PowerPlay2
    }

    pub open spec fn is_line(self) -> bool {
        !self.is_penalty_kill() && !self.is_power_play()
    }

    /// Whether the unit is a penalty kill.
    pub fn is_penalty_kill_unit(&self) -> (b: bool)
        ensures
            b == self.is_penalty_kill(),
    {
        *self == FiveNumber::PenaltyKill1 || *self == FiveNumber::PenaltyKill2
    }

    /// Whether the unit is a power play.
    pub fn is_power_play_unit(&self) -> (b: bool)
        ensures
            b == self.is_power_play(),
    {
        *self == FiveNumber::PowerPlay1 || *self == FiveNumber::PowerPlay2
    }
}

} // verus!

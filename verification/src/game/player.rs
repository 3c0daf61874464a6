use vstd::prelude::*;

verus! {

/// The kind of a card.
#[derive(PartialEq, Eq, Structural, Clone, Copy, Debug)]
pub enum PlayerType {
    FieldPlayer,
    Goalie,
}

/// The hand a player shoots with.
#[derive(PartialEq, Eq, Structural, Clone, Copy, Debug)]
pub enum Hand {
    Left,
    Right,
}

/// Where a player stands on the ice; `AdditionalPosition` is the sixth skater who
/// replaces a pulled goalie.
#[derive(PartialEq, Eq, Structural, Clone, Copy, Debug)]
pub enum PlayerPosition {
    Center,
    LeftWing,
    RightWing,
    LeftDefender,
    RightDefender,
    AdditionalPosition,
    GoaliePos,
}

/// The skaters who may replace a pulled goalie.
#[derive(PartialEq, Eq, Structural, Clone, Copy, Debug)]
pub enum GoalieSubstitution {
    GoalieSubstitution1,
    GoalieSubstitution2,
}

/// The style of a player.
#[derive(PartialEq, Eq, Structural, Clone, Copy, Debug)]
pub enum PlayerRole {
    // Forward
    Playmaker,
    Enforcer,
    Shooter,
    TryHarder,
    DefensiveForward,
    Grinder,
    // Defenseman
    DefensiveDefenseman,
    OffensiveDefenseman,
    TwoWay,
    ToughGuy,
    // goalie
    Standup,
    Butterfly,
    Hybrid,
}

impl PlayerRole {
    /// The roles that only a goalie has.
    pub open spec fn is_goalie_role(self) -> bool {
        self == PlayerRole::Standup || self == PlayerRole::Butterfly || self == PlayerRole::Hybrid
    }
}

impl PlayerPosition {
    /// The five regular skater positions.
    pub open spec fn is_regular_skater(self) -> bool {
        self != PlayerPosition::AdditionalPosition && self != PlayerPosition::GoaliePos
    }

    /// The text under which the position is shown: 5 for the center down to 1 for the
    /// right defender, 0 for the goalie, -1 for the extra skater.
    pub open spec fn spec_code(self) -> Seq<char> {
        match self {
            PlayerPosition::Center => seq!['5'],
            PlayerPosition::LeftWing => seq!['4'],
            PlayerPosition::RightWing => seq!['3'],
            PlayerPosition::LeftDefender => seq!['2'],
            PlayerPosition::RightDefender => seq!['1'],
            PlayerPosition::GoaliePos => seq!['0'],
            PlayerPosition::AdditionalPosition => seq!['-', '1'],
        }
    }

    /// The text under which the position is shown.
    pub fn to_code(&self) -> (s: &'static str)
        ensures
            s@ == self.spec_code(),
    {
        match self {
            PlayerPosition::Center => {
                proof { reveal_strlit("5"); }
                "5"
            },
            PlayerPosition::LeftWing => {
                proof { reveal_strlit("4"); }
                "4"
            },
            PlayerPosition::RightWing => {
                proof { reveal_strlit("3"); }
                "3"
            },
            PlayerPosition::LeftDefender => {
                proof { reveal_strlit("2"); }
                "2"
            },
            PlayerPosition::RightDefender => {
                proof { reveal_strlit("1"); }
                "1"
            },
            PlayerPosition::GoaliePos => {
                proof { reveal_strlit("0"); }
                "0"
            },
            PlayerPosition::AdditionalPosition => {
                proof { reveal_strlit("-1"); }
                "-1"
            },
        }
    }
}

} // verus!

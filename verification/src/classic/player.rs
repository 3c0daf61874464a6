use vstd::prelude::*;

verus! {

/// Where a player stands on the ice.
#[derive(PartialEq, Eq, Structural, Clone, Copy, Debug)]
pub enum PlayerPosition {
    Center,
    LeftWing,
    RightWing,
    LeftDefender,
    RightDefender,
    GoaliePos,
}

/// The style of a player.
#[derive(PartialEq, Eq, Structural, Clone, Copy, Debug)]
pub enum PlayerRole {
    // Winger
    Passer,
    Shooter,
    TryHarder,
    Dangler,
    // Defender
    Rock,
    Goon,
    Professor,
    ToughGuy,
    // goalie
    Wall,
    Post2Post,
}

impl PlayerRole {
    /// The roles that only a goalie has.
    pub open spec fn is_goalie_role(self) -> bool {
        self == PlayerRole::Wall || self == PlayerRole::Post2Post
    }
}

/// What every player, field player or goalie, tells about itself.
pub trait Player {
    fn get_user_id(&self) -> usize;
    fn get_role(&self) -> PlayerRole;
}

} // verus!

use vstd::prelude::*;
use crate::classic::player::{Player, PlayerPosition, PlayerRole};

verus! {

/// The five ratings of a goalie.
pub struct GoalieStats {
    glove_and_blocker: u128,
    pads: u128,
    stand: u128,
    stretch: u128,
    morale: u128,
}

impl GoalieStats {
    pub closed spec fn spec_glove_and_blocker(&self) -> u128 { self.glove_and_blocker }
    pub closed spec fn spec_pads(&self) -> u128 { self.pads }
    pub closed spec fn spec_stand(&self) -> u128 { self.stand }
    pub closed spec fn spec_stretch(&self) -> u128 { self.stretch }
    pub closed spec fn spec_morale(&self) -> u128 { self.morale }

    pub fn new(glove_and_blocker: u128, pads: u128, stand: u128, stretch: u128, morale: u128) -> (s: GoalieStats)
        ensures
            s.spec_glove_and_blocker() == glove_and_blocker,
            s.spec_pads() == pads,
            s.spec_stand() == stand,
            s.spec_stretch() == stretch,
            s.spec_morale() == morale,
    {
        GoalieStats { glove_and_blocker, pads, stand, stretch, morale }
    }

    pub fn get_glove_and_blocker(&self) -> (r: u128)
        ensures r == self.spec_glove_and_blocker(),
    {
        self.glove_and_blocker
    }

    pub fn get_pads(&self) -> (r: u128)
        ensures r == self.spec_pads(),
    {
        self.pads
    }

    pub fn get_stand(&self) -> (r: u128)
        ensures r == self.spec_stand(),
    {
        self.stand
    }

    pub fn get_stretch(&self) -> (r: u128)
        ensures r == self.spec_stretch(),
    {
        self.stretch
    }

    pub fn get_morale(&self) -> (r: u128)
        ensures r == self.spec_morale(),
    {
        self.morale
    }
}

/// A goalie of one of the two users of a match.
pub struct Goalie {
    pub holds_puck: bool,
    pub position: PlayerPosition,
    pub role: PlayerRole,
    pub user_id: usize,
    pub stats: GoalieStats,
}

impl Goalie {
    pub fn new(holds_puck: bool, position: PlayerPosition, role: PlayerRole, user_id: usize, stats: GoalieStats) -> (g: Goalie)
        ensures
            g.holds_puck == holds_puck,
            g.position == position,
            g.role == role,
            g.user_id == user_id,
            g.stats == stats,
    {
        Goalie { holds_puck, position, role, user_id, stats }
    }

    pub fn get_position(&self) -> (p: PlayerPosition)
        ensures p == self.position,
    {
        self.position
    }

    pub fn get_holds_puck(&self) -> (b: bool)
        ensures b == self.holds_puck,
    {
        self.holds_puck
    }
}

impl Player for Goalie {
    fn get_user_id(&self) -> (id: usize)
        ensures id == self.user_id,
    {
        self.user_id
    }

    fn get_role(&self) -> (r: PlayerRole)
        ensures r == self.role,
    {
        self.role
    }
}

} // verus!

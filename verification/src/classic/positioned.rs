use vstd::prelude::*;
use crate::classic::player::{PlayerPosition, PlayerRole};

verus! {

/// Basis points of a player at his own position.
pub const NATIVE_POSITION: u32 = 10000;
/// Basis points of a winger or a defender on the other side of his own line.
pub const OTHER_EDGE: u32 = 9500;
/// Basis points of a player away from his line.
pub const ANOTHER_POSITION: u32 = 8000;
/// Basis points of a center playing elsewhere.
pub const CENTER: u32 = 7500;

/// The five ratings of a player of the engine where players keep a native position;
/// strength is in thousandths, as it wears down by fractions.
#[derive(Clone, Copy)]
pub struct PositionedStats {
    pub skating: u128,
    pub shooting: u128,
    pub strength_milli: u128,
    pub iq: u128,
    pub morale: u128,
}

/// A field player with his own position, the position he plays, and how well he plays
/// there, in basis points.
#[derive(Clone, Copy)]
pub struct PositionedPlayer {
    pub native_position: PlayerPosition,
    pub position: PlayerPosition,
    pub position_coefficient: u32,
    pub role: PlayerRole,
    pub user_id: usize,
    pub stats: PositionedStats,
}

/// How well a player whose own position is `native` plays at `position`, in basis points:
/// fully at his own position; a center elsewhere, and anyone at center or away from his
/// line, at 80% (a center on a wing or on defense at 75%); a winger or defender on the
/// other side of his line at 95%.
pub open spec fn spec_coefficient(position: PlayerPosition, native: PlayerPosition) -> u32 {
    if position == native {
        NATIVE_POSITION
    } else if position == PlayerPosition::Center {
        ANOTHER_POSITION
    } else if native == PlayerPosition::Center {
        CENTER
    } else if (position == PlayerPosition::RightWing && native == PlayerPosition::LeftWing)
        || (position == PlayerPosition::LeftWing && native == PlayerPosition::RightWing)
        || (position == PlayerPosition::RightDefender && native == PlayerPosition::LeftDefender)
        || (position == PlayerPosition::LeftDefender && native == PlayerPosition::RightDefender) {
        OTHER_EDGE
    } else {
        ANOTHER_POSITION
    }
}

impl PositionedStats {
    pub fn new(skating: u128, shooting: u128, strength_milli: u128, iq: u128, morale: u128) -> (s: PositionedStats)
        ensures
            s == (PositionedStats { skating, shooting, strength_milli, iq, morale }),
    {
        PositionedStats { skating, shooting, strength_milli, iq, morale }
    }
}

impl PositionedPlayer {
    pub fn new(
        native_position: PlayerPosition,
        position: PlayerPosition,
        position_coefficient: u32,
        role: PlayerRole,
        user_id: usize,
        stats: PositionedStats,
    ) -> (p: PositionedPlayer)
        ensures
            p == (PositionedPlayer { native_position, position, position_coefficient, role, user_id, stats }),
    {
        PositionedPlayer { native_position, position, position_coefficient, role, user_id, stats }
    }

    pub fn get_player_position(&self) -> (p: PlayerPosition)
        ensures
            p == self.position,
    {
        self.position
    }

    pub fn get_role(&self) -> (r: PlayerRole)
        ensures
            r == self.role,
    {
        self.role
    }

    pub fn get_user_id(&self) -> (r: usize)
        ensures
            r == self.user_id,
    {
        self.user_id
    }

    /// Sets how well the player plays at his position (see `spec_coefficient`); neither
    /// position may be the goalie's.
    pub fn set_position_coefficient(&mut self)
        requires
            old(self).position != PlayerPosition::GoaliePos,
            old(self).native_position != PlayerPosition::GoaliePos,
        ensures
            *final(self) == (PositionedPlayer {
                position_coefficient: spec_coefficient(old(self).position, old(self).native_position),
                ..*old(self)
            }),
    {
        let native_pos = NATIVE_POSITION;
        let other_edge = OTHER_EDGE;
        let another_pos = ANOTHER_POSITION;
        let center = CENTER;
        self.position_coefficient = match self.position {
            PlayerPosition::Center => match self.native_position {
                PlayerPosition::Center => native_pos,
                _ => another_pos,
            },
            PlayerPosition::RightWing => match self.native_position {
                PlayerPosition::Center => center,
                PlayerPosition::RightWing => native_pos,
                PlayerPosition::LeftWing => other_edge,
                _ => another_pos,
            },
            PlayerPosition::LeftWing => match self.native_position {
                PlayerPosition::Center => center,
                PlayerPosition::RightWing => other_edge,
                PlayerPosition::LeftWing => native_pos,
                _ => another_pos,
            },
            PlayerPosition::RightDefender => match self.native_position {
                PlayerPosition::Center => center,
                PlayerPosition::LeftDefender => other_edge,
                PlayerPosition::RightDefender => native_pos,
                _ => another_pos,
            },
            _ => match self.native_position {
                PlayerPosition::Center => center,
                PlayerPosition::LeftDefender => native_pos,
                PlayerPosition::RightDefender => other_edge,
                _ => another_pos,
            },
        };
    }
}

} // verus!

use vstd::prelude::*;
use crate::game::player::{Hand, PlayerPosition, PlayerRole};
use crate::game::stats::FieldPlayerStats;

verus! {

/// A skater taking part in a match. The teamwork factor is held in basis points
/// (10000 stands for 1.0).
pub struct FieldPlayer {
    pub id: Option<String>,
    pub img: Option<String>,
    pub name: Option<String>,
    pub teamwork: Option<u32>,
    pub reality: bool,
    pub nationality: String,
    pub birthday: u64,
    pub player_type: String,
    pub number: u8,
    pub hand: Hand,
    pub player_role: PlayerRole,
    pub native_position: PlayerPosition,
    pub stats: FieldPlayerStats,
    pub user_id: Option<usize>,
    pub number_of_penalty_events: Option<u8>,
}

/// Basis points of a player at his own position.
pub const NATIVE_POSITION_COEFFICIENT: u32 = 10000;
/// Basis points of a winger or a defender on the other side of his own line.
pub const OTHER_EDGE_COEFFICIENT: u32 = 9500;
/// Basis points of a player away from his line.
pub const ANOTHER_POSITION_COEFFICIENT: u32 = 8000;
/// Basis points of a center playing elsewhere.
pub const CENTER_COEFFICIENT: u32 = 7500;

/// How well a player whose own position is `native` plays at `position`, in basis points.
pub open spec fn spec_position_coefficient(position: PlayerPosition, native: PlayerPosition) -> u32 {
    if position == native {
        NATIVE_POSITION_COEFFICIENT
    } else if position == PlayerPosition::Center {
        ANOTHER_POSITION_COEFFICIENT
    } else if native == PlayerPosition::Center {
        CENTER_COEFFICIENT
    } else if (position == PlayerPosition::RightWing && native == PlayerPosition::LeftWing)
        || (position == PlayerPosition::LeftWing && native == PlayerPosition::RightWing)
        || (position == PlayerPosition::RightDefender && native == PlayerPosition::LeftDefender)
        || (position == PlayerPosition::LeftDefender && native == PlayerPosition::RightDefender) {
        OTHER_EDGE_COEFFICIENT
    } else {
        ANOTHER_POSITION_COEFFICIENT
    }
}

impl FieldPlayer {
    pub fn get_role(&self) -> (r: PlayerRole)
        ensures
            r == self.player_role,
    {
        self.player_role
    }

    /// The user (1 or 2) the player plays for; set once the player joins a match.
    pub fn get_user_id(&self) -> (r: usize)
        requires
            self.user_id is Some,
        ensures
            r == self.user_id->0,
    {
        self.user_id.unwrap()
    }

    /// The token of the player's card; set once the player joins a match.
    pub fn get_player_id(&self) -> (r: String)
        requires
            self.id is Some,
        ensures
            r == self.id->0,
            r@ == self.id->0@,
    {
        match &self.id {
            Some(id) => id.clone(),
            None => String::new(),
        }
    }

    /// How well the player plays at `position`, in basis points.
    pub fn get_position_coefficient(&self, position: &PlayerPosition) -> (r: u32)
        requires
            position.is_regular_skater(),
            self.native_position.is_regular_skater(),
        ensures
            r == spec_position_coefficient(*position, self.native_position),
    {
        let native_pos = NATIVE_POSITION_COEFFICIENT;
        let other_edge = OTHER_EDGE_COEFFICIENT;
        let another_pos = ANOTHER_POSITION_COEFFICIENT;
        let center = CENTER_COEFFICIENT;
        match position {
            PlayerPosition::Center => match self.native_position {
                PlayerPosition::Center => native_pos,
                _ => another_pos,
            },
            PlayerPosition::RightWing => match self.native_position {
                PlayerPosition::Center => center,
                PlayerPosition::RightWing => native_pos,
                PlayerPosition::LeftWing => other_edge,
                _ => another_pos,
            },
            PlayerPosition::LeftWing => match self.native_position {
                PlayerPosition::Center => center,
                PlayerPosition::RightWing => other_edge,
                PlayerPosition::LeftWing => native_pos,
                _ => another_pos,
            },
            PlayerPosition::RightDefender => match self.native_position {
                PlayerPosition::Center => center,
                PlayerPosition::LeftDefender => other_edge,
                PlayerPosition::RightDefender => native_pos,
                _ => another_pos,
            },
            _ => match self.native_position {
                PlayerPosition::Center => center,
                PlayerPosition::LeftDefender => native_pos,
                PlayerPosition::RightDefender => other_edge,
                _ => another_pos,
            },
        }
    }
}

} // verus!

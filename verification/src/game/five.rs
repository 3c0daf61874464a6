use vstd::prelude::*;
use crate::game::lineup::Lineup;
use crate::game::numbers::FiveNumber;
use crate::game::player::PlayerPosition;
use crate::game::tactics::{IceTimePriority, Tactics};

verus! {

/// A unit as the owner set it up: who plays where, how long it stays on the ice and how
/// it plays.
pub struct FiveIds {
    pub field_players: Lineup,
    pub number: FiveNumber,
    pub ice_time_priority: IceTimePriority,
    pub tactic: Tactics,
    pub time_field: Option<u8>,
}

impl FiveIds {
    /// The number of positions of the unit that hold the empty token id.
    pub fn get_number_of_players(&self) -> (n: usize)
        ensures
            n == self.field_players.spec_blank_count(),
    {
        self.field_players.count_blank()
    }
}

/// The unit on the ice: a copy of one of the team's units, possibly changed by penalties
/// and a pulled goalie. `replaced_position` lists the positions already taken over from
/// the unit `current_number`.
pub struct ActiveFive {
    pub current_number: FiveNumber,
    pub replaced_position: Vec<PlayerPosition>,
    pub field_players: Lineup,
    pub is_goalie_out: bool,
    pub ice_time_priority: IceTimePriority,
    pub tactic: Tactics,
    pub time_field: Option<u8>,
}

impl ActiveFive {
    /// The number of players on the ice (positions holding a token id that is not empty).
    pub fn get_number_of_players(&self) -> (n: usize)
        ensures
            n == self.field_players.spec_filled_count(),
    {
        self.field_players.count_filled()
    }

    /// The unit the players on the ice come from.
    pub fn get_current_five_number(&self) -> (n: FiveNumber)
        ensures
            n == self.current_number,
    {
        self.current_number
    }
}

} // verus!

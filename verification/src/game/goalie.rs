use vstd::prelude::*;
use crate::game::player::{Hand, PlayerRole, PlayerType};
use crate::game::stats::GoalieStats;

verus! {

/// A goalie taking part in a match.
pub struct Goalie {
    pub id: Option<String>,
    pub img: Option<String>,
    pub name: Option<String>,
    pub user_id: Option<usize>,
    pub reality: bool,
    pub nationality: String,
    pub birthday: u64,
    pub player_type: PlayerType,
    pub number: u8,
    pub hand: Hand,
    pub player_role: PlayerRole,
    pub stats: GoalieStats,
}

/// The weight, in percent, that a goalie's style gives his reflexes against a shot that
/// follows a pass (`pass_before_shot`) or not.
pub open spec fn spec_pass_coefficient(role: PlayerRole, pass_before_shot: bool) -> u64 {
    if role == PlayerRole::Hybrid {
        100
    } else if (role == PlayerRole::Butterfly) == pass_before_shot {
        120
    } else {
        80
    }
}

impl Goalie {
    /// The goalie's average reflex rating, in thousandths, weighted by his style: a
    /// butterfly goalie is better after a pass, a stand-up goalie against a direct shot.
    pub fn get_reflexes_rel_pass(&self, pass_before_shot: bool) -> (r: u64)
        requires
            self.player_role.is_goalie_role(),
        ensures
            r == self.stats.spec_reflexes() * 1000 / 7 * spec_pass_coefficient(self.player_role, pass_before_shot) / 100,
            r <= 400_000,
    {
        let reflexes: u64 = self.stats.get_reflexes() as u64 * 1000 / 7;
        let pass_coeff: u64 = if pass_before_shot {
            match self.player_role {
                PlayerRole::Butterfly => 120,
                PlayerRole::Hybrid => 100,
                _ => 80,
            }
        } else {
            match self.player_role {
                PlayerRole::Butterfly => 80,
                PlayerRole::Hybrid => 100,
                _ => 120,
            }
        };
        assert(reflexes <= 255 * 7 * 1000 / 7);
        reflexes * pass_coeff / 100
    }
}

} // verus!

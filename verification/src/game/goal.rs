use vstd::prelude::*;
use crate::game::action::{ActionData, ActionTypes};
use crate::game::brigades::{spec_units_complete, spec_lines_known, spec_brigades_released};
use crate::game::engine::{Game, USER_ID1};
use crate::game::field_player::FieldPlayer;
use crate::game::five::ActiveFive;
use crate::game::goalie::Goalie;
use crate::game::morale::spec_with_morale;
use crate::game::numbers::{FiveNumber, GoalieNumber};
use crate::game::penalties::lemma_complete_has;
use crate::game::player::PlayerPosition;
use crate::game::stats::GoalieStats;
use crate::game::team::{Goalies, Team, lemma_first_player_unique, spec_has_player};

verus! {

/// How many positions of the unit on the ice hold the player `p`.
pub open spec fn spec_on_ice_count(t: Team, p: FieldPlayer) -> int {
    match p.id {
        Some(id) => t.active_five.field_players.spec_count_id(id@),
        None => 0,
    }
}

/// Whether every token id on the ice is a player of the team.
pub open spec fn spec_on_ice_known(t: Team) -> bool {
    forall|pos: PlayerPosition| (#[trigger] t.active_five.field_players.slot(pos) matches Some(x)
        ==> spec_has_player(t.field_players@, x@))
}

/// Whether the morale of the players on the ice and of the goalie in net can change by
/// `delta` (per position held, for the skaters) and stay in 0..=255.
pub open spec fn spec_goal_morale_fits(t: Team, delta: int) -> bool {
    &&& spec_on_ice_known(t)
    &&& forall|i: int| 0 <= i < t.field_players.len() ==>
        0 <= (#[trigger] t.field_players@[i]).stats.morale + delta * spec_on_ice_count(t, t.field_players@[i]) <= 255
    &&& t.goalies.slot(t.active_goalie) matches Some(g) && 0 <= g.stats.morale + delta <= 255
}

/// The goalie with his morale changed by `delta`.
pub open spec fn spec_goalie_with_morale(g: Goalie, delta: int) -> Goalie {
    Goalie { stats: GoalieStats { morale: (g.stats.morale + delta) as u8, ..g.stats }, ..g }
}

/// `after` is the team `before` with the morale of its players on the ice changed by
/// `delta` for every position they hold, and that of the goalie in net by `delta`.
pub open spec fn spec_goal_morale(before: Team, after: Team, delta: int) -> bool {
    &&& after.field_players.len() == before.field_players.len()
    &&& forall|i: int| 0 <= i < before.field_players.len() ==> #[trigger] after.field_players@[i]
        == spec_with_morale(before.field_players@[i], before.field_players@[i].stats.morale
            + delta * spec_on_ice_count(before, before.field_players@[i]))
    &&& after.goalies.slot(before.active_goalie) == Some(spec_goalie_with_morale(before.goalies.slot(before.active_goalie)->0, delta))
    &&& before.active_goalie == GoalieNumber::MainGoalkeeper ==> after.goalies.substitute_goalkeeper == before.goalies.substitute_goalkeeper
    &&& before.active_goalie == GoalieNumber::SubstituteGoalkeeper ==> after.goalies.main_goalkeeper == before.goalies.main_goalkeeper
    &&& after == (Team { field_players: after.field_players, goalies: after.goalies, ..before })
}

/// `after` is the team `before` once players come back on the ice after a penalty: with
/// a penalty-kill unit of three, the units get their players back; otherwise the first
/// line comes on with its left wing.
pub open spec fn spec_put_on_field(before: Team, after: Team) -> bool {
    if before.five(FiveNumber::PenaltyKill1).field_players.spec_filled_count() == 3 {
        spec_brigades_released(before, after)
    } else {
        let first = before.five(FiveNumber::First).field_players;
        &&& after.active_five == (ActiveFive {
            current_number: FiveNumber::First,
            field_players: before.active_five.field_players.with_slot(
                PlayerPosition::LeftWing, first.slot(PlayerPosition::LeftWing)),
            replaced_position: after.active_five.replaced_position,
            ..before.active_five
        })
        &&& after.active_five.replaced_position@ == before.active_five.replaced_position@.push(PlayerPosition::LeftWing)
        &&& after == (Team { active_five: after.active_five, ..before })
    }
}

/// Whether players can come back on the ice: the team has its units, its lines hold its
/// players, and the first line has a left wing when the units do not get players back.
pub open spec fn spec_put_on_field_ready(t: Team) -> bool {
    &&& spec_units_complete(t.fives@)
    &&& spec_lines_known(t.fives@, t.field_players@)
    &&& t.five(FiveNumber::PenaltyKill1).field_players.spec_filled_count() != 3 ==>
        t.five(FiveNumber::First).field_players.slot(PlayerPosition::LeftWing) is Some
}

/// `after` and `freed` are the team `before` and the number of the player who leaves the
/// penalty box when the team concedes a goal: a player listed for a small penalty is
/// let off instead, if any; otherwise the first player in the box comes out.
pub open spec fn spec_release_after_goal(before: Team, after: Team, freed: Option<u8>) -> bool {
    if before.players_to_small_penalty.len() > 0 {
        &&& freed is None
        &&& after == (Team { players_to_small_penalty: after.players_to_small_penalty, ..before })
        &&& after.players_to_small_penalty@ == before.players_to_small_penalty@.drop_last()
    } else if before.penalty_players.len() > 0 {
        let id = before.penalty_players@[0];
        &&& freed == Some(before.player(id@).number)
        &&& spec_put_on_field(
            Team { penalty_players: after.penalty_players, ..before },
            after,
        )
        &&& after.penalty_players@ == before.penalty_players@.subrange(1, before.penalty_players@.len() as int)
    } else {
        &&& freed is None
        &&& after == before
    }
}

/// Whether the team can concede a goal: no big penalty waits without a small one, and a
/// player leaving the box is one of its players and can come back on the ice.
pub open spec fn spec_release_after_goal_ready(t: Team) -> bool {
    &&& t.players_to_small_penalty.len() == 0 ==> t.players_to_big_penalty.len() == 0
    &&& t.players_to_small_penalty.len() == 0 && t.penalty_players.len() > 0 ==> {
        &&& t.has_player(t.penalty_players@[0]@)
        &&& spec_put_on_field_ready(t)
    }
}

impl Team {
    /// Players come back on the ice after a penalty.
    pub fn put_players_on_field(&mut self)
        requires
            spec_put_on_field_ready(*old(self)),
        ensures
            spec_put_on_field(*old(self), *final(self)),
    {
        proof { lemma_complete_has(self.fives@, FiveNumber::PenaltyKill1); }
        let number_of_players_in_pks = self.get_five_number_of_players(&FiveNumber::PenaltyKill1);
        if number_of_players_in_pks == 3 {
            self.release_removed_players_in_brigades();
        } else {
            self.active_five.current_number = FiveNumber::First;
            proof { lemma_complete_has(self.fives@, FiveNumber::First); }
            self.insert_player_to_active_five(&PlayerPosition::LeftWing);
        }
    }

    /// The team concedes a goal: a player listed for a small penalty is let off, or the
    /// first player in the box comes out; returns the number of the player who comes out.
    pub fn release_after_goal(&mut self) -> (freed: Option<u8>)
        requires
            spec_release_after_goal_ready(*old(self)),
        ensures
            spec_release_after_goal(*old(self), *final(self), freed),
    {
        let small_penalties_len = self.players_to_small_penalty.len();
        if small_penalties_len != 0 {
            self.players_to_small_penalty.remove(small_penalties_len - 1);
            assert(self.players_to_small_penalty@ =~= old(self).players_to_small_penalty@.drop_last());
            return None;
        }
        if self.penalty_players.len() != 0 {
            let player_id = self.penalty_players.remove(0);
            assert(self.penalty_players@ =~= old(self).penalty_players@.subrange(1, old(self).penalty_players@.len() as int));
            let number = self.get_field_player(&player_id).number;
            self.put_players_on_field();
            return Some(number);
        }
        None
    }

    /// Changes by `delta` the morale of the players on the ice, for every position each
    /// holds, and of the goalie in net.
    pub fn change_goal_morale(&mut self, delta: i32)
        requires
            delta == 2 || delta == -1,
            spec_goal_morale_fits(*old(self), delta as int),
        ensures
            spec_goal_morale(*old(self), *final(self), delta as int),
    {
        let mut i: usize = 0;
        while i < self.field_players.len()
            invariant
                delta == 2 || delta == -1,
                i <= self.field_players.len(),
                self.field_players.len() == old(self).field_players.len(),
                spec_goal_morale_fits(*old(self), delta as int),
                forall|k: int| 0 <= k < i ==> #[trigger] self.field_players@[k]
                    == spec_with_morale(old(self).field_players@[k], old(self).field_players@[k].stats.morale
                        + delta * spec_on_ice_count(*old(self), old(self).field_players@[k])),
                forall|k: int| i <= k < self.field_players.len() ==> #[trigger] self.field_players@[k] == old(self).field_players@[k],
                *self == (Team { field_players: self.field_players, ..*old(self) }),
            decreases self.field_players.len() - i,
        {
            let count: usize = match &self.field_players[i].id {
                Some(id) => self.active_five.field_players.count_id(id),
                None => 0,
            };
            let ghost before = self.field_players@;
            let mut player = self.field_players.remove(i);
            assert(player == old(self).field_players@[i as int]);
            let m: i32 = player.stats.morale as i32 + delta * count as i32;
            player.stats.morale = m as u8;
            self.field_players.insert(i, player);
            assert(self.field_players@ =~= before.update(i as int, self.field_players@[i as int]));
            i = i + 1;
        }
        match self.active_goalie {
            GoalieNumber::MainGoalkeeper => {
                let mut g = self.goalies.main_goalkeeper.take().unwrap();
                g.stats.morale = (g.stats.morale as i32 + delta) as u8;
                self.goalies.main_goalkeeper = Some(g);
            },
            GoalieNumber::SubstituteGoalkeeper => {
                let mut g = self.goalies.substitute_goalkeeper.take().unwrap();
                g.stats.morale = (g.stats.morale as i32 + delta) as u8;
                self.goalies.substitute_goalkeeper = Some(g);
            },
        }
    }
}

} // verus!

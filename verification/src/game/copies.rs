use vstd::prelude::*;
use crate::game::action::copy_text;
use crate::game::engine::UserInfo;
use crate::game::field_player::FieldPlayer;
use crate::game::five::{ActiveFive, FiveIds};
use crate::game::goalie::Goalie;
use crate::game::player::PlayerPosition;
use crate::game::team::{GoalieSubstitutes, Goalies, Team};

verus! {

/// A copy of a list of token ids.
pub fn copy_ids(ids: &Vec<String>) -> (r: Vec<String>)
    ensures
        r@ == ids@,
{
    let mut r: Vec<String> = Vec::new();
    let mut i: usize = 0;
    while i < ids.len()
        invariant
            i <= ids.len(),
            r@ == ids@.take(i as int),
        decreases ids.len() - i,
    {
        r.push(ids[i].clone());
        assert(r@ =~= ids@.take(i + 1));
        i = i + 1;
    }
    assert(ids@.take(ids.len() as int) =~= ids@);
    r
}

/// A copy of a list of positions.
pub fn copy_positions(positions: &Vec<PlayerPosition>) -> (r: Vec<PlayerPosition>)
    ensures
        r@ == positions@,
{
    let mut r: Vec<PlayerPosition> = Vec::new();
    let mut i: usize = 0;
    while i < positions.len()
        invariant
            i <= positions.len(),
            r@ == positions@.take(i as int),
        decreases positions.len() - i,
    {
        r.push(positions[i]);
        assert(r@ =~= positions@.take(i + 1));
        i = i + 1;
    }
    assert(positions@.take(positions.len() as int) =~= positions@);
    r
}

impl FieldPlayer {
    /// A copy of the player.
    pub fn duplicate(&self) -> (r: FieldPlayer)
        ensures
            r == *self,
    {
        FieldPlayer {
            id: copy_text(&self.id),
            img: copy_text(&self.img),
            name: copy_text(&self.name),
            teamwork: self.teamwork,
            reality: self.reality,
            nationality: self.nationality.clone(),
            birthday: self.birthday,
            player_type: self.player_type.clone(),
            number: self.number,
            hand: self.hand,
            player_role: self.player_role,
            native_position: self.native_position,
            stats: self.stats,
            user_id: self.user_id,
            number_of_penalty_events: self.number_of_penalty_events,
        }
    }
}

impl Goalie {
    /// A copy of the goalie.
    pub fn duplicate(&self) -> (r: Goalie)
        ensures
            r == *self,
    {
        Goalie {
            id: copy_text(&self.id),
            img: copy_text(&self.img),
            name: copy_text(&self.name),
            user_id: self.user_id,
            reality: self.reality,
            nationality: self.nationality.clone(),
            birthday: self.birthday,
            player_type: self.player_type,
            number: self.number,
            hand: self.hand,
            player_role: self.player_role,
            stats: self.stats,
        }
    }
}

/// A copy of an optional goalie.
pub fn copy_goalie(g: &Option<Goalie>) -> (r: Option<Goalie>)
    ensures
        r == *g,
{
    match g {
        Some(g) => Some(g.duplicate()),
        None => None,
    }
}

impl FiveIds {
    /// A copy of the unit.
    pub fn duplicate(&self) -> (r: FiveIds)
        ensures
            r == *self,
    {
        FiveIds {
            field_players: self.field_players.duplicate(),
            number: self.number,
            ice_time_priority: self.ice_time_priority,
            tactic: self.tactic,
            time_field: self.time_field,
        }
    }
}

impl ActiveFive {
    /// A copy of the unit on the ice.
    pub fn duplicate(&self) -> (r: ActiveFive)
        ensures
            r.current_number == self.current_number,
            r.replaced_position@ == self.replaced_position@,
            r.field_players == self.field_players,
            r.is_goalie_out == self.is_goalie_out,
            r.ice_time_priority == self.ice_time_priority,
            r.tactic == self.tactic,
            r.time_field == self.time_field,
    {
        ActiveFive {
            current_number: self.current_number,
            replaced_position: copy_positions(&self.replaced_position),
            field_players: self.field_players.duplicate(),
            is_goalie_out: self.is_goalie_out,
            ice_time_priority: self.ice_time_priority,
            tactic: self.tactic,
            time_field: self.time_field,
        }
    }
}

impl Team {
    /// A copy of the team.
    pub fn duplicate(&self) -> (r: Team)
        ensures
            r.fives@ == self.fives@,
            r.active_five.current_number == self.active_five.current_number,
            r.active_five.replaced_position@ == self.active_five.replaced_position@,
            r.active_five.field_players == self.active_five.field_players,
            r.active_five.is_goalie_out == self.active_five.is_goalie_out,
            r.active_five.ice_time_priority == self.active_five.ice_time_priority,
            r.active_five.tactic == self.active_five.tactic,
            r.active_five.time_field == self.active_five.time_field,
            r.field_players@ == self.field_players@,
            r.penalty_players@ == self.penalty_players@,
            r.players_to_big_penalty@ == self.players_to_big_penalty@,
            r.players_to_small_penalty@ == self.players_to_small_penalty@,
            r.goalie_substitutions == self.goalie_substitutions,
            r.active_goalie_substitution == self.active_goalie_substitution,
            r.goalies == self.goalies,
            r.active_goalie == self.active_goalie,
            r.score == self.score,
    {
        let mut fives: Vec<FiveIds> = Vec::new();
        let mut i: usize = 0;
        while i < self.fives.len()
            invariant
                i <= self.fives.len(),
                fives@ == self.fives@.take(i as int),
            decreases self.fives.len() - i,
        {
            fives.push(self.fives[i].duplicate());
            assert(fives@ =~= self.fives@.take(i + 1));
            i = i + 1;
        }
        assert(self.fives@.take(self.fives.len() as int) =~= self.fives@);
        let mut field_players: Vec<FieldPlayer> = Vec::new();
        let mut j: usize = 0;
        while j < self.field_players.len()
            invariant
                j <= self.field_players.len(),
                field_players@ == self.field_players@.take(j as int),
            decreases self.field_players.len() - j,
        {
            field_players.push(self.field_players[j].duplicate());
            assert(field_players@ =~= self.field_players@.take(j + 1));
            j = j + 1;
        }
        assert(self.field_players@.take(self.field_players.len() as int) =~= self.field_players@);
        Team {
            fives,
            active_five: self.active_five.duplicate(),
            field_players,
            penalty_players: copy_ids(&self.penalty_players),
            players_to_big_penalty: copy_ids(&self.players_to_big_penalty),
            players_to_small_penalty: copy_ids(&self.players_to_small_penalty),
            goalie_substitutions: GoalieSubstitutes {
                substitution1: copy_text(&self.goalie_substitutions.substitution1),
                substitution2: copy_text(&self.goalie_substitutions.substitution2),
            },
            active_goalie_substitution: self.active_goalie_substitution,
            goalies: Goalies {
                main_goalkeeper: copy_goalie(&self.goalies.main_goalkeeper),
                substitute_goalkeeper: copy_goalie(&self.goalies.substitute_goalkeeper),
            },
            active_goalie: self.active_goalie,
            score: self.score,
        }
    }
}

impl UserInfo {
    /// A copy of the side.
    pub fn duplicate(&self) -> (r: UserInfo)
        ensures
            r.user_id == self.user_id,
            r.team.fives@ == self.team.fives@,
            r.team.field_players@ == self.team.field_players@,
            r.team.active_five.field_players == self.team.active_five.field_players,
            r.team.score == self.team.score,
            r.account_id == self.account_id,
            r.take_to_called == self.take_to_called,
            r.coach_speech_called == self.coach_speech_called,
            r.is_goalie_out == self.is_goalie_out,
    {
        UserInfo {
            user_id: self.user_id,
            team: self.team.duplicate(),
            account_id: self.account_id.clone(),
            take_to_called: self.take_to_called,
            coach_speech_called: self.coach_speech_called,
            is_goalie_out: self.is_goalie_out,
        }
    }
}

} // verus!

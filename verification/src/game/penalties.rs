use vstd::prelude::*;
use crate::game::action::{ActionData, ActionTypes};
use crate::game::brigades::{spec_units_complete, spec_lines_known, spec_lines, spec_penalty_kills, spec_power_plays,
    spec_all_fives, spec_players_in_fives, spec_team_penalty_done};
use crate::game::engine::{Game, UserInfo, USER_ID1, USER_ID2};
use crate::game::field_player::FieldPlayer;
use crate::game::five::{ActiveFive, FiveIds};
use crate::game::numbers::FiveNumber;
use crate::game::random_plays::BIG_PENALTY;
use crate::game::team::{Team, find_player, lemma_same_ids_update, lemma_first_player_unique, lemma_player_found, spec_has_five,
    spec_has_player, spec_id_is, spec_player_index, spec_swapped_all};

verus! {

/// The player with his penalty set to last `time` turns.
pub open spec fn spec_with_penalty(p: FieldPlayer, time: u8) -> FieldPlayer {
    FieldPlayer { number_of_penalty_events: Some(time), ..p }
}

/// `after` is the team `before` with the player `id` in the penalty box for `time` turns.
pub open spec fn spec_sent_off(before: Team, after: Team, id: String, time: u8) -> bool {
    let i = spec_player_index(before.field_players@, id@);
    &&& after.penalty_players@ == before.penalty_players@.push(id)
    &&& after.field_players@ == before.field_players@.update(i, spec_with_penalty(before.field_players@[i], time))
    &&& after == (Team { penalty_players: after.penalty_players, field_players: after.field_players, ..before })
}

/// The team once it goes on a power play because it has more players than `opponent_players`:
/// a team not on a power play already sends its first power-play unit.
pub open spec fn spec_power_play_switch(team: Team, opponent_players: int) -> Team {
    let n = team.active_five.current_number;
    if !n.is_power_play() && team.five(n).field_players.spec_filled_count() > opponent_players {
        Team { active_five: ActiveFive { current_number: FiveNumber::PowerPlay1, ..team.active_five }, ..team }
    } else {
        team
    }
}

/// A team with its eight units has each of them.
pub proof fn lemma_complete_has(units: Seq<FiveIds>, n: FiveNumber)
    requires
        spec_units_complete(units),
    ensures
        spec_has_five(units, n),
{
    match n {
        FiveNumber::First => assert(spec_has_five(units, spec_lines()[0])),
        FiveNumber::Second => assert(spec_has_five(units, spec_lines()[1])),
        FiveNumber::Third => assert(spec_has_five(units, spec_lines()[2])),
        FiveNumber::Fourth => assert(spec_has_five(units, spec_lines()[3])),
        FiveNumber::PenaltyKill1 => assert(spec_has_five(units, spec_penalty_kills()[0])),
        FiveNumber::PenaltyKill2 => assert(spec_has_five(units, spec_penalty_kills()[1])),
        FiveNumber::PowerPlay1 => assert(spec_has_five(units, spec_power_plays()[0])),
        FiveNumber::PowerPlay2 => assert(spec_has_five(units, spec_power_plays()[1])),
    }
}

/// Changing a player but not his token id keeps who is in the team.
pub proof fn lemma_update_keeps_players(players: Seq<FieldPlayer>, i: int, p: FieldPlayer)
    requires
        0 <= i < players.len(),
        p.id == players[i].id,
    ensures
        forall|id: Seq<char>| #[trigger] spec_has_player(players.update(i, p), id) == spec_has_player(players, id),
{
    let after = players.update(i, p);
    assert forall|id: Seq<char>| #[trigger] spec_has_player(after, id) == spec_has_player(players, id) by {
        if spec_has_player(players, id) {
            let k = choose|k: int| 0 <= k < players.len() && spec_id_is(#[trigger] players[k], id);
            assert(spec_id_is(after[k], id));
        }
        if spec_has_player(after, id) {
            let k = choose|k: int| 0 <= k < after.len() && spec_id_is(#[trigger] after[k], id);
            assert(spec_id_is(players[k], id));
        }
    }
}

impl Team {
    /// Puts the player `id` in the penalty box for `time` turns.
    pub fn send_off(&mut self, id: &String, time: u8)
        requires
            old(self).has_player(id@),
        ensures
            spec_sent_off(*old(self), *final(self), *id, time),
            forall|x: Seq<char>| #[trigger] spec_has_player(final(self).field_players@, x)
                == spec_has_player(old(self).field_players@, x),
    {
        self.penalty_players.push(id.clone());
        let i = find_player(&self.field_players, id).unwrap();
        proof { lemma_first_player_unique(self.field_players@, id@, i as int); }
        let ghost before = self.field_players@;
        let mut player = self.field_players.remove(i);
        player.number_of_penalty_events = Some(time);
        self.field_players.insert(i, player);
        proof {
            assert(self.field_players@ =~= before.update(i as int, spec_with_penalty(before[i as int], time)));
            lemma_update_keeps_players(before, i as int, spec_with_penalty(before[i as int], time));
        }
    }

    /// Sends the first power-play unit if the team has more players than
    /// `opponent_number_of_players` and is not on a power play already.
    pub fn check_and_change_active_five_to_pp(&mut self, opponent_number_of_players: usize)
        requires
            old(self).has_five(old(self).active_five.current_number),
        ensures
            *final(self) == spec_power_play_switch(*old(self), opponent_number_of_players as int),
    {
        let active_five_number = self.active_five.current_number;
        let number_of_players = self.get_five_number_of_players(&active_five_number);
        if !active_five_number.is_power_play_unit() && number_of_players > opponent_number_of_players {
            self.active_five.current_number = FiveNumber::PowerPlay1;
        }
    }
}

/// `after` is the team `before` once its player `id` is sent off for `time` turns: he
/// goes to the penalty box, the units replace him and the whole unit comes on the ice.
pub open spec fn spec_team_sent_off(before: Team, after: Team, id: String, time: u8) -> bool {
    exists|t1: Team, t2: Team|
        #![trigger spec_sent_off(before, t1, id, time), spec_team_penalty_done(t1, t2, id@)]
        spec_sent_off(before, t1, id, time)
        && spec_team_penalty_done(t1, t2, id@)
        && spec_swapped_all(t2, after)
}

/// Sends the player `id` of `team` off for `time` turns and returns how many players
/// the unit now on the ice has.
pub fn penalize_team(team: &mut Team, id: &String, time: u8) -> (n: usize)
    requires
        old(team).has_player(id@),
        spec_units_complete(old(team).fives@),
        spec_lines_known(old(team).fives@, old(team).field_players@),
        old(team).goalie_substitutions.slot(old(team).active_goalie_substitution) is Some,
    ensures
        spec_team_sent_off(*old(team), *final(team), *id, time),
        spec_units_complete(final(team).fives@),
        spec_lines_known(final(team).fives@, final(team).field_players@),
        final(team).goalie_substitutions == old(team).goalie_substitutions,
        final(team).active_goalie_substitution == old(team).active_goalie_substitution,
        forall|x: Seq<char>| spec_has_player(old(team).field_players@, x) ==> {
            &&& spec_has_player(final(team).field_players@, x)
            &&& (#[trigger] final(team).player(x)).name == old(team).player(x).name
            &&& final(team).player(x).img == old(team).player(x).img
            &&& final(team).player(x).number == old(team).player(x).number
        },
        n == final(team).five(final(team).active_five.current_number).field_players.spec_filled_count(),
{
    team.send_off(id, time);
    let ghost t1 = *team;
    proof {
        let i = spec_player_index(old(team).field_players@, id@);
        lemma_player_found(old(team).field_players@, id@);
        assert forall|x: Seq<char>| spec_has_player(old(team).field_players@, x) implies {
            &&& spec_has_player(t1.field_players@, x)
            &&& (#[trigger] t1.player(x)).name == old(team).player(x).name
            &&& t1.player(x).img == old(team).player(x).img
            &&& t1.player(x).number == old(team).player(x).number
        } by {
            lemma_same_ids_update(old(team).field_players@, i,
                spec_with_penalty(old(team).field_players@[i], time), x);
        }
        lemma_complete_has(team.fives@, team.active_five.current_number);
        assert forall|k: int| 0 <= k < spec_players_in_fives(team.fives@, spec_lines()).len() implies
            spec_has_player(team.field_players@, #[trigger] spec_players_in_fives(team.fives@, spec_lines())[k]) by {
            assert(spec_has_player(old(team).field_players@, spec_players_in_fives(team.fives@, spec_lines())[k]));
        }
    }
    team.do_penalty(id);
    let ghost t2 = *team;
    proof { lemma_complete_has(team.fives@, team.active_five.current_number); }
    team.swap_all_players_in_active_five();
    proof {
        lemma_complete_has(team.fives@, team.active_five.current_number);
        assert(spec_sent_off(*old(team), t1, *id, time));
        assert(spec_team_penalty_done(t1, t2, id@));
        assert(team.field_players == t1.field_players);
        assert forall|x: Seq<char>| spec_has_player(old(team).field_players@, x) implies {
            &&& spec_has_player(team.field_players@, x)
            &&& (#[trigger] team.player(x)).name == old(team).player(x).name
            &&& team.player(x).img == old(team).player(x).img
            &&& team.player(x).number == old(team).player(x).number
        } by {
            assert(t1.player(x) == team.player(x));
        }
    }
    let active_five_number = team.active_five.current_number;
    team.get_five_number_of_players(&active_five_number)
}

impl Game {
    /// Whether the player `id` of `penalty_user_id` can be sent off: he is a player of a
    /// team with its eight units whose lines only hold its players, he has a name and an
    /// image, and a pulled goalie has a substitute.
    pub open spec fn penalty_possible(self, id: Seq<char>, penalty_user_id: usize) -> bool {
        let t = self.user(penalty_user_id).team;
        &&& t.has_player(id)
        &&& t.player(id).name is Some
        &&& t.player(id).img is Some
        &&& spec_units_complete(t.fives@)
        &&& spec_lines_known(t.fives@, t.field_players@)
        &&& t.goalie_substitutions.slot(t.active_goalie_substitution) is Some
    }

    /// The penalty event for the player `id` of `penalty_user_id`.
    pub open spec fn spec_penalty_action(self, penalty_time: u8, id: Seq<char>, penalty_user_id: usize) -> ActionData {
        let u = self.user(penalty_user_id);
        let p = u.team.player(id);
        ActionData::Penalty {
            action_type: if penalty_time == BIG_PENALTY { ActionTypes::BigPenalty } else { ActionTypes::SmallPenalty },
            account_id: u.account_id,
            is_fight: false,
            player_img: p.img->0,
            player_name: p.name->0,
            player_number: p.number,
        }
    }

    /// `after` is the match once the player `id` of `penalty_user_id` is sent off for
    /// `penalty_time` turns: he goes to the penalty box, his units replace him, his whole
    /// unit comes on the ice, and the other side (`user_id`) goes on a power play if it
    /// now has more players.
    pub open spec fn spec_penalty_done(self, after: Game, penalty_time: u8, id: String, user_id: usize, penalty_user_id: usize) -> bool {
        exists|t3: Team|
            #[trigger] spec_team_sent_off(self.user(penalty_user_id).team, t3, id, penalty_time)
            && after == self.with_team(penalty_user_id, t3).with_team(
                user_id,
                spec_power_play_switch(
                    self.user(user_id).team,
                    t3.five(t3.active_five.current_number).field_players.spec_filled_count(),
                ),
            )
    }

    /// Sends the player `penalty_player_id` of `penalty_user_id` off for `penalty_time`
    /// turns, against the side `user_id`.
    pub fn do_penalty(
        &mut self,
        penalty_time: u8,
        penalty_player_id: &String,
        user_id: usize,
        penalty_user_id: usize,
    ) -> (r: ActionData)
        requires
            user_id == USER_ID1 || user_id == USER_ID2,
            penalty_user_id == USER_ID1 || penalty_user_id == USER_ID2,
            user_id != penalty_user_id,
            old(self).penalty_possible(penalty_player_id@, penalty_user_id),
            spec_units_complete(old(self).user(user_id).team.fives@),
        ensures
            r == old(self).spec_penalty_action(penalty_time, penalty_player_id@, penalty_user_id),
            old(self).spec_penalty_done(*final(self), penalty_time, *penalty_player_id, user_id, penalty_user_id),
            spec_units_complete(final(self).user(penalty_user_id).team.fives@),
            spec_units_complete(final(self).user(user_id).team.fives@),
            forall|x: Seq<char>| #[trigger] old(self).penalty_possible(x, penalty_user_id) ==> {
                &&& final(self).penalty_possible(x, penalty_user_id)
                &&& final(self).user(penalty_user_id).team.player(x).name == old(self).user(penalty_user_id).team.player(x).name
                &&& final(self).user(penalty_user_id).team.player(x).img == old(self).user(penalty_user_id).team.player(x).img
                &&& final(self).user(penalty_user_id).team.player(x).number == old(self).user(penalty_user_id).team.player(x).number
            },
            final(self).user(penalty_user_id).account_id == old(self).user(penalty_user_id).account_id,
            final(self).user(user_id).account_id == old(self).user(user_id).account_id,
            final(self).user(user_id).team.field_players == old(self).user(user_id).team.field_players,
            final(self).user(user_id).team.fives == old(self).user(user_id).team.fives,
    {
        let action_type = if penalty_time == BIG_PENALTY { ActionTypes::BigPenalty } else { ActionTypes::SmallPenalty };
        let penalty_user = self.get_user_info(penalty_user_id);
        let penalty_player = penalty_user.team.get_field_player(penalty_player_id);
        let action = ActionData::Penalty {
            action_type,
            account_id: penalty_user.account_id.clone(),
            is_fight: false,
            player_img: penalty_player.img.clone().unwrap(),
            player_name: penalty_player.name.clone().unwrap(),
            player_number: penalty_player.number,
        };
        let number_of_players = if penalty_user_id == USER_ID1 {
            penalize_team(&mut self.user1.team, penalty_player_id, penalty_time)
        } else {
            penalize_team(&mut self.user2.team, penalty_player_id, penalty_time)
        };
        proof { lemma_complete_has(self.user(user_id).team.fives@, self.user(user_id).team.active_five.current_number); }
        if user_id == USER_ID1 {
            self.user1.team.check_and_change_active_five_to_pp(number_of_players);
        } else {
            self.user2.team.check_and_change_active_five_to_pp(number_of_players);
        }
        action
    }
}

} // verus!

use vstd::prelude::*;
use crate::game::field_player::FieldPlayer;
use crate::game::five::{ActiveFive, FiveIds};
use crate::game::numbers::{FiveNumber, GoalieNumber};
use crate::game::player::{GoalieSubstitution, PlayerPosition};
use crate::game::step::{spec_goalie_owned, spec_player_owned};
use crate::game::team::{GoalieSubstitutes, Goalies, Team, find_five, lemma_first_five_unique, spec_five, spec_has_five};

verus! {

/// The five skater positions, in the order in which a unit first takes the ice.
pub open spec fn spec_opening_positions() -> Seq<PlayerPosition> {
    seq![
        PlayerPosition::Center,
        PlayerPosition::LeftWing,
        PlayerPosition::RightWing,
        PlayerPosition::LeftDefender,
        PlayerPosition::RightDefender,
    ]
}

/// Whether `t` is the team of a sheet with the units `fives`, the players `field_players`,
/// the goalies `goalies` and the goalie substitutes `goalie_substitutions`, playing for the
/// side `user_id`, before its first match: every player and goalie plays for that side; its first line is on the ice for no turn yet, with every position still to
/// be taken over; nobody is in the box or listed for it; the first substitute slot and
/// the main goalie are active; the score is nil.
pub open spec fn spec_sheet_team(
    t: Team,
    fives: Seq<FiveIds>,
    field_players: Seq<FieldPlayer>,
    goalies: Goalies,
    goalie_substitutions: GoalieSubstitutes,
    user_id: usize,
) -> bool {
    let first = spec_five(fives, FiveNumber::First);
    &&& t.fives@ == fives
    &&& t.field_players.len() == field_players.len()
    &&& forall|i: int| 0 <= i < field_players.len() ==>
        #[trigger] t.field_players@[i] == spec_player_owned(field_players[i], user_id)
    &&& t.goalies == (Goalies {
        main_goalkeeper: spec_goalie_owned(goalies.main_goalkeeper, user_id),
        substitute_goalkeeper: spec_goalie_owned(goalies.substitute_goalkeeper, user_id),
    })
    &&& t.goalie_substitutions == goalie_substitutions
    &&& t.active_five.current_number == FiveNumber::First
    &&& t.active_five.replaced_position@ == spec_opening_positions()
    &&& t.active_five.field_players == first.field_players
    &&& !t.active_five.is_goalie_out
    &&& t.active_five.ice_time_priority == first.ice_time_priority
    &&& t.active_five.tactic == first.tactic
    &&& t.active_five.time_field == Some(0u8)
    &&& t.penalty_players@.len() == 0
    &&& t.players_to_big_penalty@.len() == 0
    &&& t.players_to_small_penalty@.len() == 0
    &&& t.active_goalie_substitution == GoalieSubstitution::GoalieSubstitution1
    &&& t.active_goalie == GoalieNumber::MainGoalkeeper
    &&& t.score == 0
}

/// The team of a sheet for the side `user_id` before its first match (see
/// `spec_sheet_team`); none when the sheet has no first line.
pub fn team_from_sheet(
    fives: Vec<FiveIds>,
    field_players: Vec<FieldPlayer>,
    goalies: Goalies,
    goalie_substitutions: GoalieSubstitutes,
    user_id: usize,
) -> (r: Option<Team>)
    ensures
        !spec_has_five(fives@, FiveNumber::First) ==> r is None,
        spec_has_five(fives@, FiveNumber::First) ==> (r matches Some(t)
            && spec_sheet_team(t, fives@, field_players@, goalies, goalie_substitutions, user_id)),
{
    let i = match find_five(&fives, FiveNumber::First) {
        Some(i) => i,
        None => return None,
    };
    proof { lemma_first_five_unique(fives@, FiveNumber::First, i as int); }
    let mut replaced_position: Vec<PlayerPosition> = Vec::new();
    replaced_position.push(PlayerPosition::Center);
    replaced_position.push(PlayerPosition::LeftWing);
    replaced_position.push(PlayerPosition::RightWing);
    replaced_position.push(PlayerPosition::LeftDefender);
    replaced_position.push(PlayerPosition::RightDefender);
    assert(replaced_position@ =~= spec_opening_positions());
    let first = &fives[i];
    let active_five = ActiveFive {
        current_number: FiveNumber::First,
        replaced_position,
        field_players: first.field_players.duplicate(),
        is_goalie_out: false,
        ice_time_priority: first.ice_time_priority,
        tactic: first.tactic,
        time_field: Some(0),
    };
    let mut team = Team {
        fives,
        active_five,
        field_players,
        penalty_players: Vec::new(),
        players_to_big_penalty: Vec::new(),
        players_to_small_penalty: Vec::new(),
        goalie_substitutions,
        active_goalie_substitution: GoalieSubstitution::GoalieSubstitution1,
        goalies,
        active_goalie: GoalieNumber::MainGoalkeeper,
        score: 0,
    };
    team.set_owner(user_id);
    Some(team)
}

} // verus!

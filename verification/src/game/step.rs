use vstd::prelude::*;
use crate::game::action::{ActionData, ActionTypes, get_amount_of_spent_strength, spec_spent_strength};
use crate::game::copies::copy_ids;
use crate::game::engine::{Game, GameState, UserInfo, NUMBER_OF_STEPS, SECOND, USER_ID1, USER_ID2, spec_puck};
use crate::game::field_player::FieldPlayer;
use crate::game::five::ActiveFive;
use crate::game::goal::{spec_on_ice_count, spec_on_ice_known};
use crate::game::goalie::Goalie;
use crate::game::team::{Goalies, Team, spec_five_changed, spec_shift_length, spec_swap_upto, spec_ids, spec_opt_view};

verus! {

/// The player with his strength ratings lowered by `value`, stopping at zero.
pub open spec fn spec_player_tired(p: FieldPlayer, value: int) -> FieldPlayer {
    FieldPlayer { stats: p.stats.spec_strength_decreased(value), ..p }
}

/// `after` is the team `before` once its players on the ice leave it tired: each loses
/// the strength its unit spends, for every position he holds.
pub open spec fn spec_strength_reduced(before: Team, after: Team) -> bool {
    let spent = spec_spent_strength(before.active_five.ice_time_priority);
    &&& after.field_players.len() == before.field_players.len()
    &&& forall|i: int| 0 <= i < before.field_players.len() ==> #[trigger] after.field_players@[i]
        == spec_player_tired(before.field_players@[i], spent * spec_on_ice_count(before, before.field_players@[i]))
    &&& after == (Team { field_players: after.field_players, ..before })
}

/// `after` is the team `before` at the end of a turn's shift check: a unit that has
/// played its shift leaves the ice tired and the next one comes on.
pub open spec fn spec_shift_checked(before: Team, after: Team) -> bool {
    if before.active_five.time_field->0 >= spec_shift_length(before.active_five.ice_time_priority) {
        exists|t: Team| #[trigger] spec_strength_reduced(before, t) && spec_five_changed(t, after)
    } else {
        after == before
    }
}

/// The player and goalies of a side once it plays as `user_id`.
pub open spec fn spec_player_owned(p: FieldPlayer, user_id: usize) -> FieldPlayer {
    FieldPlayer { user_id: Some(user_id), ..p }
}

pub open spec fn spec_goalie_owned(g: Option<Goalie>, user_id: usize) -> Option<Goalie> {
    match g {
        Some(g) => Some(Goalie { user_id: Some(user_id), ..g }),
        None => None,
    }
}

/// `after` is the team `before` with all its players and goalies playing for `user_id`.
pub open spec fn spec_team_owned(before: Team, after: Team, user_id: usize) -> bool {
    &&& after.field_players.len() == before.field_players.len()
    &&& forall|i: int| 0 <= i < before.field_players.len() ==>
        #[trigger] after.field_players@[i] == spec_player_owned(before.field_players@[i], user_id)
    &&& after.goalies == (Goalies {
        main_goalkeeper: spec_goalie_owned(before.goalies.main_goalkeeper, user_id),
        substitute_goalkeeper: spec_goalie_owned(before.goalies.substitute_goalkeeper, user_id),
    })
    &&& after == (Team { field_players: after.field_players, goalies: after.goalies, ..before })
}

/// Whether every player and goalie of the team plays for `user_id`.
pub open spec fn spec_owned_by(t: Team, user_id: usize) -> bool {
    &&& forall|i: int| 0 <= i < t.field_players.len() ==> (#[trigger] t.field_players@[i]).user_id == Some(user_id)
    &&& (t.goalies.main_goalkeeper matches Some(g) ==> g.user_id == Some(user_id))
    &&& (t.goalies.substitute_goalkeeper matches Some(g) ==> g.user_id == Some(user_id))
}

/// `after` is the match `before` with the sides exchanged: each side takes the other's
/// number, and its players and goalies play for that number.
pub open spec fn spec_users_swapped(before: Game, after: Game) -> bool {
    &&& after.user1 == (UserInfo { user_id: USER_ID1, team: after.user1.team, ..before.user2 })
    &&& spec_team_owned(before.user2.team, after.user1.team, USER_ID1)
    &&& after.user2 == (UserInfo { user_id: USER_ID2, team: after.user2.team, ..before.user1 })
    &&& spec_team_owned(before.user1.team, after.user2.team, USER_ID2)
    &&& after == (Game { user1: after.user1, user2: after.user2, ..before })
}

/// The number of the period that ends after `turns` turns, if one does: the first after
/// 25 turns, the second after 50, the third after 75.
pub open spec fn spec_period_end(turns: u128) -> Option<u8> {
    if turns == 25 {
        Some(1)
    } else if turns == 50 {
        Some(2)
    } else if turns == 75 {
        Some(3)
    } else {
        None
    }
}

/// Whether an event changes what the next event is: everything but time-outs, coach
/// speeches, goalie changes, penalties and their signals and ends.
pub open spec fn spec_sets_last_action(a: ActionData) -> bool {
    !(a is TakeTO || a is CoachSpeech || a is GoalieBack || a is GoalieOut || a is EndedPenalty
        || a is DelayedPenaltySignal || a is Penalty)
}

/// The last event of `actions` that changes what the next event is, or `last` if none.
pub open spec fn spec_last_action(last: ActionData, actions: Seq<ActionData>) -> ActionData
    decreases actions.len(),
{
    if actions.len() == 0 {
        last
    } else if spec_sets_last_action(actions.last()) {
        actions.last()
    } else {
        spec_last_action(last, actions.drop_last())
    }
}

/// What the players see after a call: the match, the events of the call, and the delay
/// before the next call, in seconds.
pub struct Event {
    pub player_with_puck: Option<(usize, String)>,
    pub actions: Vec<ActionData>,
    pub zone_number: i8,
    pub time: u64,
    pub user1: UserInfo,
    pub user2: UserInfo,
    pub event_generation_delay: u64,
}

impl Team {
    /// The players on the ice leave it tired: each loses `amount` of strength for every
    /// position he holds.
    pub fn tire_players_on_ice(&mut self, amount: u8)
        requires
            amount <= 5,
            spec_on_ice_known(*old(self)),
        ensures
            final(self).field_players.len() == old(self).field_players.len(),
            forall|i: int| 0 <= i < old(self).field_players.len() ==> #[trigger] final(self).field_players@[i]
                == spec_player_tired(old(self).field_players@[i], amount * spec_on_ice_count(*old(self), old(self).field_players@[i])),
            *final(self) == (Team { field_players: final(self).field_players, ..*old(self) }),
    {
        let mut i: usize = 0;
        while i < self.field_players.len()
            invariant
                amount <= 5,
                i <= self.field_players.len(),
                self.field_players.len() == old(self).field_players.len(),
                forall|k: int| 0 <= k < i ==> #[trigger] self.field_players@[k]
                    == spec_player_tired(old(self).field_players@[k], amount * spec_on_ice_count(*old(self), old(self).field_players@[k])),
                forall|k: int| i <= k < self.field_players.len() ==> #[trigger] self.field_players@[k] == old(self).field_players@[k],
                *self == (Team { field_players: self.field_players, ..*old(self) }),
            decreases self.field_players.len() - i,
        {
            let count: usize = match &self.field_players[i].id {
                Some(id) => self.active_five.field_players.count_id(id),
                None => 0,
            };
            let ghost before = self.field_players@;
            let mut player = self.field_players.remove(i);
            assert(player == old(self).field_players@[i as int]);
            assert(count <= 7);
            assert(count == spec_on_ice_count(*old(self), old(self).field_players@[i as int]));
            assert(count * amount <= 35) by (nonlinear_arith)
                requires count <= 7, amount <= 5;
            let value64: u64 = count as u64 * amount as u64;
            let value: u8 = value64 as u8;
            assert(value == count * amount);
            assert(value == amount * count) by (nonlinear_arith)
                requires value == count * amount;
            player.stats.decrease_strength(value);
            self.field_players.insert(i, player);
            assert(self.field_players@ =~= before.update(i as int, self.field_players@[i as int]));
            i = i + 1;
        }
    }

    /// Gives all players and goalies of the team to `user_id`.
    pub fn set_owner(&mut self, user_id: usize)
        ensures
            spec_team_owned(*old(self), *final(self), user_id),
    {
        let mut i: usize = 0;
        while i < self.field_players.len()
            invariant
                i <= self.field_players.len(),
                self.field_players.len() == old(self).field_players.len(),
                forall|k: int| 0 <= k < i ==> #[trigger] self.field_players@[k] == spec_player_owned(old(self).field_players@[k], user_id),
                forall|k: int| i <= k < self.field_players.len() ==> #[trigger] self.field_players@[k] == old(self).field_players@[k],
                *self == (Team { field_players: self.field_players, ..*old(self) }),
            decreases self.field_players.len() - i,
        {
            let ghost before = self.field_players@;
            let mut player = self.field_players.remove(i);
            player.user_id = Some(user_id);
            self.field_players.insert(i, player);
            assert(self.field_players@ =~= before.update(i as int, self.field_players@[i as int]));
            i = i + 1;
        }
        match self.goalies.main_goalkeeper.take() {
            Some(mut g) => {
                g.user_id = Some(user_id);
                self.goalies.main_goalkeeper = Some(g);
            },
            None => {},
        }
        match self.goalies.substitute_goalkeeper.take() {
            Some(mut g) => {
                g.user_id = Some(user_id);
                self.goalies.substitute_goalkeeper = Some(g);
            },
            None => {},
        }
    }

    /// The unit on the ice leaves it tired if it has played its shift, and the next one
    /// comes on.
    pub fn check_shift(&mut self)
        requires
            old(self).active_five.time_field is Some,
            spec_on_ice_known(*old(self)),
        ensures
            spec_shift_checked(*old(self), *final(self)),
    {
        if self.need_change() {
            let amount = get_amount_of_spent_strength(self.active_five.ice_time_priority);
            self.tire_players_on_ice(amount);
            let ghost t = *self;
            self.change_active_five();
            assert(spec_strength_reduced(*old(self), t));
        }
    }
}

/// Sides exchanged twice are back as they were, when each side's players and goalies
/// played for its own number: the same sides, teams, players (as lists) and goalies.
pub proof fn lemma_swap_users_twice(g: Game, g1: Game, g2: Game)
    requires
        g.user1.user_id == USER_ID1,
        g.user2.user_id == USER_ID2,
        spec_owned_by(g.user1.team, USER_ID1),
        spec_owned_by(g.user2.team, USER_ID2),
        spec_users_swapped(g, g1),
        spec_users_swapped(g1, g2),
    ensures
        g2.user1.team.field_players@ == g.user1.team.field_players@,
        g2.user2.team.field_players@ == g.user2.team.field_players@,
        g2.user1.team == (Team { field_players: g2.user1.team.field_players, ..g.user1.team }),
        g2.user2.team == (Team { field_players: g2.user2.team.field_players, ..g.user2.team }),
        g2.user1 == (UserInfo { team: g2.user1.team, ..g.user1 }),
        g2.user2 == (UserInfo { team: g2.user2.team, ..g.user2 }),
        g2 == (Game { user1: g2.user1, user2: g2.user2, ..g }),
{
    assert(g2.user1.team.field_players@ =~= g.user1.team.field_players@) by {
        assert forall|i: int| 0 <= i < g.user1.team.field_players.len() implies
            g2.user1.team.field_players@[i] == g.user1.team.field_players@[i] by {
            assert(g.user1.team.field_players@[i].user_id == Some(USER_ID1));
        }
    }
    assert(g2.user2.team.field_players@ =~= g.user2.team.field_players@) by {
        assert forall|i: int| 0 <= i < g.user2.team.field_players.len() implies
            g2.user2.team.field_players@[i] == g.user2.team.field_players@[i] by {
            assert(g.user2.team.field_players@[i].user_id == Some(USER_ID2));
        }
    }
}

/// Whether a team that pulled its goalie and whose unit is not complete on the ice has
/// both goalie substitutes named (the swap then looks for them on the ice).
#[verifier::opaque]
pub open spec fn spec_substitutes_named(t: Team) -> bool {
    t.active_five.is_goalie_out
        && t.active_five.field_players.spec_filled_count()
            != t.five(t.active_five.current_number).field_players.spec_blank_count()
        ==> t.goalie_substitutions.substitution1 is Some
            && t.goalie_substitutions.substitution2 is Some
            && t.goalie_substitutions.slot(t.active_goalie_substitution) is Some
}

impl Game {
    /// The match with both units on the ice one turn longer on it.
    pub open spec fn spec_units_ticked(self) -> Game {
        Game {
            user1: UserInfo { team: Team { active_five: ActiveFive {
                time_field: Some((self.user1.team.active_five.time_field->0 + 1) as u8),
                ..self.user1.team.active_five
            }, ..self.user1.team }, ..self.user1 },
            user2: UserInfo { team: Team { active_five: ActiveFive {
                time_field: Some((self.user2.team.active_five.time_field->0 + 1) as u8),
                ..self.user2.team.active_five
            }, ..self.user2.team }, ..self.user2 },
            ..self
        }
    }

    /// Both units on the ice play one more turn.
    pub fn increase_five_time_field(&mut self)
        requires
            old(self).user1.team.active_five.time_field matches Some(t) && t < 255,
            old(self).user2.team.active_five.time_field matches Some(t) && t < 255,
        ensures
            *final(self) == old(self).spec_units_ticked(),
    {
        let t1 = self.user1.team.active_five.time_field.unwrap();
        self.user1.team.active_five.time_field = Some(t1 + 1);
        let t2 = self.user2.team.active_five.time_field.unwrap();
        self.user2.team.active_five.time_field = Some(t2 + 1);
    }

    /// Each side whose unit has played its shift changes units.
    pub fn check_teams_to_change_active_five(&mut self)
        requires
            old(self).user1.team.active_five.time_field is Some,
            old(self).user2.team.active_five.time_field is Some,
            spec_on_ice_known(old(self).user1.team),
            spec_on_ice_known(old(self).user2.team),
        ensures
            spec_shift_checked(old(self).user1.team, final(self).user1.team),
            spec_shift_checked(old(self).user2.team, final(self).user2.team),
            *final(self) == (Game {
                user1: UserInfo { team: final(self).user1.team, ..old(self).user1 },
                user2: UserInfo { team: final(self).user2.team, ..old(self).user2 },
                ..*old(self)
            }),
    {
        self.user1.team.check_shift();
        self.user2.team.check_shift();
    }

    /// The sides exchange their numbers (at the end of a period).
    pub fn swap_users(&mut self)
        ensures
            spec_users_swapped(*old(self), *final(self)),
    {
        std::mem::swap(&mut self.user1, &mut self.user2);
        self.user1.user_id = USER_ID1;
        self.user2.user_id = USER_ID2;
        self.user1.team.set_owner(USER_ID1);
        self.user2.team.set_owner(USER_ID2);
    }

    /// After 25, 50 and 75 turns a period ends and the sides exchange their numbers.
    pub fn check_end_of_period(&mut self) -> (r: Option<ActionData>)
        ensures
            match spec_period_end(old(self).turns) {
                Some(n) => {
                    &&& r == Some(ActionData::EndOfPeriod { action_type: ActionTypes::EndOfPeriod, number: n })
                    &&& spec_users_swapped(*old(self), *final(self))
                },
                None => r is None && *final(self) == *old(self),
            },
    {
        if self.turns == 25 || self.turns == 50 || self.turns == 75 {
            let period: u8 = if self.turns >= 75 { 3 } else if self.turns >= 50 { 2 } else { 1 };
            self.swap_users();
            return Some(ActionData::EndOfPeriod { action_type: ActionTypes::EndOfPeriod, number: period });
        }
        None
    }

    /// The match is over after the regular time once the scores differ.
    pub fn is_game_over(&self) -> (b: bool)
        ensures
            b == (self.turns >= NUMBER_OF_STEPS && self.user1.team.score != self.user2.team.score),
    {
        self.turns >= NUMBER_OF_STEPS && self.user1.team.score != self.user2.team.score
    }

    /// The side ahead: the second only if it scored more.
    pub fn get_winner_id(&self) -> (r: usize)
        ensures
            r == (if self.user2.team.score > self.user1.team.score { USER_ID2 } else { USER_ID1 }),
    {
        if self.user2.team.score > self.user1.team.score { USER_ID2 } else { USER_ID1 }
    }

    /// Whether the match is over and who won, and the overtime event when the regular time
    /// ends on a tie.
    pub fn get_game_state(&self) -> (r: (GameState, Option<ActionData>))
        ensures
            if self.turns >= NUMBER_OF_STEPS && self.user1.team.score != self.user2.team.score {
                r == (GameState::GameOver {
                    winner_id: if self.user2.team.score > self.user1.team.score { USER_ID2 } else { USER_ID1 },
                }, None::<ActionData>)
            } else if self.turns == NUMBER_OF_STEPS {
                r == (GameState::InProgress, Some(ActionData::Overtime { action_type: ActionTypes::Overtime }))
            } else {
                r == (GameState::InProgress, None::<ActionData>)
            },
    {
        if self.is_game_over() {
            (GameState::GameOver { winner_id: self.get_winner_id() }, None)
        } else if self.turns == NUMBER_OF_STEPS {
            (GameState::InProgress, Some(ActionData::Overtime { action_type: ActionTypes::Overtime }))
        } else {
            (GameState::InProgress, None)
        }
    }

    /// Records the last event that decides the next one and shows the match to the
    /// players.
    pub fn generate_event(&mut self, actions: &Vec<ActionData>) -> (e: Event)
        ensures
            final(self).last_action == spec_last_action(old(self).last_action, actions@),
            *final(self) == (Game { last_action: final(self).last_action, ..*old(self) }),
            e.actions@ == actions@,
            e.player_with_puck == old(self).player_with_puck,
            e.zone_number == old(self).zone_number,
            e.time == old(self).last_event_generation_time,
            e.event_generation_delay == old(self).event_generation_delay / SECOND,
            e.user1.user_id == old(self).user1.user_id,
            e.user2.user_id == old(self).user2.user_id,
            e.user1.team.score == old(self).user1.team.score,
            e.user2.team.score == old(self).user2.team.score,
            e.user1.account_id == old(self).user1.account_id,
            e.user2.account_id == old(self).user2.account_id,
    {
        let mut i: usize = 0;
        while i < actions.len()
            invariant
                i <= actions.len(),
                self.last_action == spec_last_action(old(self).last_action, actions@.take(i as int)),
                *self == (Game { last_action: self.last_action, ..*old(self) }),
            decreases actions.len() - i,
        {
            assert(actions@.take(i + 1).drop_last() =~= actions@.take(i as int));
            match &actions[i] {
                ActionData::TakeTO { .. } | ActionData::CoachSpeech { .. } | ActionData::GoalieBack { .. }
                | ActionData::GoalieOut { .. } | ActionData::EndedPenalty { .. }
                | ActionData::DelayedPenaltySignal { .. } | ActionData::Penalty { .. } => {},
                _ => {
                    self.last_action = actions[i].duplicate();
                },
            }
            i = i + 1;
        }
        assert(actions@.take(actions.len() as int) =~= actions@);
        let mut copied: Vec<ActionData> = Vec::new();
        let mut j: usize = 0;
        while j < actions.len()
            invariant
                j <= actions.len(),
                copied@ == actions@.take(j as int),
            decreases actions.len() - j,
        {
            copied.push(actions[j].duplicate());
            assert(copied@ =~= actions@.take(j + 1));
            j = j + 1;
        }
        assert(actions@.take(actions.len() as int) =~= actions@);
        let player_with_puck = match &self.player_with_puck {
            Some((u, id)) => Some((*u, id.clone())),
            None => None,
        };
        Event {
            user1: self.user1.duplicate(),
            user2: self.user2.duplicate(),
            time: self.last_event_generation_time,
            zone_number: self.zone_number,
            actions: copied,
            player_with_puck,
            event_generation_delay: self.event_generation_delay / SECOND,
        }
    }

    /// Whether the players of `user_id` on the ice can be swapped: the unit is in the
    /// team, the swap finds its players, and with the goalie pulled both substitutes are
    /// named.
    pub open spec fn swap_in_five_ready(self, user_id: usize) -> bool {
        &&& self.user(user_id).team.has_five(self.user(user_id).team.active_five.current_number)
        &&& spec_substitutes_named(self.user(user_id).team)
        &&& ({
                let t = self.user(user_id).team;
                let five = t.five(t.active_five.current_number);
                t.active_five.field_players.spec_filled_count() != five.field_players.spec_blank_count() ==>
                spec_swap_upto(
                    five.field_players,
                    t.active_five.field_players,
                    t.active_five.replaced_position@,
                    match self.player_with_puck { Some((_, id)) => Some(id@), None => None },
                    spec_ids(t.players_to_big_penalty@),
                    spec_ids(t.players_to_small_penalty@),
                    7,
                ).3
            })
    }

    /// `after` is the match once at most two players of `user_id` have come on the ice.
    pub open spec fn spec_swapped_in_five(self, after: Game, user_id: usize) -> bool {
        exists|p: Option<String>|
                spec_opt_view(p) == (match self.player_with_puck { Some((_, id)) => Some(id@), None => None })
                && #[trigger] self.with_team(user_id, after.user(user_id).team) == after
                && after.user(user_id).team.swap_result_of(self.user(user_id).team, p)
    }

    /// Swaps at most two players of the unit `current_number` of `user_id` on the ice; the
    /// player with the puck (of either side) stays.
    #[verifier::rlimit(40)]
    pub fn swap_players_in_five(&mut self, user_id: usize)
        requires
            old(self).swap_in_five_ready(user_id),
        ensures
            old(self).spec_swapped_in_five(*final(self), user_id),
    {
        let player_with_puck: Option<String> = match &self.player_with_puck {
            Some((_, id)) => Some(id.clone()),
            None => None,
        };
        let ghost p = player_with_puck;
        proof { reveal(spec_substitutes_named); }
        if user_id == USER_ID1 {
            self.user1.team.swap_players_in_active_five(player_with_puck);
        } else {
            self.user2.team.swap_players_in_active_five(player_with_puck);
        }
        assert(self.user(user_id).team.swap_result_of(old(self).user(user_id).team, p));
        assert(old(self).with_team(user_id, self.user(user_id).team) == *self);
    }
}

} // verus!

use vstd::prelude::*;
use crate::game::action::{ActionData, ActionTypes};
use crate::game::engine::{Game, UserInfo, USER_ID1, USER_ID2};
use crate::game::goal::spec_on_ice_known;
use crate::game::penalties::spec_team_sent_off;
use crate::game::serve::{
    spec_between_penalties, spec_ended_penalties, spec_penalties_served, spec_penalty_sequence, spec_serve_ready,
};
use crate::game::team::Team;
use crate::game::step::{spec_period_end, spec_shift_checked, spec_users_swapped};

verus! {

/// A name for a match between two stages of a turn.
pub open spec fn spec_midturn(g: Game) -> bool {
    true
}

/// A name for a match after a stage of a turn that gave the first `k` events.
pub open spec fn spec_stage(g: Game, k: int) -> bool {
    true
}

impl Game {
    /// `after` and `actions` are what the next event gives, with the turn counted.
    pub open spec fn spec_played(self, after: Game, actions: Seq<ActionData>, seed: Seq<u8>) -> bool {
        exists|g: Game| #[trigger] self.spec_next_event(g, actions, seed)
            && after == (Game { turns: (self.turns + 1) as u128, ..g })
    }

    /// `after` is the match once each side whose unit has played its shift changed units.
    pub open spec fn spec_shifts_checked(self, after: Game) -> bool {
        &&& spec_shift_checked(self.user1.team, after.user1.team)
        &&& spec_shift_checked(self.user2.team, after.user2.team)
        &&& after == (Game {
            user1: UserInfo { team: after.user1.team, ..self.user1 },
            user2: UserInfo { team: after.user2.team, ..self.user2 },
            ..self
        })
    }

    /// `after` and `actions` are the match and the events once both sides' players in
    /// the box served a turn.
    pub open spec fn spec_penalties_reduced(self, after: Game, actions: Seq<ActionData>) -> bool {
        &&& exists|f1: Seq<u8>, f2: Seq<u8>|
            #![trigger spec_penalties_served(self.user1.team, after.user1.team, f1), spec_penalties_served(self.user2.team, after.user2.team, f2)]
            spec_penalties_served(self.user1.team, after.user1.team, f1)
            && spec_penalties_served(self.user2.team, after.user2.team, f2)
            && actions == spec_ended_penalties(self.user1.account_id, f1)
                + spec_ended_penalties(self.user2.account_id, f2)
        &&& after == (Game {
            user1: UserInfo { team: after.user1.team, ..self.user1 },
            user2: UserInfo { team: after.user2.team, ..self.user2 },
            ..self
        })
    }

    /// `after` and `actions` are what the line changes of a turn give: units that played
    /// their shift go off, the players in the box serve a turn, and each side brings at
    /// most two players on the ice.
    pub open spec fn spec_line_changes(self, after: Game, actions: Seq<ActionData>) -> bool {
        exists|g3: Game, g4: Game, g5: Game|
            #![trigger spec_midturn(g3), spec_midturn(g4), spec_midturn(g5)]
            spec_midturn(g3) && spec_midturn(g4) && spec_midturn(g5)
            && self.spec_shifts_checked(g3)
            && g3.spec_penalties_reduced(g4, actions)
            && g4.spec_swapped_in_five(g5, USER_ID1)
            && g5.spec_swapped_in_five(after, USER_ID2)
    }

    /// `after` and `actions` are what the end of a turn gives after a period's last turn:
    /// the end of the period, and the sides exchanged; nothing otherwise.
    pub open spec fn spec_period_checked(self, after: Game, actions: Seq<ActionData>) -> bool {
        match spec_period_end(self.turns) {
            Some(n) => actions == seq![ActionData::EndOfPeriod { action_type: ActionTypes::EndOfPeriod, number: n }]
                && spec_users_swapped(self, after),
            None => actions.len() == 0 && after == self,
        }
    }

    /// `after` and `actions` are what the last stages of a turn give: the penalties, then
    /// the end of a period.
    pub open spec fn spec_turn_tail(self, after: Game, actions: Seq<ActionData>) -> bool {
        exists|g: Game, k: int| #[trigger] spec_stage(g, k)
            && 0 <= k <= actions.len()
            && self.spec_checked_penalties(g, actions.take(k))
            && g.spec_period_checked(after, actions.skip(k))
    }

    /// `after` and `actions` are what a turn gives once its event is played and the units
    /// on the ice played one more turn: the line changes (after anything but an icing),
    /// then the penalties and the end of a period.
    pub open spec fn spec_turn_end(self, after: Game, actions: Seq<ActionData>) -> bool {
        if self.last_action is Icing {
            self.spec_turn_tail(after, actions)
        } else {
            exists|g: Game, k: int| #[trigger] spec_stage(g, k)
                && 0 <= k <= actions.len()
                && self.spec_line_changes(g, actions.take(k))
                && g.spec_turn_tail(after, actions.skip(k))
        }
    }

    /// `after` and `actions` are what a turn of the match gives for the seed: the next
    /// event, counted as a turn, then the rest of the turn.
    #[verifier::opaque]
    pub open spec fn spec_step(self, after: Game, actions: Seq<ActionData>, seed: Seq<u8>) -> bool {
        exists|g: Game, k: int| #[trigger] spec_stage(g, k)
            && 0 <= k <= actions.len()
            && self.spec_played(g, actions.take(k), seed)
            && g.spec_units_ticked().spec_turn_end(after, actions.skip(k))
    }

    /// Whether the last stages of a turn can be played.
    pub open spec fn turn_tail_ready(self) -> bool {
        self.check_penalties_ready()
    }

    /// Whether the line changes of a turn can be made, and the rest of the turn played
    /// on whatever they give.
    pub open spec fn line_changes_ready(self) -> bool {
        &&& self.user1.team.active_five.time_field is Some
        &&& self.user2.team.active_five.time_field is Some
        &&& spec_on_ice_known(self.user1.team)
        &&& spec_on_ice_known(self.user2.team)
        &&& forall|g3: Game| #[trigger] self.spec_shifts_checked(g3) ==> {
            &&& spec_serve_ready(g3.user1.team)
            &&& spec_serve_ready(g3.user2.team)
            &&& forall|g4: Game, a: Seq<ActionData>| #[trigger] g3.spec_penalties_reduced(g4, a) ==> {
                &&& g4.swap_in_five_ready(USER_ID1)
                &&& forall|g5: Game| #[trigger] g4.spec_swapped_in_five(g5, USER_ID1) ==> {
                    &&& g5.swap_in_five_ready(USER_ID2)
                    &&& forall|g6: Game| #[trigger] g5.spec_swapped_in_five(g6, USER_ID2) ==> g6.turn_tail_ready()
                }
            }
        }
    }

    /// Whether a turn can be played once its event is played.
    pub open spec fn turn_end_ready(self) -> bool {
        &&& self.user1.team.active_five.time_field matches Some(t) && t < 255
        &&& self.user2.team.active_five.time_field matches Some(t) && t < 255
        &&& if self.spec_units_ticked().last_action is Icing {
            self.spec_units_ticked().turn_tail_ready()
        } else {
            self.spec_units_ticked().line_changes_ready()
        }
    }

    /// Whether a turn can be played for the seed: its event can be played, and the rest
    /// of the turn on whatever the event gives.
    #[verifier::opaque]
    pub open spec fn step_ready(self, seed: Seq<u8>) -> bool {
        &&& seed.len() > 22
        &&& self.next_event_ready(seed)
        &&& forall|g: Game, a: Seq<ActionData>| #[trigger] self.spec_played(g, a, seed) ==> g.turn_end_ready()
    }

    /// The line changes of a turn: units that played their shift go off, the players in
    /// the box serve a turn, and each side brings at most two players on the ice.
    fn change_lines(&mut self) -> (actions: Vec<ActionData>)
        requires
            old(self).line_changes_ready(),
        ensures
            old(self).spec_line_changes(*final(self), actions@),
            final(self).turn_tail_ready(),
    {
        let ghost g2 = *self;
        self.check_teams_to_change_active_five();
        let ghost g3 = *self;
        assert(g2.spec_shifts_checked(g3));
        let served = self.reduce_penalty();
        let ghost g4 = *self;
        assert(g3.spec_penalties_reduced(g4, served@));
        self.swap_players_in_five(USER_ID1);
        let ghost g5 = *self;
        self.swap_players_in_five(USER_ID2);
        assert(spec_midturn(g3) && spec_midturn(g4) && spec_midturn(g5));
        served
    }

    /// The last stages of a turn: the penalties, then the end of a period.
    fn finish_turn(&mut self) -> (actions: Vec<ActionData>)
        requires
            old(self).turn_tail_ready(),
        ensures
            old(self).spec_turn_tail(*final(self), actions@),
    {
        let mut actions = self.check_and_do_penalties();
        let ghost g = *self;
        let ghost a = actions@;
        let end = self.check_end_of_period();
        match end {
            Some(e) => actions.push(e),
            None => {},
        }
        proof {
            let k = a.len() as int;
            assert(actions@.take(k) =~= a);
            assert(spec_stage(g, k));
            match spec_period_end(g.turns) {
                Some(n) => assert(actions@.skip(k) =~= seq![ActionData::EndOfPeriod { action_type: ActionTypes::EndOfPeriod, number: n }]),
                None => assert(actions@.skip(k).len() == 0),
            }
        }
        actions
    }

    /// A turn once its event is played: the units on the ice play one more turn, then,
    /// unless the puck was iced, the line changes, then the last stages.
    fn end_turn(&mut self) -> (actions: Vec<ActionData>)
        requires
            old(self).turn_end_ready(),
        ensures
            old(self).spec_units_ticked().spec_turn_end(*final(self), actions@),
    {
        self.increase_five_time_field();
        let ghost g2 = *self;
        let iced = match self.last_action {
            ActionData::Icing { .. } => true,
            _ => false,
        };
        if iced {
            self.finish_turn()
        } else {
            let mut actions = self.change_lines();
            let ghost g = *self;
            let ghost a = actions@;
            let mut rest = self.finish_turn();
            let ghost r = rest@;
            actions.append(&mut rest);
            proof {
                let k = a.len() as int;
                assert(actions@.take(k) =~= a);
                assert(actions@.skip(k) =~= r);
                assert(spec_stage(g, k));
            }
            actions
        }
    }

    /// Plays a turn of the match: the next event, then, unless the puck was iced, the
    /// line changes and the players in the box serving a turn, then the penalties and the
    /// end of a period. Returns the events of the turn.
    pub fn step(&mut self, seed: &Vec<u8>) -> (actions: Vec<ActionData>)
        requires
            old(self).step_ready(seed@),
        ensures
            old(self).spec_step(*final(self), actions@, seed@),
    {
        proof { reveal(Game::step_ready); }
        let mut actions = self.do_action(seed);
        let ghost g1 = *self;
        let ghost a1 = actions@;
        assert(old(self).spec_played(g1, a1, seed@));
        let mut rest = self.end_turn();
        let ghost r = rest@;
        actions.append(&mut rest);
        proof {
            let k = a1.len() as int;
            assert(actions@.take(k) =~= a1);
            assert(actions@.skip(k) =~= r);
            assert(spec_stage(g1, k));
            reveal(Game::spec_step);
        }
        actions
    }
}

/// Whether `after` is the match `before` with at most its two sides changed.
pub open spec fn spec_sides_only(before: Game, after: Game) -> bool {
    after == (Game { user1: after.user1, user2: after.user2, ..before })
}

/// Penalties given one after the other change only the two sides.
proof fn lemma_penalty_sequence_sides_only(
    before: Game,
    after: Game,
    ids: Seq<String>,
    time: u8,
    user_id: usize,
    penalty_user_id: usize,
)
    requires
        spec_penalty_sequence(before, after, ids, time, user_id, penalty_user_id),
    ensures
        spec_sides_only(before, after),
    decreases ids.len(),
{
    if ids.len() > 0 {
        let mid = choose|mid: Game| #[trigger] spec_between_penalties(mid)
            && spec_penalty_sequence(before, mid, ids.drop_last(), time, user_id, penalty_user_id)
            && mid.spec_penalty_done(after, time, ids.last(), user_id, penalty_user_id);
        lemma_penalty_sequence_sides_only(before, mid, ids.drop_last(), time, user_id, penalty_user_id);
        let t3 = choose|t3: Team| #[trigger] spec_team_sent_off(mid.user(penalty_user_id).team, t3, ids.last(), time)
            && after == mid.with_team(penalty_user_id, t3).with_team(
                user_id,
                crate::game::penalties::spec_power_play_switch(
                    mid.user(user_id).team,
                    t3.five(t3.active_five.current_number).field_players.spec_filled_count(),
                ),
            );
    }
}

/// The last stages of a turn change only the two sides.
proof fn lemma_turn_tail_sides_only(g: Game, after: Game, actions: Seq<ActionData>)
    requires
        g.spec_turn_tail(after, actions),
    ensures
        spec_sides_only(g, after),
{
    let (g6, k) = choose|g6: Game, k: int| #[trigger] spec_stage(g6, k)
        && 0 <= k <= actions.len()
        && g.spec_checked_penalties(g6, actions.take(k))
        && g6.spec_period_checked(after, actions.skip(k));
    if g.player_with_puck is Some {
        let penalty_user_id = crate::game::engine::spec_opponent_id(g.puck_user());
        let user_id = crate::game::engine::spec_opponent_id(penalty_user_id);
        let big = g.user(user_id).team.players_to_big_penalty@;
        let small = g.user(user_id).team.players_to_small_penalty@;
        let (g1, g2) = choose|g1: Game, g2: Game|
            #![trigger spec_between_penalties(g1), spec_between_penalties(g2)]
            spec_between_penalties(g1) && spec_between_penalties(g2)
            && spec_penalty_sequence(g, g1, big, crate::game::random_plays::BIG_PENALTY, user_id, penalty_user_id)
            && spec_penalty_sequence(g1, g2, small, crate::game::random_plays::SMALL_PENALTY, user_id, penalty_user_id)
            && g6 == g2.with_team(user_id, Team {
                players_to_big_penalty: g6.user(user_id).team.players_to_big_penalty,
                players_to_small_penalty: g6.user(user_id).team.players_to_small_penalty,
                ..g2.user(user_id).team
            })
            && g6.user(user_id).team.players_to_big_penalty@.len() == 0
            && g6.user(user_id).team.players_to_small_penalty@.len() == 0
            && actions.take(k) == crate::game::serve::spec_penalty_actions(g, big, crate::game::random_plays::BIG_PENALTY, penalty_user_id)
                + crate::game::serve::spec_penalty_actions(g1, small, crate::game::random_plays::SMALL_PENALTY, penalty_user_id);
        lemma_penalty_sequence_sides_only(g, g1, big, crate::game::random_plays::BIG_PENALTY, user_id, penalty_user_id);
        lemma_penalty_sequence_sides_only(g1, g2, small, crate::game::random_plays::SMALL_PENALTY, user_id, penalty_user_id);
    }
}

/// The rest of a turn after its event changes only the two sides.
proof fn lemma_turn_end_sides_only(g: Game, after: Game, actions: Seq<ActionData>)
    requires
        g.spec_turn_end(after, actions),
    ensures
        spec_sides_only(g, after),
{
    if g.last_action is Icing {
        lemma_turn_tail_sides_only(g, after, actions);
    } else {
        let (g5, k) = choose|g5: Game, k: int| #[trigger] spec_stage(g5, k)
            && 0 <= k <= actions.len()
            && g.spec_line_changes(g5, actions.take(k))
            && g5.spec_turn_tail(after, actions.skip(k));
        lemma_turn_tail_sides_only(g5, after, actions.skip(k));
    }
}

/// The next event counts one turn.
proof fn lemma_played_counts_turn(g: Game, g1: Game, actions: Seq<ActionData>, seed: Seq<u8>)
    requires
        g.spec_played(g1, actions, seed),
        g.turns < u128::MAX,
    ensures
        g1.turns == g.turns + 1,
{
    let g0 = choose|g0: Game| #[trigger] g.spec_next_event(g0, actions, seed)
        && g1 == (Game { turns: (g.turns + 1) as u128, ..g0 });
}

/// A turn counts exactly one turn of the match, whatever its events (below the largest
/// count of turns).
pub proof fn lemma_step_counts_turn(g: Game, after: Game, actions: Seq<ActionData>, seed: Seq<u8>)
    requires
        g.spec_step(after, actions, seed),
        g.turns < u128::MAX,
    ensures
        after.turns == g.turns + 1,
{
    reveal(Game::spec_step);
    let (g1, k) = choose|g1: Game, k: int| #[trigger] spec_stage(g1, k)
        && 0 <= k <= actions.len()
        && g.spec_played(g1, actions.take(k), seed)
        && g1.spec_units_ticked().spec_turn_end(after, actions.skip(k));
    lemma_played_counts_turn(g, g1, actions.take(k), seed);
    lemma_turn_end_sides_only(g1.spec_units_ticked(), after, actions.skip(k));
}


} // verus!

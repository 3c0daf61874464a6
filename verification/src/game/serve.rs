use vstd::prelude::*;
use crate::game::action::{ActionData, ActionTypes};
use crate::game::brigades::{
    spec_units_complete, spec_lines_known, spec_brigades_released, spec_release_chain, spec_power_plays,
    spec_penalty_kills, spec_lines, spec_players_in_fives, lemma_release_chain_frame, lemma_release_chain_all_fives,
    lemma_players_in_fives_frame, spec_all_fives,
};
use crate::game::engine::{Game, UserInfo, USER_ID1, USER_ID2, spec_opponent_id};
use crate::game::field_player::FieldPlayer;
use crate::game::five::FiveIds;
use crate::game::goal::{spec_put_on_field, spec_put_on_field_ready, spec_release_after_goal, spec_release_after_goal_ready};
use crate::game::numbers::FiveNumber;
use crate::game::penalties::{lemma_complete_has, spec_with_penalty, lemma_update_keeps_players};
use crate::game::random_plays::{BIG_PENALTY, SMALL_PENALTY};
use crate::game::copies::copy_ids;
use crate::game::player::PlayerPosition;
use crate::game::team::{Team, find_player, lemma_first_player_unique, lemma_player_found, lemma_same_ids_update,
    spec_has_five, spec_has_player, spec_ids, spec_player, spec_player_index, spec_five};

verus! {

/// The players with one turn less to serve for the player `id`.
pub open spec fn spec_tick(players: Seq<FieldPlayer>, id: Seq<char>) -> Seq<FieldPlayer> {
    let i = spec_player_index(players, id);
    players.update(i, spec_with_penalty(players[i], (players[i].number_of_penalty_events->0 - 1) as u8))
}

/// The turns left to serve for the first player in the box.
pub open spec fn spec_events_of(t: Team, k: int) -> int {
    t.player(t.penalty_players@[k]@).number_of_penalty_events->0 as int
}

/// Whether the `k`-th player in the box (one of the first two) comes out this turn.
pub open spec fn spec_liberated(t: Team, k: int) -> bool {
    t.penalty_players@.len() > k && spec_events_of(t, k) == 1
}

/// The players in the box after those of the first two who served their time left.
pub open spec fn spec_remaining(t: Team) -> Seq<String> {
    let pp = t.penalty_players@;
    let s1 = if spec_liberated(t, 1) { pp.remove(1) } else { pp };
    if spec_liberated(t, 0) { s1.remove(0) } else { s1 }
}

/// Whether the players in the box can serve a turn: the first two are players of the
/// team, different, with turns left to serve; and players can come back on the ice.
pub open spec fn spec_serve_ready(t: Team) -> bool {
    let pp = t.penalty_players@;
    &&& pp.len() >= 1 ==> (t.has_player(pp[0]@) && (t.player(pp[0]@).number_of_penalty_events matches Some(e) && e >= 1))
    &&& pp.len() >= 2 ==> (t.has_player(pp[1]@) && (t.player(pp[1]@).number_of_penalty_events matches Some(e) && e >= 1))
    &&& pp.len() >= 2 ==> pp[0]@ != pp[1]@
    &&& spec_liberated(t, 0) || spec_liberated(t, 1) ==> {
        &&& spec_put_on_field_ready(t)
        &&& t.five(FiveNumber::First).field_players.slot(PlayerPosition::LeftWing) is Some
    }
}

/// `after` and `freed` are the team `before` and the numbers of the players who leave the
/// box once the first two players in the box have served a turn: each of them has one
/// turn less to serve; those who served their time leave the box (the second one first)
/// and a player comes back on the ice for each.
pub open spec fn spec_penalties_served(before: Team, after: Team, freed: Seq<u8>) -> bool {
    let pp = before.penalty_players@;
    let l0 = spec_liberated(before, 0);
    let l1 = spec_liberated(before, 1);
    let ticked0 = if pp.len() >= 1 { spec_tick(before.field_players@, pp[0]@) } else { before.field_players@ };
    let ticked = if pp.len() >= 2 { spec_tick(ticked0, pp[1]@) } else { ticked0 };
    exists|t1: Team, t2: Team|
        #![trigger spec_served_steps(t1, t2)]
        spec_served_steps(t1, t2) &&
        t1 == (Team { field_players: t1.field_players, penalty_players: t1.penalty_players, ..before })
        && t1.field_players@ == ticked
        && t1.penalty_players@ == spec_remaining(before)
        && freed == (if l1 { seq![before.player(pp[1]@).number] } else { Seq::empty() })
            + (if l0 { seq![before.player(pp[0]@).number] } else { Seq::empty() })
        && (if l1 { spec_put_on_field(t1, t2) } else { t2 == t1 })
        && (if l0 { spec_put_on_field(t2, after) } else { after == t2 })
}

/// Putting players back in the units keeps the team's units and lines, and the first line.
#[verifier::rlimit(40)]
pub proof fn lemma_released_keeps(before: Team, after: Team)
    requires
        spec_brigades_released(before, after),
        spec_units_complete(before.fives@),
        spec_lines_known(before.fives@, before.field_players@),
    ensures
        spec_units_complete(after.fives@),
        spec_lines_known(after.fives@, after.field_players@),
        after.field_players == before.field_players,
        after.five(FiveNumber::First) == before.five(FiveNumber::First),
{
    let mid = choose|mid: Seq<FiveIds>|
        spec_release_chain(before.fives@, mid, before.field_players@, spec_ids(before.penalty_players@),
            spec_power_plays(), spec_power_plays(), PlayerPosition::LeftWing)
        && #[trigger] spec_release_chain(mid, after.fives@, before.field_players@,
            spec_ids(before.penalty_players@), spec_penalty_kills(), spec_penalty_kills(), PlayerPosition::RightWing);
    let penalty = spec_ids(before.penalty_players@);
    lemma_release_chain_all_fives(before.fives@, mid, before.field_players@, penalty, spec_power_plays(),
        spec_power_plays(), PlayerPosition::LeftWing, spec_penalty_kills());
    lemma_release_chain_all_fives(before.fives@, mid, before.field_players@, penalty, spec_power_plays(),
        spec_power_plays(), PlayerPosition::LeftWing, spec_lines());
    lemma_release_chain_all_fives(before.fives@, mid, before.field_players@, penalty, spec_power_plays(),
        spec_power_plays(), PlayerPosition::LeftWing, spec_power_plays());
    lemma_release_chain_all_fives(mid, after.fives@, before.field_players@, penalty, spec_penalty_kills(),
        spec_penalty_kills(), PlayerPosition::RightWing, spec_penalty_kills());
    lemma_release_chain_all_fives(mid, after.fives@, before.field_players@, penalty, spec_penalty_kills(),
        spec_penalty_kills(), PlayerPosition::RightWing, spec_lines());
    lemma_release_chain_all_fives(mid, after.fives@, before.field_players@, penalty, spec_penalty_kills(),
        spec_penalty_kills(), PlayerPosition::RightWing, spec_power_plays());
    assert forall|k: int| 0 <= k < spec_lines().len() implies
        spec_five(after.fives@, #[trigger] spec_lines()[k]) == spec_five(before.fives@, spec_lines()[k]) by {
        let m = spec_lines()[k];
        assert(spec_has_five(before.fives@, m));
        assert(!spec_power_plays().contains(m)) by {
            if spec_power_plays().contains(m) {
                let j = choose|j: int| 0 <= j < 2 && spec_power_plays()[j] == m;
            }
        }
        assert(!spec_penalty_kills().contains(m)) by {
            if spec_penalty_kills().contains(m) {
                let j = choose|j: int| 0 <= j < 2 && spec_penalty_kills()[j] == m;
            }
        }
        lemma_release_chain_frame(before.fives@, mid, before.field_players@, penalty, spec_power_plays(),
            spec_power_plays(), PlayerPosition::LeftWing, m);
        lemma_release_chain_frame(mid, after.fives@, before.field_players@, penalty, spec_penalty_kills(),
            spec_penalty_kills(), PlayerPosition::RightWing, m);
    }
    lemma_players_in_fives_frame(after.fives@, before.fives@, spec_lines());
    assert(spec_five(after.fives@, spec_lines()[0]) == spec_five(before.fives@, spec_lines()[0]));
}

/// A name for the two intermediate teams of serving penalties.
pub open spec fn spec_served_steps(t1: Team, t2: Team) -> bool {
    true
}

/// Bringing players back on the ice keeps the team's units and lines, and the first line.
pub proof fn lemma_put_on_field_keeps(before: Team, after: Team)
    requires
        spec_put_on_field(before, after),
        spec_put_on_field_ready(before),
    ensures
        spec_units_complete(after.fives@),
        spec_lines_known(after.fives@, after.field_players@),
        after.field_players == before.field_players,
        after.five(FiveNumber::First) == before.five(FiveNumber::First),
{
    if before.five(FiveNumber::PenaltyKill1).field_players.spec_filled_count() == 3 {
        lemma_released_keeps(before, after);
    }
}

impl Team {
    /// The player `id` has one turn less to serve; returns whether he served his time.
    fn tick_penalty(&mut self, id: &String) -> (done: bool)
        requires
            old(self).has_player(id@),
            old(self).player(id@).number_of_penalty_events matches Some(e) && e >= 1,
        ensures
            final(self).field_players@ == spec_tick(old(self).field_players@, id@),
            forall|x: Seq<char>| #[trigger] spec_has_player(final(self).field_players@, x) == spec_has_player(old(self).field_players@, x),
            *final(self) == (Team { field_players: final(self).field_players, ..*old(self) }),
            done == (old(self).player(id@).number_of_penalty_events->0 == 1),
    {
        let i = find_player(&self.field_players, id).unwrap();
        proof { lemma_first_player_unique(self.field_players@, id@, i as int); }
        let ghost before = self.field_players@;
        let mut player = self.field_players.remove(i);
        let events = player.number_of_penalty_events.unwrap() - 1;
        player.number_of_penalty_events = Some(events);
        self.field_players.insert(i, player);
        assert(self.field_players@ =~= spec_tick(before, id@));
        proof {
            lemma_update_keeps_players(before, i as int, self.field_players@[i as int]);
        }
        events == 0
    }

    /// The first two players in the box serve a turn; those who served their time leave
    /// it and players come back on the ice. Returns the numbers of those who left.
    pub fn serve_penalties(&mut self) -> (freed: Vec<u8>)
        requires
            spec_serve_ready(*old(self)),
        ensures
            spec_penalties_served(*old(self), *final(self), freed@),
    {
        let ghost t0 = *self;
        let n = self.penalty_players.len();
        let mut l0 = false;
        let mut l1 = false;
        let mut number0: u8 = 0;
        let mut number1: u8 = 0;
        if n >= 1 {
            let id0 = self.penalty_players[0].clone();
            number0 = self.get_field_player(&id0).number;
            l0 = self.tick_penalty(&id0);
        }
        let ghost ticked0 = self.field_players@;
        assert(l0 == spec_liberated(t0, 0));
        if n >= 2 {
            let id1 = self.penalty_players[1].clone();
            proof {
                let p0 = t0.penalty_players@[0]@;
                let p1 = t0.penalty_players@[1]@;
                lemma_player_found(t0.field_players@, p0);
                lemma_player_found(t0.field_players@, p1);
                lemma_same_ids_update(t0.field_players@, spec_player_index(t0.field_players@, p0),
                    spec_with_penalty(t0.player(p0), (t0.player(p0).number_of_penalty_events->0 - 1) as u8), p1);
            }
            number1 = self.get_field_player(&id1).number;
            l1 = self.tick_penalty(&id1);
        }
        assert(l1 == spec_liberated(t0, 1));
        let mut freed: Vec<u8> = Vec::new();
        if l1 {
            self.penalty_players.remove(1);
            freed.push(number1);
        }
        if l0 {
            self.penalty_players.remove(0);
            freed.push(number0);
        }
        let ghost t1 = *self;
        assert(t1.penalty_players@ =~= spec_remaining(t0));
        if l1 {
            self.put_players_on_field();
        }
        let ghost t2 = *self;
        if l0 {
            proof {
                if l1 {
                    lemma_put_on_field_keeps(t1, t2);
                }
            }
            self.put_players_on_field();
        }
        proof {
            let ex = (if l1 { seq![t0.player(t0.penalty_players@[1]@).number] } else { Seq::empty() })
                + (if l0 { seq![t0.player(t0.penalty_players@[0]@).number] } else { Seq::empty() });
            assert(freed@ =~= ex);
            assert(l1 ==> spec_put_on_field(t1, t2));
            assert(!l1 ==> t2 == t1);
            let pp = t0.penalty_players@;
            let ticked_0 = if pp.len() >= 1 { spec_tick(t0.field_players@, pp[0]@) } else { t0.field_players@ };
            let ticked = if pp.len() >= 2 { spec_tick(ticked_0, pp[1]@) } else { ticked_0 };
            assert(t1.field_players@ == ticked);
            assert(t1 == (Team { field_players: t1.field_players, penalty_players: t1.penalty_players, ..t0 }));
            assert(l0 ==> spec_put_on_field(t2, *self));
            assert(!l0 ==> *self == t2);
            let l0s = spec_liberated(t0, 0);
            let l1s = spec_liberated(t0, 1);
            assert(t1.penalty_players@ == spec_remaining(t0));
            assert(freed@ == (if l1s { seq![t0.player(pp[1]@).number] } else { Seq::empty() })
                + (if l0s { seq![t0.player(pp[0]@).number] } else { Seq::empty() }));
            assert(if l1s { spec_put_on_field(t1, t2) } else { t2 == t1 });
            assert(if l0s { spec_put_on_field(t2, *self) } else { *self == t2 });
            assert(spec_served_steps(t1, t2));
            assert(spec_penalties_served(t0, *self, freed@));
        }
        freed
    }
}

/// The events for the players with the numbers `freed` leaving the box of `account_id`.
pub open spec fn spec_ended_penalties(account_id: String, freed: Seq<u8>) -> Seq<ActionData> {
    freed.map_values(|n: u8| ActionData::EndedPenalty {
        action_type: ActionTypes::EndedPenalty,
        account_id: account_id,
        player_number: n,
    })
}

/// A name for the match between two penalties of a sequence.
pub open spec fn spec_between_penalties(g: Game) -> bool {
    true
}

/// `after` is the match `before` once the players `ids` of `penalty_user_id`, one after
/// the other, are sent off for `time` turns against `user_id`.
pub open spec fn spec_penalty_sequence(
    before: Game,
    after: Game,
    ids: Seq<String>,
    time: u8,
    user_id: usize,
    penalty_user_id: usize,
) -> bool
    decreases ids.len(),
{
    if ids.len() == 0 {
        after == before
    } else {
        exists|mid: Game| #[trigger] spec_between_penalties(mid)
            && spec_penalty_sequence(before, mid, ids.drop_last(), time, user_id, penalty_user_id)
            && mid.spec_penalty_done(after, time, ids.last(), user_id, penalty_user_id)
    }
}

/// The penalty events for the players `ids` of `penalty_user_id`.
pub open spec fn spec_penalty_actions(g: Game, ids: Seq<String>, time: u8, penalty_user_id: usize) -> Seq<ActionData> {
    ids.map_values(|id: String| g.spec_penalty_action(time, id@, penalty_user_id))
}

impl Game {
    /// The players with puck's side turns in the box; returns the events for those who
    /// leave it.
    pub fn reduce_user_player_penalty(&mut self, user_id: usize) -> (actions: Vec<ActionData>)
        requires
            spec_serve_ready(old(self).user(user_id).team),
        ensures
            exists|freed: Seq<u8>| #[trigger] spec_penalties_served(old(self).user(user_id).team, final(self).user(user_id).team, freed)
                && actions@ == spec_ended_penalties(old(self).user(user_id).account_id, freed),
            *final(self) == old(self).with_team(user_id, final(self).user(user_id).team),
    {
        let freed = if user_id == USER_ID1 {
            self.user1.team.serve_penalties()
        } else {
            self.user2.team.serve_penalties()
        };
        let account_id = self.get_user_info(user_id).account_id.clone();
        let mut actions: Vec<ActionData> = Vec::new();
        let mut i: usize = 0;
        while i < freed.len()
            invariant
                i <= freed.len(),
                account_id == old(self).user(user_id).account_id,
                actions@ == spec_ended_penalties(account_id, freed@.take(i as int)),
            decreases freed.len() - i,
        {
            actions.push(ActionData::EndedPenalty {
                action_type: ActionTypes::EndedPenalty,
                account_id: account_id.clone(),
                player_number: freed[i],
            });
            assert(actions@ =~= spec_ended_penalties(account_id, freed@.take(i + 1)));
            i = i + 1;
        }
        assert(freed@.take(freed.len() as int) =~= freed@);
        actions
    }

    /// Both sides' players in the box serve a turn.
    pub fn reduce_penalty(&mut self) -> (actions: Vec<ActionData>)
        requires
            spec_serve_ready(old(self).user1.team),
            spec_serve_ready(old(self).user2.team),
        ensures
            exists|f1: Seq<u8>, f2: Seq<u8>|
                #![trigger spec_penalties_served(old(self).user1.team, final(self).user1.team, f1), spec_penalties_served(old(self).user2.team, final(self).user2.team, f2)]
                spec_penalties_served(old(self).user1.team, final(self).user1.team, f1)
                && spec_penalties_served(old(self).user2.team, final(self).user2.team, f2)
                && actions@ == spec_ended_penalties(old(self).user1.account_id, f1)
                    + spec_ended_penalties(old(self).user2.account_id, f2),
            *final(self) == (Game {
                user1: UserInfo { team: final(self).user1.team, ..old(self).user1 },
                user2: UserInfo { team: final(self).user2.team, ..old(self).user2 },
                ..*old(self)
            }),
    {
        let mut actions = self.reduce_user_player_penalty(USER_ID1);
        let ghost mid = *self;
        let mut second = self.reduce_user_player_penalty(USER_ID2);
        let ghost a1 = actions@;
        let ghost a2 = second@;
        actions.append(&mut second);
        assert(actions@ =~= a1 + a2);
        actions
    }

    /// The side `user_id` concedes a goal: a player listed for a small penalty is let
    /// off, or the first player in the box comes out (with his event).
    pub fn remove_penalty_players(&mut self, user_id: usize) -> (r: Option<ActionData>)
        requires
            spec_release_after_goal_ready(old(self).user(user_id).team),
        ensures
            exists|freed: Option<u8>|
                #[trigger] spec_release_after_goal(old(self).user(user_id).team, final(self).user(user_id).team, freed)
                && r == match freed {
                    Some(n) => Some(ActionData::EndedPenalty {
                        action_type: ActionTypes::EndedPenalty,
                        account_id: old(self).user(user_id).account_id,
                        player_number: n,
                    }),
                    None => None,
                },
            *final(self) == old(self).with_team(user_id, final(self).user(user_id).team),
    {
        let freed = if user_id == USER_ID1 {
            self.user1.team.release_after_goal()
        } else {
            self.user2.team.release_after_goal()
        };
        let account_id = self.get_user_info(user_id).account_id.clone();
        match freed {
            Some(n) => Some(ActionData::EndedPenalty {
                action_type: ActionTypes::EndedPenalty,
                account_id,
                player_number: n,
            }),
            None => None,
        }
    }

    /// Players of `user_id` come back on the ice after a penalty.
    pub fn put_players_on_field(&mut self, user_id: usize)
        requires
            spec_put_on_field_ready(old(self).user(user_id).team),
        ensures
            spec_put_on_field(old(self).user(user_id).team, final(self).user(user_id).team),
            *final(self) == old(self).with_team(user_id, final(self).user(user_id).team),
    {
        if user_id == USER_ID1 {
            self.user1.team.put_players_on_field();
        } else {
            self.user2.team.put_players_on_field();
        }
    }

    /// Sends the players `players_to_penalty` of `penalty_user_id` off for `penalty_time`
    /// turns against `user_id`, one after the other.
    pub fn dp(
        &mut self,
        players_to_penalty: &Vec<String>,
        user_id: usize,
        penalty_user_id: usize,
        penalty_time: u8,
    ) -> (actions: Vec<ActionData>)
        requires
            user_id == USER_ID1 || user_id == USER_ID2,
            penalty_user_id == USER_ID1 || penalty_user_id == USER_ID2,
            user_id != penalty_user_id,
            forall|k: int| 0 <= k < players_to_penalty.len() ==>
                old(self).penalty_possible(#[trigger] players_to_penalty@[k]@, penalty_user_id),
            spec_units_complete(old(self).user(user_id).team.fives@),
        ensures
            spec_penalty_sequence(*old(self), *final(self), players_to_penalty@, penalty_time, user_id, penalty_user_id),
            actions@ == spec_penalty_actions(*old(self), players_to_penalty@, penalty_time, penalty_user_id),
            forall|x: Seq<char>| #[trigger] old(self).penalty_possible(x, penalty_user_id) ==> final(self).penalty_possible(x, penalty_user_id),
            spec_units_complete(final(self).user(user_id).team.fives@),
            final(self).user(user_id).team.players_to_big_penalty == old(self).user(user_id).team.players_to_big_penalty,
            final(self).user(user_id).team.players_to_small_penalty == old(self).user(user_id).team.players_to_small_penalty,
    {
        let mut actions: Vec<ActionData> = Vec::new();
        let mut i: usize = 0;
        while i < players_to_penalty.len()
            invariant
                i <= players_to_penalty.len(),
                user_id == USER_ID1 || user_id == USER_ID2,
                penalty_user_id == USER_ID1 || penalty_user_id == USER_ID2,
                user_id != penalty_user_id,
                forall|k: int| 0 <= k < players_to_penalty.len() ==>
                    old(self).penalty_possible(#[trigger] players_to_penalty@[k]@, penalty_user_id),
                forall|x: Seq<char>| #[trigger] old(self).penalty_possible(x, penalty_user_id) ==> {
                    &&& self.penalty_possible(x, penalty_user_id)
                    &&& self.user(penalty_user_id).team.player(x).name == old(self).user(penalty_user_id).team.player(x).name
                    &&& self.user(penalty_user_id).team.player(x).img == old(self).user(penalty_user_id).team.player(x).img
                    &&& self.user(penalty_user_id).team.player(x).number == old(self).user(penalty_user_id).team.player(x).number
                },
                self.user(penalty_user_id).account_id == old(self).user(penalty_user_id).account_id,
                spec_units_complete(self.user(user_id).team.fives@),
                self.user(user_id).team.players_to_big_penalty == old(self).user(user_id).team.players_to_big_penalty,
                self.user(user_id).team.players_to_small_penalty == old(self).user(user_id).team.players_to_small_penalty,
                spec_penalty_sequence(*old(self), *self, players_to_penalty@.take(i as int), penalty_time, user_id, penalty_user_id),
                actions@ == spec_penalty_actions(*old(self), players_to_penalty@.take(i as int), penalty_time, penalty_user_id),
            decreases players_to_penalty.len() - i,
        {
            let ghost mid = *self;
            let id = &players_to_penalty[i];
            assert(old(self).penalty_possible(players_to_penalty@[i as int]@, penalty_user_id));
            let action = self.do_penalty(penalty_time, id, user_id, penalty_user_id);
            actions.push(action);
            proof {
                let done = players_to_penalty@.take(i + 1);
                assert(done.drop_last() =~= players_to_penalty@.take(i as int));
                assert(done.last() == *id);
                assert(spec_between_penalties(mid));
                assert(actions@ =~= spec_penalty_actions(*old(self), done, penalty_time, penalty_user_id));
            }
            i = i + 1;
        }
        assert(players_to_penalty@.take(players_to_penalty.len() as int) =~= players_to_penalty@);
        actions
    }

    /// `after` and `actions` are what the penalties of `penalty_user_id` give: the players
    /// listed for big, then for small penalties on the other side's lists are sent off from
    /// `penalty_user_id`'s team, and those lists are emptied.
    pub open spec fn spec_penalties_done(self, after: Game, actions: Seq<ActionData>, penalty_user_id: usize) -> bool {
        let user_id = spec_opponent_id(penalty_user_id);
        let big = self.user(user_id).team.players_to_big_penalty@;
        let small = self.user(user_id).team.players_to_small_penalty@;
        exists|g1: Game, g2: Game|
            #![trigger spec_between_penalties(g1), spec_between_penalties(g2)]
            spec_between_penalties(g1) && spec_between_penalties(g2)
            && spec_penalty_sequence(self, g1, big, BIG_PENALTY, user_id, penalty_user_id)
            && spec_penalty_sequence(g1, g2, small, SMALL_PENALTY, user_id, penalty_user_id)
            && after == g2.with_team(user_id, Team {
                players_to_big_penalty: after.user(user_id).team.players_to_big_penalty,
                players_to_small_penalty: after.user(user_id).team.players_to_small_penalty,
                ..g2.user(user_id).team
            })
            && after.user(user_id).team.players_to_big_penalty@.len() == 0
            && after.user(user_id).team.players_to_small_penalty@.len() == 0
            && actions == spec_penalty_actions(self, big, BIG_PENALTY, penalty_user_id)
                + spec_penalty_actions(g1, small, SMALL_PENALTY, penalty_user_id)
    }

    /// Whether the penalties of `penalty_user_id` can be given.
    pub open spec fn penalties_ready(self, penalty_user_id: usize) -> bool {
        let user_id = spec_opponent_id(penalty_user_id);
        let t = self.user(user_id).team;
        &&& penalty_user_id == USER_ID1 || penalty_user_id == USER_ID2
        &&& forall|k: int| 0 <= k < t.players_to_big_penalty.len() ==>
            self.penalty_possible(#[trigger] t.players_to_big_penalty@[k]@, penalty_user_id)
        &&& forall|k: int| 0 <= k < t.players_to_small_penalty.len() ==>
            self.penalty_possible(#[trigger] t.players_to_small_penalty@[k]@, penalty_user_id)
        &&& spec_units_complete(t.fives@)
    }

    /// Gives the penalties of `penalty_user_id` (see `spec_penalties_done`).
    pub fn do_penalties(&mut self, penalty_user_id: usize) -> (actions: Vec<ActionData>)
        requires
            old(self).penalties_ready(penalty_user_id),
        ensures
            old(self).spec_penalties_done(*final(self), actions@, penalty_user_id),
    {
        let user_id = if penalty_user_id == USER_ID1 { USER_ID2 } else { USER_ID1 };
        let big = copy_ids(&self.get_user_info(user_id).team.players_to_big_penalty);
        let mut actions = self.dp(&big, user_id, penalty_user_id, BIG_PENALTY);
        let ghost g1 = *self;
        let small = copy_ids(&self.get_user_info(user_id).team.players_to_small_penalty);
        proof {
            assert forall|k: int| 0 <= k < small.len() implies
                self.penalty_possible(#[trigger] small@[k]@, penalty_user_id) by {
                assert(old(self).penalty_possible(small@[k]@, penalty_user_id));
            }
        }
        let mut more = self.dp(&small, user_id, penalty_user_id, SMALL_PENALTY);
        let ghost g2 = *self;
        let ghost a1 = actions@;
        let ghost a2 = more@;
        actions.append(&mut more);
        if user_id == USER_ID1 {
            self.user1.team.players_to_small_penalty.clear();
            self.user1.team.players_to_big_penalty.clear();
        } else {
            self.user2.team.players_to_small_penalty.clear();
            self.user2.team.players_to_big_penalty.clear();
        }
        assert(actions@ =~= a1 + a2);
        assert(spec_between_penalties(g1) && spec_between_penalties(g2));
        actions
    }

    /// Whether the penalties after a turn can be given.
    pub open spec fn check_penalties_ready(self) -> bool {
        self.player_with_puck is Some ==> self.penalties_ready(spec_opponent_id(self.puck_user()))
    }

    /// `after` and `actions` are what the penalties after a turn give: nothing when nobody
    /// has the puck, else the penalties of the side without it.
    pub open spec fn spec_checked_penalties(self, after: Game, actions: Seq<ActionData>) -> bool {
        if self.player_with_puck is None {
            after == self && actions.len() == 0
        } else {
            self.spec_penalties_done(after, actions, spec_opponent_id(self.puck_user()))
        }
    }

    /// Gives the penalties after a turn.
    pub fn check_and_do_penalties(&mut self) -> (actions: Vec<ActionData>)
        requires
            old(self).check_penalties_ready(),
        ensures
            old(self).spec_checked_penalties(*final(self), actions@),
    {
        match &self.player_with_puck {
            None => Vec::new(),
            Some((user_id, _)) => {
                let opponent_id = if *user_id == USER_ID1 { USER_ID2 } else { USER_ID1 };
                self.do_penalties(opponent_id)
            },
        }
    }
}

} // verus!

use vstd::prelude::*;
use crate::game::action::{ActionData, ActionTypes, ShotAction};
use crate::game::brigades::{spec_lines_known, spec_players_in_fives, spec_lines};
use crate::game::engine::{Game, spec_opponent_id, spec_puck, USER_ID1, USER_ID2};
use crate::game::goal::{spec_goal_morale, spec_goal_morale_fits, spec_release_after_goal, spec_release_after_goal_ready,
    spec_put_on_field_ready};
use crate::game::goalie::{Goalie, spec_pass_coefficient};
use crate::game::player::PlayerPosition;
use crate::game::plays::spec_wins;
use crate::game::random_plays::spec_draw;
use crate::game::team::{Team, lemma_first_player_unique, lemma_player_found, spec_first_player, spec_has_player,
    spec_id_is, spec_player_index};
use crate::game::utils::{get_random_in_range, get_relative_field_player_stat, has_won, spec_random_in_range,
    spec_relative_stat};

verus! {

/// Chances, in percent, of a save and of a missed shot.
pub const PROBABILITY_SAVE: usize = 30;
pub const PROBABILITY_SHOT_MISSED: usize = 20;

/// A draw in `1..2` is always 1.
pub proof fn lemma_draw_one(b: u8)
    ensures
        spec_random_in_range(b, 1, 2) == 1,
{
    assert(b as int * 1 / 256 == 0);
}

/// A draw in `1..3` is 1 or 2.
pub proof fn lemma_draw_in_three(b: u8)
    ensures
        1 <= spec_random_in_range(b, 1, 3) <= 2,
{
    assert(0 <= b as int * 2 / 256 <= 1);
}

/// The goalie's rating against a shot, in thousandths: his reflexes weighted by his style
/// with his morale and strength.
pub open spec fn spec_goalie_rating(g: Goalie, pass_before_shot: bool) -> int {
    (g.stats.spec_reflexes() * 1000 / 7 * spec_pass_coefficient(g.player_role, pass_before_shot) / 100
        + g.stats.morale * 1000 + g.stats.spec_strength() * 1000 / 7) / 3
}

/// A change of the goal morale keeps who is in the team, and each player but for his
/// morale.
pub proof fn lemma_goal_morale_keeps(before: Team, after: Team, delta: int)
    requires
        spec_goal_morale(before, after, delta),
    ensures
        forall|x: Seq<char>| #[trigger] spec_has_player(after.field_players@, x) == spec_has_player(before.field_players@, x),
        forall|x: Seq<char>| spec_has_player(before.field_players@, x) ==>
            (#[trigger] after.player(x)).number == before.player(x).number,
        spec_release_after_goal_ready(before) ==> spec_release_after_goal_ready(after),
{
    assert forall|x: Seq<char>| #[trigger] spec_has_player(after.field_players@, x) == spec_has_player(before.field_players@, x) by {
        if spec_has_player(before.field_players@, x) {
            let k = choose|k: int| 0 <= k < before.field_players@.len() && spec_id_is(#[trigger] before.field_players@[k], x);
            assert(spec_id_is(after.field_players@[k], x));
        }
        if spec_has_player(after.field_players@, x) {
            let k = choose|k: int| 0 <= k < after.field_players@.len() && spec_id_is(#[trigger] after.field_players@[k], x);
            assert(spec_id_is(before.field_players@[k], x));
        }
    }
    assert forall|x: Seq<char>| spec_has_player(before.field_players@, x) implies
        (#[trigger] after.player(x)).number == before.player(x).number by {
        lemma_player_found(before.field_players@, x);
        let i = spec_player_index(before.field_players@, x);
        assert(spec_first_player(after.field_players@, x, i)) by {
            assert forall|k: int| 0 <= k < i implies !spec_id_is(#[trigger] after.field_players@[k], x) by {
                assert(!spec_id_is(before.field_players@[k], x));
            }
        }
        lemma_first_player_unique(after.field_players@, x, i);
    }
    if spec_release_after_goal_ready(before) {
        assert(spec_lines_known(after.fives@, after.field_players@) == spec_lines_known(before.fives@, before.field_players@));
    }
}

impl Game {
    /// The shooter's rating: his shooting.
    pub open spec fn shot_stat(self) -> int {
        spec_relative_stat(self.puck_player(), self.puck_player().stats.spec_shooting() * 250)
    }

    /// The blocker's rating: his shot blocking with his defensive awareness, weighted by
    /// his position.
    pub open spec fn block_stat(self) -> int {
        let o = self.opponent();
        spec_relative_stat(o, (o.stats.shot_blocking + o.stats.defensive_awareness) * 100) * self.opponent_coeff_pos().0 / 100
    }

    /// The goalie in the net the shot goes at.
    pub open spec fn opponent_goalie(self) -> Goalie {
        let t = self.user(spec_opponent_id(self.puck_user())).team;
        t.goalies.slot(t.active_goalie)->0
    }

    /// Whether the shot follows a pass.
    pub open spec fn pass_before_shot(self) -> bool {
        self.last_action is Pass
    }

    /// Whether the shot beats the goalie: always when the shooter's own side has pulled
    /// its goalie, otherwise when the shooter wins the duel.
    pub open spec fn shot_scores(self, seed: Seq<u8>) -> bool {
        self.user(self.puck_user()).is_goalie_out
            || spec_wins(seed, self.shot_stat(), spec_goalie_rating(self.opponent_goalie(), self.pass_before_shot()))
    }

    /// Where a missed shot goes: to the first user's right wing if he shot, to his right
    /// defender otherwise.
    pub open spec fn missed_position(self) -> PlayerPosition {
        if self.puck_user() == USER_ID1 { PlayerPosition::RightWing } else { PlayerPosition::RightDefender }
    }

    /// Where a rebound goes, drawn with byte 20 of the seed.
    pub open spec fn rebound_position(self, seed: Seq<u8>) -> PlayerPosition {
        let positions = if self.puck_user() == USER_ID1 {
            seq![PlayerPosition::LeftWing, PlayerPosition::RightWing, PlayerPosition::Center]
        } else {
            seq![PlayerPosition::LeftDefender, PlayerPosition::RightDefender, PlayerPosition::Center]
        };
        positions[spec_random_in_range(seed[20], 1, 3)]
    }

    /// Whether a shot can be played for the seed.
    pub open spec fn shot_ready(self, seed: Seq<u8>) -> bool {
        let u = self.puck_user();
        let o = spec_opponent_id(u);
        &&& self.duel_ready()
        &&& self.opponent().stats.shot_blocking + self.opponent().stats.defensive_awareness <= 255
        &&& spec_wins(seed, self.shot_stat(), self.block_stat()) ==> {
            if spec_draw(seed, 1) <= PROBABILITY_SHOT_MISSED {
                self.has_player_at(self.missed_position(), USER_ID1)
            } else {
                &&& !self.user(u).is_goalie_out ==> {
                    &&& self.user(o).team.goalies.slot(self.user(o).team.active_goalie) is Some
                    &&& self.opponent_goalie().player_role.is_goalie_role()
                }
                &&& if self.shot_scores(seed) {
                    &&& spec_goal_morale_fits(self.user(u).team, 2)
                    &&& spec_goal_morale_fits(self.user(o).team, -1)
                    &&& self.user(u).team.score < 255
                    &&& self.puck_player().name is Some
                    &&& self.puck_player().img is Some
                    &&& spec_release_after_goal_ready(self.user(o).team)
                } else {
                    spec_draw(seed, 2) > PROBABILITY_SAVE ==> self.has_player_at(self.rebound_position(seed), USER_ID1)
                }
            }
        }
    }

    /// `after` is the match once the side with the puck scores: it gains morale on the ice
    /// and a point; the other side loses morale on the ice and lets a player out of the
    /// penalty box (or off a small penalty), whose number is `freed`.
    pub open spec fn spec_goal_state(self, after: Game, freed: Option<u8>) -> bool {
        let u = self.puck_user();
        let o = spec_opponent_id(u);
        exists|t_u: Team, t_o: Team|
            #![trigger spec_goal_morale(self.user(u).team, t_u, 2), spec_goal_morale(self.user(o).team, t_o, -1)]
            spec_goal_morale(self.user(u).team, t_u, 2)
            && spec_goal_morale(self.user(o).team, t_o, -1)
            && spec_release_after_goal(t_o, after.user(o).team, freed)
            && after == self.with_team(u, Team { score: (t_u.score + 1) as u8, ..t_u }).with_team(o, after.user(o).team)
    }

    /// The goal event.
    pub open spec fn spec_goal_action(self) -> ActionData {
        let p = self.puck_player();
        ActionData::Goal {
            action_type: ActionTypes::Goal,
            account_id: self.user(self.puck_user()).account_id,
            player_name1: p.name->0,
            player_img: p.img->0,
            player_number1: p.number,
            player_name2: match self.last_action { ActionData::Pass { from_player_name, .. } => Some(from_player_name), _ => None },
            player_number2: match self.last_action { ActionData::Pass { from_player_number, .. } => Some(from_player_number), _ => None },
        }
    }

    /// `after` and `actions` are what a goal gives.
    pub open spec fn spec_goal(self, after: Game, actions: Seq<ActionData>) -> bool {
        exists|freed: Option<u8>|
            #[trigger] self.spec_goal_state(after, freed)
            && actions == (match freed {
                Some(n) => seq![ActionData::EndedPenalty {
                    action_type: ActionTypes::EndedPenalty,
                    account_id: self.user(spec_opponent_id(self.puck_user())).account_id,
                    player_number: n,
                }],
                None => Seq::empty(),
            }) + seq![self.spec_goal_action()]
    }

    /// `after` and `actions` are what a shot gives: blocked (the blocker takes the puck),
    /// missed (a player of the first user takes it), a goal, a save, or a rebound (a
    /// player of the first user takes it).
    pub open spec fn spec_shot(self, after: Game, actions: Seq<ActionData>, seed: Seq<u8>) -> bool {
        let u = self.puck_user();
        let o = spec_opponent_id(u);
        let p = self.puck_player();
        let first = ActionData::Shot {
            action_type: ActionTypes::Shot,
            account_id: self.user(u).account_id,
            player_number: p.number,
            player_position: self.puck_pos(),
        };
        if !spec_wins(seed, self.shot_stat(), self.block_stat()) {
            &&& after == (Game { player_with_puck: after.player_with_puck, ..self })
            &&& spec_puck(after.player_with_puck) == self.opponent_takes_puck()
            &&& actions == seq![first, ActionData::ShotBlocked {
                action_type: ActionTypes::ShotBlocked,
                account_id: self.user(o).account_id,
                player_number: self.opponent().number,
                player_position: self.opponent_pos(),
            }]
        } else if spec_draw(seed, 1) <= PROBABILITY_SHOT_MISSED {
            let id = self.id_by_pos(self.missed_position(), USER_ID1)->0;
            &&& after == (Game { player_with_puck: after.player_with_puck, ..self })
            &&& spec_puck(after.player_with_puck) == Some((USER_ID1, id))
            &&& actions == seq![first, ActionData::ShotMissed {
                action_type: ActionTypes::ShotMissed,
                account_id: self.user1.account_id,
                player_number: self.player_at(self.missed_position(), USER_ID1).number,
                player_position: self.user1.team.active_five.field_players.spec_find(id)->0,
            }]
        } else if self.shot_scores(seed) {
            exists|rest: Seq<ActionData>| #[trigger] self.spec_goal(after, rest) && actions == seq![first] + rest
        } else if spec_draw(seed, 2) <= PROBABILITY_SAVE {
            &&& after == self
            &&& actions == seq![first, ActionData::Save {
                action_type: ActionTypes::Save,
                account_id: self.user(o).account_id,
                goalie_number: self.opponent_goalie().number,
            }]
        } else {
            let id = self.id_by_pos(self.rebound_position(seed), USER_ID1)->0;
            &&& after == (Game { player_with_puck: after.player_with_puck, ..self })
            &&& spec_puck(after.player_with_puck) == Some((USER_ID1, id))
            &&& actions == seq![first, ActionData::Rebound {
                action_type: ActionTypes::Rebound,
                account_id: self.user1.account_id,
                goalie_number: self.opponent_goalie().number,
                player_number: self.player_at(self.rebound_position(seed), USER_ID1).number,
                player_position: self.user1.team.active_five.field_players.spec_find(id)->0,
            }]
        }
    }

    /// The puck goes to the player of the first user at `pos` (a missed shot or a rebound);
    /// returns his number and where he stands.
    fn puck_to_first_user(&mut self, pos: PlayerPosition) -> (r: (u8, PlayerPosition))
        requires
            old(self).has_player_at(pos, USER_ID1),
        ensures
            ({
                let id = old(self).id_by_pos(pos, USER_ID1)->0;
                &&& *final(self) == (Game { player_with_puck: final(self).player_with_puck, ..*old(self) })
                &&& spec_puck(final(self).player_with_puck) == Some((USER_ID1, id))
                &&& r.0 == old(self).player_at(pos, USER_ID1).number
                &&& r.1 == old(self).user1.team.active_five.field_players.spec_find(id)->0
            }),
    {
        let player_id = self.get_field_player_id_by_pos(&pos, USER_ID1);
        proof { self.lemma_player_at_found(pos, USER_ID1); }
        let user = self.get_user_info(USER_ID1);
        let player = user.team.get_field_player(&player_id);
        let player_position = user.team.get_field_player_pos(&player_id);
        let number = player.number;
        self.player_with_puck = Some((USER_ID1, player_id));
        (number, player_position)
    }

    /// The morale, score and penalty changes of a goal by the side with the puck.
    fn goal_bookkeeping(&mut self, user_id: usize) -> (freed: Option<u8>)
        requires
            old(self).duel_ready(),
            user_id == old(self).puck_user(),
            spec_goal_morale_fits(old(self).user(user_id).team, 2),
            spec_goal_morale_fits(old(self).user(spec_opponent_id(user_id)).team, -1),
            old(self).user(user_id).team.score < 255,
            spec_release_after_goal_ready(old(self).user(spec_opponent_id(user_id)).team),
        ensures
            old(self).spec_goal_state(*final(self), freed),
    {
        let ghost g0 = *self;
        if user_id == USER_ID1 {
            self.user1.team.change_goal_morale(2);
            self.user2.team.change_goal_morale(-1);
            let ghost t_u = self.user1.team;
            let ghost t_o = self.user2.team;
            self.user1.team.score = self.user1.team.score + 1;
            proof { lemma_goal_morale_keeps(g0.user2.team, self.user2.team, -1); }
            let freed = self.user2.team.release_after_goal();
            assert(spec_goal_morale(g0.user(user_id).team, t_u, 2));
            assert(spec_goal_morale(g0.user(spec_opponent_id(user_id)).team, t_o, -1));
            freed
        } else {
            self.user2.team.change_goal_morale(2);
            self.user1.team.change_goal_morale(-1);
            let ghost t_u = self.user2.team;
            let ghost t_o = self.user1.team;
            self.user2.team.score = self.user2.team.score + 1;
            proof { lemma_goal_morale_keeps(g0.user1.team, self.user1.team, -1); }
            let freed = self.user1.team.release_after_goal();
            assert(spec_goal_morale(g0.user(user_id).team, t_u, 2));
            assert(spec_goal_morale(g0.user(spec_opponent_id(user_id)).team, t_o, -1));
            freed
        }
    }

    /// The side with the puck scores.
    fn score_goal(&mut self) -> (actions: Vec<ActionData>)
        requires
            old(self).duel_ready(),
            spec_goal_morale_fits(old(self).user(old(self).puck_user()).team, 2),
            spec_goal_morale_fits(old(self).user(spec_opponent_id(old(self).puck_user())).team, -1),
            old(self).user(old(self).puck_user()).team.score < 255,
            old(self).puck_player().name is Some,
            old(self).puck_player().img is Some,
            spec_release_after_goal_ready(old(self).user(spec_opponent_id(old(self).puck_user())).team),
        ensures
            old(self).spec_goal(*final(self), actions@),
    {
        let player_with_puck = self.get_player_with_puck();
        let name = player_with_puck.name.clone().unwrap();
        let img = player_with_puck.img.clone().unwrap();
        let number = player_with_puck.number;
        let user_id = player_with_puck.get_user_id();
        let (player_name2, player_number2) = match &self.last_action {
            ActionData::Pass { from_player_name, from_player_number, .. } =>
                (Some(from_player_name.clone()), Some(*from_player_number)),
            _ => (None, None),
        };
        let account_id = self.get_user_info(user_id).account_id.clone();
        let opponent_account_id = self.get_opponent_info(user_id).account_id.clone();
        let goal = ActionData::Goal {
            action_type: ActionTypes::Goal,
            account_id,
            player_name1: name,
            player_img: img,
            player_number1: number,
            player_name2,
            player_number2,
        };
        assert(goal == old(self).spec_goal_action());
        let freed = self.goal_bookkeeping(user_id);
        let mut actions: Vec<ActionData> = Vec::new();
        match freed {
            Some(n) => {
                actions.push(ActionData::EndedPenalty {
                    action_type: ActionTypes::EndedPenalty,
                    account_id: opponent_account_id,
                    player_number: n,
                });
            },
            None => {},
        }
        actions.push(goal);
        proof {
            let ended = match freed {
                Some(n) => seq![ActionData::EndedPenalty {
                    action_type: ActionTypes::EndedPenalty,
                    account_id: old(self).user(spec_opponent_id(user_id)).account_id,
                    player_number: n,
                }],
                None => Seq::<ActionData>::empty(),
            };
            assert(actions@ =~= ended + seq![old(self).spec_goal_action()]);
        }
        actions
    }
}

impl ShotAction {
    /// The player with the puck shoots: the shot may be blocked, miss, beat the goalie,
    /// be saved or give a rebound.
    #[verifier::rlimit(60)]
    pub fn do_action(&self, game: &mut Game, seed: &Vec<u8>) -> (actions: Vec<ActionData>)
        requires
            seed.len() > 21,
            old(game).shot_ready(seed@),
        ensures
            old(game).spec_shot(*final(game), actions@, seed@),
    {
        let (coeff, opponent) = game.get_opponent_field_player();
        let blocking: u8 = opponent.stats.shot_blocking + opponent.stats.defensive_awareness;
        let opponent_stat = get_relative_field_player_stat(opponent, blocking as u64 * 100) * coeff as u64 / 100;
        let player_with_puck = game.get_player_with_puck();
        let player_stat = get_relative_field_player_stat(player_with_puck, player_with_puck.stats.get_shooting() as u64 * 250);
        let user_id = player_with_puck.get_user_id();
        let user = game.get_user_info(user_id);
        proof { game.lemma_puck_pos(); }
        let player_position = user.team.get_field_player_pos(&player_with_puck.get_player_id());
        let first = ActionData::Shot {
            action_type: ActionTypes::Shot,
            account_id: user.account_id.clone(),
            player_number: player_with_puck.number,
            player_position,
        };
        let mut actions: Vec<ActionData> = Vec::new();
        actions.push(first);
        if !has_won(seed, player_stat, opponent_stat) {
            let opponent_user = game.get_opponent_info(user_id);
            let opponent_id = opponent.get_player_id();
            proof { game.lemma_opponent_pos(); }
            let opponent_position = opponent_user.team.get_field_player_pos(&opponent_id);
            actions.push(ActionData::ShotBlocked {
                action_type: ActionTypes::ShotBlocked,
                account_id: opponent_user.account_id.clone(),
                player_number: opponent.number,
                player_position: opponent_position,
            });
            game.player_with_puck = Some((opponent.get_user_id(), opponent_id));
            assert(actions@ =~= seq![actions@[0], actions@[1]]);
            return actions;
        }
        let rnd_missed = get_random_in_range(seed, 1, 100, 1);
        if PROBABILITY_SHOT_MISSED >= rnd_missed {
            let random_user_id = get_random_in_range(seed, 1, 2, 19);
            let positions = if random_user_id == user_id {
                vec![PlayerPosition::LeftWing, PlayerPosition::RightWing]
            } else {
                vec![PlayerPosition::LeftDefender, PlayerPosition::RightDefender]
            };
            let rnd = get_random_in_range(seed, 1, 2, 21);
            let random_position = positions[rnd];
            let account_id = game.user1.account_id.clone();
            let (number, position) = game.puck_to_first_user(random_position);
            actions.push(ActionData::ShotMissed {
                action_type: ActionTypes::ShotMissed,
                account_id,
                player_number: number,
                player_position: position,
            });
            assert(actions@ =~= seq![actions@[0], actions@[1]]);
            return actions;
        }
        let goalie_out = if user_id == USER_ID1 { game.user1.is_goalie_out } else { game.user2.is_goalie_out };
        if goalie_out {
            let mut rest = game.score_goal();
            actions.append(&mut rest);
            return actions;
        }
        let user_opponent = game.get_opponent_info(user_id);
        let opponent_goalie = user_opponent.team.goalies.get(&user_opponent.team.active_goalie);
        let pass_before_shot = match game.last_action {
            ActionData::Pass { .. } => true,
            _ => false,
        };
        let reflexes = opponent_goalie.get_reflexes_rel_pass(pass_before_shot);
        let goalie_stat: u64 = (reflexes + opponent_goalie.stats.morale as u64 * 1000
            + opponent_goalie.stats.get_strength() as u64 * 1000 / 7) / 3;
        if has_won(seed, player_stat, goalie_stat) {
            let mut rest = game.score_goal();
            actions.append(&mut rest);
            return actions;
        }
        let goalie_number = opponent_goalie.number;
        let rnd_save = get_random_in_range(seed, 1, 100, 2);
        if PROBABILITY_SAVE >= rnd_save {
            actions.push(ActionData::Save {
                action_type: ActionTypes::Save,
                account_id: user_opponent.account_id.clone(),
                goalie_number,
            });
            assert(actions@ =~= seq![actions@[0], actions@[1]]);
            return actions;
        }
        let random_user_id = get_random_in_range(seed, 1, 2, 19);
        let positions = if random_user_id == user_id {
            vec![PlayerPosition::LeftWing, PlayerPosition::RightWing, PlayerPosition::Center]
        } else {
            vec![PlayerPosition::LeftDefender, PlayerPosition::RightDefender, PlayerPosition::Center]
        };
        let rnd = get_random_in_range(seed, 1, 3, 20);
        let random_position = positions[rnd];
        let account_id = game.user1.account_id.clone();
        let (number, position) = game.puck_to_first_user(random_position);
        actions.push(ActionData::Rebound {
            action_type: ActionTypes::Rebound,
            account_id,
            goalie_number,
            player_number: number,
            player_position: position,
        });
        assert(actions@ =~= seq![actions@[0], actions@[1]]);
        actions
    }
}

} // verus!

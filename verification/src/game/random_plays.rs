use vstd::prelude::*;
use crate::game::action::{ActionData, ActionTypes};
use crate::game::engine::{Game, UserInfo, spec_opponent_id, spec_puck, USER_ID1};
use crate::game::field_player::FieldPlayer;
use crate::game::plays::{spec_wins};
use crate::game::team::Team;
use crate::game::utils::{get_random_in_range, has_won, spec_random_in_range};

verus! {

/// Chances, in percent, of the random events of a turn.
pub const PROBABILITY_GIVEAWAY: usize = 6;
pub const PROBABILITY_TAKEAWAY: usize = 15;
pub const PROBABILITY_BIG_PENALTY: usize = 1;
pub const PROBABILITY_SMALL_PENALTY: usize = 10;
pub const PROBABILITY_BATTLE: usize = 20;

/// Turns a player spends in the penalty box for a small and for a big penalty.
pub const SMALL_PENALTY: u8 = 5;
pub const BIG_PENALTY: u8 = 12;

/// The draw, in 1..100, that byte `index` of the seed gives.
pub open spec fn spec_draw(seed: Seq<u8>, index: int) -> int {
    spec_random_in_range(seed[index], 1, 100)
}

/// The player with the puck loses it to the opponent facing him.
pub struct Giveaway;

/// The opponent facing the player with the puck takes it from him.
pub struct Takeaway;

/// The puck leaves the rink.
pub struct PuckOut;

/// A penalty of twelve turns.
pub struct BigPenalty;

/// A penalty of five turns.
pub struct SmallPenalty;

/// The player with the puck and the opponent facing him fight.
pub struct Fight;

/// The net comes off its moorings.
pub struct NetOff;

impl Game {
    /// The match with the side of `user_id` replaced by `u`.
    pub open spec fn with_user(self, user_id: usize, u: UserInfo) -> Game {
        if user_id == USER_ID1 { Game { user1: u, ..self } } else { Game { user2: u, ..self } }
    }

    /// The match with the team of `user_id` replaced by `t`.
    pub open spec fn with_team(self, user_id: usize, t: Team) -> Game {
        self.with_user(user_id, UserInfo { team: t, ..self.user(user_id) })
    }

    /// Lists the player `id` of `user_id` for a big penalty.
    pub fn move_player_to_big_penalties(&mut self, id: String, user_id: usize)
        ensures
            *final(self) == old(self).with_team(user_id, Team {
                players_to_big_penalty: final(self).user(user_id).team.players_to_big_penalty,
                ..old(self).user(user_id).team
            }),
            final(self).user(user_id).team.players_to_big_penalty@
                == old(self).user(user_id).team.players_to_big_penalty@.push(id),
    {
        if user_id == USER_ID1 {
            self.user1.team.players_to_big_penalty.push(id);
        } else {
            self.user2.team.players_to_big_penalty.push(id);
        }
    }

    /// Lists the player `id` of `user_id` for a small penalty.
    pub fn move_player_to_small_penalties(&mut self, id: String, user_id: usize)
        ensures
            *final(self) == old(self).with_team(user_id, Team {
                players_to_small_penalty: final(self).user(user_id).team.players_to_small_penalty,
                ..old(self).user(user_id).team
            }),
            final(self).user(user_id).team.players_to_small_penalty@
                == old(self).user(user_id).team.players_to_small_penalty@.push(id),
    {
        if user_id == USER_ID1 {
            self.user1.team.players_to_small_penalty.push(id);
        } else {
            self.user2.team.players_to_small_penalty.push(id);
        }
    }

    /// Whether the player with the puck can be sent to a penalty shot: he has a name and
    /// an image, and the goalie in the other net has them too.
    pub open spec fn penalty_shot_ready(self) -> bool {
        let p = self.puck_player();
        let opponent = self.user(spec_opponent_id(p.user_id->0));
        &&& p.name is Some
        &&& p.img is Some
        &&& opponent.team.goalies.slot(opponent.team.active_goalie) matches Some(g)
            && g.name is Some && g.img is Some
    }

    /// The penalty shot awarded to the player with the puck, against the goalie in the
    /// other net.
    pub open spec fn spec_penalty_shot_action(self) -> ActionData {
        let p = self.puck_player();
        let opponent = self.user(spec_opponent_id(p.user_id->0));
        let g = opponent.team.goalies.slot(opponent.team.active_goalie)->0;
        ActionData::PenaltyShot {
            action_type: ActionTypes::PenaltyShot,
            account_id1: self.user(p.user_id->0).account_id,
            player_name: p.name->0,
            player_img: p.img->0,
            player_number: p.number,
            account_id2: opponent.account_id,
            goalie_name: g.name->0,
            goalie_img: g.img->0,
            goalie_number: g.number,
        }
    }

    /// The penalty shot awarded to `player_with_puck`.
    pub fn generate_penalty_shot_action(&self, player_with_puck: &FieldPlayer) -> (r: ActionData)
        requires
            self.duel_ready(),
            *player_with_puck == self.puck_player(),
            self.penalty_shot_ready(),
        ensures
            r == self.spec_penalty_shot_action(),
    {
        let user = self.get_user_info(player_with_puck.get_user_id());
        let opponent = self.get_opponent_info(player_with_puck.get_user_id());
        let goalie = opponent.team.goalies.get(&opponent.team.active_goalie);
        ActionData::PenaltyShot {
            action_type: ActionTypes::PenaltyShot,
            account_id1: user.account_id.clone(),
            player_name: player_with_puck.name.clone().unwrap(),
            player_img: player_with_puck.img.clone().unwrap(),
            player_number: player_with_puck.number,
            account_id2: opponent.account_id.clone(),
            goalie_name: goalie.name.clone().unwrap(),
            goalie_img: goalie.img.clone().unwrap(),
            goalie_number: goalie.number,
        }
    }
}

impl Giveaway {
    /// A giveaway happens on a draw of at most 6 from byte 11 of the seed.
    pub fn check_probability(&self, seed: &Vec<u8>) -> (b: bool)
        requires
            seed.len() > 11,
        ensures
            b == (spec_draw(seed@, 11) <= PROBABILITY_GIVEAWAY),
    {
        let rnd = get_random_in_range(seed, 1, 100, 11);
        PROBABILITY_GIVEAWAY >= rnd
    }

    /// The player with the puck loses it: on a draw of at most 20 from byte 12 of the
    /// seed the two players battle for it, otherwise the opponent facing him takes it.
    pub fn do_action(&self, game: &mut Game, seed: &Vec<u8>) -> (actions: Vec<ActionData>)
        requires
            seed.len() > 19,
            old(game).duel_ready(),
            spec_draw(seed@, 12) <= PROBABILITY_BATTLE ==> old(game).battle_ready(),
        ensures
            spec_draw(seed@, 12) <= PROBABILITY_BATTLE ==> old(game).spec_battle(*final(game), actions@, seed@),
            spec_draw(seed@, 12) > PROBABILITY_BATTLE ==> old(game).spec_puck_lost(*final(game), actions@, ActionTypes::Giveaway),
    {
        let rnd = get_random_in_range(seed, 1, 100, 12);
        if PROBABILITY_BATTLE >= rnd {
            game.battle(seed)
        } else {
            game.lose_puck(ActionTypes::Giveaway)
        }
    }
}

impl Takeaway {
    /// A takeaway happens on a draw of at most 15 from byte 13 of the seed.
    pub fn check_probability(&self, seed: &Vec<u8>) -> (b: bool)
        requires
            seed.len() > 13,
        ensures
            b == (spec_draw(seed@, 13) <= PROBABILITY_TAKEAWAY),
    {
        let rnd = get_random_in_range(seed, 1, 100, 13);
        PROBABILITY_TAKEAWAY >= rnd
    }

    /// The opponent goes for the puck: on a draw of at most 20 from byte 14 of the seed
    /// the two players battle for it, otherwise he takes it.
    pub fn do_action(&self, game: &mut Game, seed: &Vec<u8>) -> (actions: Vec<ActionData>)
        requires
            seed.len() > 19,
            old(game).duel_ready(),
            spec_draw(seed@, 14) <= PROBABILITY_BATTLE ==> old(game).battle_ready(),
        ensures
            spec_draw(seed@, 14) <= PROBABILITY_BATTLE ==> old(game).spec_battle(*final(game), actions@, seed@),
            spec_draw(seed@, 14) > PROBABILITY_BATTLE ==> old(game).spec_puck_lost(*final(game), actions@, ActionTypes::Takeaway),
    {
        let rnd = get_random_in_range(seed, 1, 100, 14);
        if PROBABILITY_BATTLE >= rnd {
            game.battle(seed)
        } else {
            game.lose_puck(ActionTypes::Takeaway)
        }
    }
}

impl PuckOut {
    /// The chance of the puck leaving the rink is a half percent, compared with a draw
    /// of at least 1: it never happens.
    pub fn check_probability(&self, seed: &Vec<u8>) -> (b: bool)
        requires
            seed.len() > 15,
        ensures
            !b,
    {
        let _rnd = get_random_in_range(seed, 1, 100, 15);
        false
    }

    pub fn do_action(&self) -> (actions: Vec<ActionData>)
        ensures
            actions@ == seq![ActionData::PuckOut { action_type: ActionTypes::PuckOut }],
    {
        vec![ActionData::PuckOut { action_type: ActionTypes::PuckOut }]
    }
}

impl NetOff {
    /// The chance of the net coming off is one percent, compared with a draw of at
    /// least 1: it never happens.
    pub fn check_probability(&self, seed: &Vec<u8>, zone_number: i8) -> (b: bool)
        requires
            seed.len() > 18,
        ensures
            !b,
    {
        let _rnd = get_random_in_range(seed, 1, 100, 18);
        false
    }

    pub fn do_action(&self) -> (actions: Vec<ActionData>)
        ensures
            actions@ == seq![ActionData::NetOff { action_type: ActionTypes::NetOff }],
    {
        vec![ActionData::NetOff { action_type: ActionTypes::NetOff }]
    }
}

impl Fight {
    /// The chance of a fight is a quarter of a percent, compared with a draw of at
    /// least 1 from byte 11 of the seed: it never happens.
    pub fn check_probability(&self, seed: &Vec<u8>) -> (b: bool)
        requires
            seed.len() > 11,
        ensures
            !b,
    {
        let _rnd = get_random_in_range(seed, 1, 100, 11);
        false
    }
}

impl BigPenalty {
    /// A big penalty happens on a draw of at most 1 from byte 16 of the seed.
    pub fn check_probability(&self, seed: &Vec<u8>) -> (b: bool)
        requires
            seed.len() > 16,
        ensures
            b == (spec_draw(seed@, 16) <= PROBABILITY_BIG_PENALTY),
    {
        let rnd = get_random_in_range(seed, 1, 100, 16);
        PROBABILITY_BIG_PENALTY >= rnd
    }

    /// Someone breaks the rules, the more disciplined player winning the duel: if the
    /// player with the puck wins, his opponent is listed for a big penalty, or, right
    /// after a move or a dangle, he gets a penalty shot; otherwise he is listed himself
    /// and the opponent takes the puck.
    pub fn do_action(&self, game: &mut Game, seed: &Vec<u8>) -> (actions: Vec<ActionData>)
        requires
            seed.len() > 19,
            old(game).duel_ready(),
            old(game).penalty_ready(seed@),
        ensures
            old(game).spec_penalty_called(*final(game), actions@, seed@, true),
    {
        game.call_penalty(seed, true)
    }
}

impl SmallPenalty {
    /// A small penalty happens on a draw of at most 10 from byte 17 of the seed.
    pub fn check_probability(&self, seed: &Vec<u8>) -> (b: bool)
        requires
            seed.len() > 17,
        ensures
            b == (spec_draw(seed@, 17) <= PROBABILITY_SMALL_PENALTY),
    {
        let rnd = get_random_in_range(seed, 1, 100, 17);
        PROBABILITY_SMALL_PENALTY >= rnd
    }

    /// As a big penalty, with the players listed for a small penalty.
    pub fn do_action(&self, game: &mut Game, seed: &Vec<u8>) -> (actions: Vec<ActionData>)
        requires
            seed.len() > 19,
            old(game).duel_ready(),
            old(game).penalty_ready(seed@),
        ensures
            old(game).spec_penalty_called(*final(game), actions@, seed@, false),
    {
        game.call_penalty(seed, false)
    }
}

impl Game {
    /// Whether a battle for the puck can be played: the ratings summed by each player fit
    /// in a byte.
    pub open spec fn battle_ready(self) -> bool {
        let p = self.puck_player();
        let o = self.opponent();
        &&& p.stats.puck_control + p.stats.aggressiveness + p.stats.strength <= 255
        &&& o.stats.puck_control + o.stats.aggressiveness + o.stats.strength <= 255
    }

    /// `after` and `actions` are what the battle for the puck gives.
    pub open spec fn spec_battle(self, after: Game, actions: Seq<ActionData>, seed: Seq<u8>) -> bool {
        let p = self.puck_player();
        let o = self.opponent();
        let user = self.user(p.user_id->0);
        let opponent_user = self.user(o.user_id->0);
        let first = ActionData::Battle {
            action_type: ActionTypes::Battle,
            account_id1: user.account_id,
            player_number1: p.number,
            player_position1: self.puck_pos(),
            account_id2: opponent_user.account_id,
            player_number2: o.number,
            player_position2: self.opponent_pos(),
        };
        if self.opponent_wins_battle(seed) {
            &&& after == (Game { player_with_puck: after.player_with_puck, ..self })
            &&& spec_puck(after.player_with_puck) == self.opponent_takes_puck()
            &&& actions == seq![first, ActionData::BattleWon {
                action_type: ActionTypes::BattleWon,
                account_id: opponent_user.account_id,
                player_number: o.number,
                player_position: self.opponent_pos(),
            }]
        } else {
            &&& after == self
            &&& actions == seq![first, ActionData::BattleWon {
                action_type: ActionTypes::BattleWon,
                account_id: user.account_id,
                player_number: p.number,
                player_position: self.puck_pos(),
            }]
        }
    }

    /// `after` and `actions` are what a giveaway or a takeaway (`kind`) without a battle
    /// gives: the opponent facing the player with the puck takes it.
    pub open spec fn spec_puck_lost(self, after: Game, actions: Seq<ActionData>, kind: ActionTypes) -> bool {
        let p = self.puck_player();
        let o = self.opponent();
        let user = self.user(p.user_id->0);
        let opponent_user = self.user(o.user_id->0);
        &&& after == (Game { player_with_puck: after.player_with_puck, ..self })
        &&& spec_puck(after.player_with_puck) == self.opponent_takes_puck()
        &&& actions == seq![if kind == ActionTypes::Giveaway {
            ActionData::Giveaway {
                action_type: ActionTypes::Giveaway,
                account_id1: user.account_id,
                player_number1: p.number,
                player_position1: self.puck_pos(),
                account_id2: opponent_user.account_id,
                player_number2: o.number,
                player_position2: self.opponent_pos(),
            }
        } else {
            ActionData::Takeaway {
                action_type: ActionTypes::Takeaway,
                account_id1: user.account_id,
                player_number1: p.number,
                player_position1: self.puck_pos(),
                account_id2: opponent_user.account_id,
                player_number2: o.number,
                player_position2: self.opponent_pos(),
            }
        }]
    }

    /// The opponent facing the player with the puck takes it; the event is a giveaway or
    /// a takeaway (`kind`).
    pub fn lose_puck(&mut self, kind: ActionTypes) -> (actions: Vec<ActionData>)
        requires
            old(self).duel_ready(),
            kind == ActionTypes::Giveaway || kind == ActionTypes::Takeaway,
        ensures
            old(self).spec_puck_lost(*final(self), actions@, kind),
    {
        let player_with_puck = self.get_player_with_puck();
        let user = self.get_user_info(player_with_puck.get_user_id());
        proof { self.lemma_puck_pos(); }
        let player_with_puck_position = user.team.get_field_player_pos(&player_with_puck.get_player_id());
        let (_coeff, opponent_player) = self.get_opponent_field_player();
        let opponent_user = self.get_user_info(opponent_player.get_user_id());
        let opponent_id = opponent_player.get_player_id();
        proof { self.lemma_opponent_pos(); }
        let opponent_player_position = opponent_user.team.get_field_player_pos(&opponent_id);
        let action = match kind {
            ActionTypes::Giveaway => ActionData::Giveaway {
                action_type: ActionTypes::Giveaway,
                account_id1: user.account_id.clone(),
                player_number1: player_with_puck.number,
                player_position1: player_with_puck_position,
                account_id2: opponent_user.account_id.clone(),
                player_number2: opponent_player.number,
                player_position2: opponent_player_position,
            },
            _ => ActionData::Takeaway {
                action_type: ActionTypes::Takeaway,
                account_id1: user.account_id.clone(),
                player_number1: player_with_puck.number,
                player_position1: player_with_puck_position,
                account_id2: opponent_user.account_id.clone(),
                player_number2: opponent_player.number,
                player_position2: opponent_player_position,
            },
        };
        self.player_with_puck = Some((opponent_player.get_user_id(), opponent_id));
        let mut actions: Vec<ActionData> = Vec::new();
        actions.push(action);
        actions
    }

    /// Whether the last event was a move or a dangle.
    pub open spec fn after_move_or_dangle(self) -> bool {
        self.last_action is Move || self.last_action is Dangle
    }

    /// Whether the player with the puck wins the discipline duel of a penalty.
    pub open spec fn puck_keeps_discipline(self, seed: Seq<u8>) -> bool {
        spec_wins(seed, self.puck_player().stats.discipline * 1000, self.opponent().stats.discipline * 1000)
    }

    /// Whether a penalty can be called: a penalty shot, if it comes to that, has its
    /// names and images.
    pub open spec fn penalty_ready(self, seed: Seq<u8>) -> bool {
        self.puck_keeps_discipline(seed) && self.after_move_or_dangle() ==> self.penalty_shot_ready()
    }

    /// `after` is the match with the player `id` of `user_id` listed for a big (`big`) or
    /// a small penalty, and nothing else changed but possibly the player with the puck.
    pub open spec fn spec_listed(self, after: Game, user_id: usize, id: String, big: bool) -> bool {
        let team = self.user(user_id).team;
        let new_team = after.user(user_id).team;
        &&& (Game { player_with_puck: self.player_with_puck, ..after }) == self.with_team(user_id, new_team)
        &&& if big {
            &&& new_team == (Team { players_to_big_penalty: new_team.players_to_big_penalty, ..team })
            &&& new_team.players_to_big_penalty@ == team.players_to_big_penalty@.push(id)
        } else {
            &&& new_team == (Team { players_to_small_penalty: new_team.players_to_small_penalty, ..team })
            &&& new_team.players_to_small_penalty@ == team.players_to_small_penalty@.push(id)
        }
    }

    /// `after` and `actions` are what calling a big (`big`) or a small penalty gives: the
    /// more disciplined player wins the duel; if it is the player with the puck, his
    /// opponent is listed for the penalty, or, right after a move or a dangle, he is
    /// awarded a penalty shot; otherwise he is listed himself and the opponent takes the
    /// puck. The signal names a big penalty in both cases.
    pub open spec fn spec_penalty_called(self, after: Game, actions: Seq<ActionData>, seed: Seq<u8>, big: bool) -> bool {
        let p = self.puck_player();
        let o = self.opponent();
        let signal = ActionData::DelayedPenaltySignal {
            action_type: ActionTypes::DelayedPenaltySignal,
            type_of_penalty: ActionTypes::BigPenalty,
        };
        if self.puck_keeps_discipline(seed) {
            if self.after_move_or_dangle() {
                &&& after == self
                &&& actions == seq![self.spec_penalty_shot_action()]
            } else {
                &&& actions == seq![signal]
                &&& self.spec_listed(after, o.user_id->0, o.id->0, big)
                &&& after.player_with_puck == self.player_with_puck
            }
        } else {
            &&& actions == seq![signal]
            &&& self.spec_listed(after, p.user_id->0, p.id->0, big)
            &&& spec_puck(after.player_with_puck) == self.opponent_takes_puck()
        }
    }

    /// Calls a big (`big`) or a small penalty.
    pub fn call_penalty(&mut self, seed: &Vec<u8>, big: bool) -> (actions: Vec<ActionData>)
        requires
            seed.len() > 19,
            old(self).duel_ready(),
            old(self).penalty_ready(seed@),
        ensures
            old(self).spec_penalty_called(*final(self), actions@, seed@, big),
    {
        let player_with_puck = self.get_player_with_puck();
        let (_coeff, opponent_player) = self.get_opponent_field_player();
        let player_stat1: u64 = player_with_puck.stats.discipline as u64 * 1000;
        let player_stat2: u64 = opponent_player.stats.discipline as u64 * 1000;
        if has_won(seed, player_stat1, player_stat2) {
            match self.last_action {
                ActionData::Move { .. } | ActionData::Dangle { .. } => {
                    let shot = self.generate_penalty_shot_action(player_with_puck);
                    let mut actions: Vec<ActionData> = Vec::new();
                    actions.push(shot);
                    return actions;
                },
                _ => {},
            }
            let penalty_player_id = opponent_player.get_player_id();
            let penalty_user_id = opponent_player.get_user_id();
            if big {
                self.move_player_to_big_penalties(penalty_player_id, penalty_user_id);
            } else {
                self.move_player_to_small_penalties(penalty_player_id, penalty_user_id);
            }
        } else {
            let opponent_player_id = opponent_player.get_player_id();
            let user_id = opponent_player.get_user_id();
            let penalty_player_id = player_with_puck.get_player_id();
            let penalty_user_id = player_with_puck.get_user_id();
            if big {
                self.move_player_to_big_penalties(penalty_player_id, penalty_user_id);
            } else {
                self.move_player_to_small_penalties(penalty_player_id, penalty_user_id);
            }
            self.player_with_puck = Some((user_id, opponent_player_id));
        }
        let mut actions: Vec<ActionData> = Vec::new();
        actions.push(ActionData::DelayedPenaltySignal {
            action_type: ActionTypes::DelayedPenaltySignal,
            type_of_penalty: ActionTypes::BigPenalty,
        });
        actions
    }
}

} // verus!

use vstd::prelude::*;
use crate::game::action::{ActionData, ActionTypes};
use crate::game::engine::{Game, spec_opponent_id, USER_ID1, USER_ID2};
use crate::game::morale::{spec_morale_changed, spec_morale_fits, lemma_morale_keeps_players};
use crate::game::random_plays::{Fight, BIG_PENALTY};
use crate::game::plays::spec_wins;
use crate::game::team::{Team, lemma_player_found};
use crate::game::brigades::spec_units_complete;
use crate::game::utils::{get_relative_field_player_stat, has_won, spec_relative_stat};

verus! {

/// The penalty event `a` marked as coming from a fight.
pub open spec fn spec_fight_penalty(a: ActionData) -> ActionData {
    match a {
        ActionData::Penalty { action_type, account_id, is_fight, player_img, player_name, player_number } =>
            ActionData::Penalty { action_type, account_id, is_fight: true, player_img, player_name, player_number },
        _ => a,
    }
}

/// Marks a penalty event as coming from a fight.
pub fn get_penalty_by_fight_action(action_data: ActionData) -> (r: ActionData)
    requires
        action_data is Penalty,
    ensures
        r == spec_fight_penalty(action_data),
{
    match action_data {
        ActionData::Penalty { action_type, account_id, is_fight: _, player_img, player_name, player_number } =>
            ActionData::Penalty { action_type, account_id, is_fight: true, player_img, player_name, player_number },
        other => other,
    }
}

impl Game {
    /// Whether the opponent facing the player with the puck wins the fight.
    pub open spec fn opponent_wins_fight(self, seed: Seq<u8>) -> bool {
        let p = self.puck_player();
        let o = self.opponent();
        spec_wins(
            seed,
            spec_relative_stat(o, o.stats.fighting_skill * 1000) * self.opponent_coeff_pos().0 / 100,
            spec_relative_stat(p, p.stats.fighting_skill * 1000),
        )
    }

    /// The change of morale a fight brings: the winner's team gains 2 per position; when
    /// the player with the puck loses, his own team gains as well, and when he wins, the
    /// other team loses 3 per position.
    pub open spec fn spec_fight_morale(self, after: Game, seed: Seq<u8>) -> bool {
        self.spec_fight_morale_by(after, self.puck_player().user_id->0, self.opponent_wins_fight(seed))
    }

    /// The change of morale after a fight of a player of `u` that the other side wins
    /// (`opponent_wins`) or loses.
    pub open spec fn spec_fight_morale_by(self, after: Game, u: usize, opponent_wins: bool) -> bool {
        let o = spec_opponent_id(u);
        &&& spec_morale_changed(self.user(u).team, after.user(u).team, 2)
        &&& spec_morale_changed(self.user(o).team, after.user(o).team, if opponent_wins { 2int } else { -3int })
        &&& after == self.with_team(o, after.user(o).team).with_team(u, after.user(u).team)
    }

    /// A change of morale after a fight keeps who can be sent off, and each player but
    /// for his morale.
    pub proof fn lemma_fight_morale_keeps(self, after: Game, u: usize, opponent_wins: bool)
        requires
            u == USER_ID1 || u == USER_ID2,
            self.spec_fight_morale_by(after, u, opponent_wins),
        ensures
            forall|x: Seq<char>, v: usize| (v == USER_ID1 || v == USER_ID2) && #[trigger] self.penalty_possible(x, v)
                ==> after.penalty_possible(x, v),
            forall|x: Seq<char>, v: usize| (v == USER_ID1 || v == USER_ID2) && #[trigger] self.penalty_possible(x, v)
                ==> after.user(v).team.player(x).id == self.user(v).team.player(x).id
                && after.user(v).team.player(x).name == self.user(v).team.player(x).name
                && after.user(v).team.player(x).img == self.user(v).team.player(x).img
                && after.user(v).team.player(x).number == self.user(v).team.player(x).number,
            after.user(USER_ID1).account_id == self.user(USER_ID1).account_id,
            after.user(USER_ID2).account_id == self.user(USER_ID2).account_id,
    {
        let o = spec_opponent_id(u);
        lemma_morale_keeps_players(self.user(u).team, after.user(u).team, 2);
        lemma_morale_keeps_players(self.user(o).team, after.user(o).team, if opponent_wins { 2int } else { -3int });
        assert forall|x: Seq<char>, v: usize| (v == USER_ID1 || v == USER_ID2) && #[trigger] self.penalty_possible(x, v)
            implies after.penalty_possible(x, v) by {
            assert(v == u || v == o);
        }
    }

    /// Changes the morale of both teams after a fight of a player of `u`.
    pub fn fight_morale(&mut self, u: usize, opponent_wins: bool)
        requires
            u == USER_ID1 || u == USER_ID2,
            spec_morale_fits(old(self).user(u).team, 2),
            spec_morale_fits(old(self).user(spec_opponent_id(u)).team, if opponent_wins { 2int } else { -3int }),
        ensures
            old(self).spec_fight_morale_by(*final(self), u, opponent_wins),
    {
        if u == USER_ID1 {
            if opponent_wins {
                self.user2.team.increase_morale();
            } else {
                self.user2.team.reduce_morale();
            }
            self.user1.team.increase_morale();
        } else {
            if opponent_wins {
                self.user1.team.increase_morale();
            } else {
                self.user1.team.reduce_morale();
            }
            self.user2.team.increase_morale();
        }
    }

    /// Whether a fight can be settled: the morale changes fit, and both players can be
    /// sent off.
    pub open spec fn fight_ready(self, seed: Seq<u8>) -> bool {
        let u = self.puck_player().user_id->0;
        let o = spec_opponent_id(u);
        &&& spec_morale_fits(self.user(u).team, 2)
        &&& spec_morale_fits(self.user(o).team, if self.opponent_wins_fight(seed) { 2int } else { -3int })
        &&& self.penalty_possible(self.puck_id(), u)
        &&& self.penalty_possible(self.opponent().id->0@, o)
    }
}

impl Fight {
    /// The player with the puck and the opponent facing him fight: the winner's team
    /// gains morale (see `spec_fight_morale`), then both players are sent off for a big
    /// penalty, the player with the puck first.
    #[verifier::rlimit(50)]
    pub fn do_action(&self, game: &mut Game, seed: &Vec<u8>) -> (actions: Vec<ActionData>)
        requires
            seed.len() > 19,
            old(game).duel_ready(),
            old(game).fight_ready(seed@),
        ensures
            ({
                let p = old(game).puck_player();
                let o = old(game).opponent();
                let u = p.user_id->0;
                let ou = spec_opponent_id(u);
                let winner = if old(game).opponent_wins_fight(seed@) { o } else { p };
                let winner_user = if old(game).opponent_wins_fight(seed@) { ou } else { u };
                exists|g1: Game, g2: Game|
                    #![trigger old(game).spec_fight_morale(g1, seed@), g1.spec_penalty_done(g2, BIG_PENALTY, p.id->0, ou, u)]
                    old(game).spec_fight_morale(g1, seed@)
                    && g1.spec_penalty_done(g2, BIG_PENALTY, p.id->0, ou, u)
                    && g2.spec_penalty_done(*final(game), BIG_PENALTY, o.id->0, u, ou)
                    && actions@ == seq![
                        ActionData::Fight {
                            action_type: ActionTypes::Fight,
                            account_id1: old(game).user(u).account_id,
                            player_number1: p.number,
                            account_id2: old(game).user(ou).account_id,
                            player_number2: o.number,
                        },
                        ActionData::FightWon {
                            action_type: ActionTypes::StartGame,
                            account_id: old(game).user(winner_user).account_id,
                            player_name: winner.name->0,
                            player_img: winner.img->0,
                            player_number: winner.number,
                        },
                        spec_fight_penalty(g1.spec_penalty_action(BIG_PENALTY, p.id->0@, u)),
                        g2.spec_penalty_action(BIG_PENALTY, o.id->0@, ou),
                    ]
            }),
    {
        let player_with_puck = game.get_player_with_puck();
        let (coeff, opponent_player) = game.get_opponent_field_player();
        let compared_stat1 = get_relative_field_player_stat(player_with_puck, player_with_puck.stats.fighting_skill as u64 * 1000);
        let compared_stat2 = get_relative_field_player_stat(opponent_player, opponent_player.stats.fighting_skill as u64 * 1000)
            * coeff as u64 / 100;
        let player1_id = player_with_puck.get_player_id();
        let user1_id = player_with_puck.get_user_id();
        let player2_id = opponent_player.get_player_id();
        let user2_id = opponent_player.get_user_id();
        let user_with_puck = game.get_user_info(user1_id);
        let opponent_info = game.get_opponent_info(user1_id);
        let fight = ActionData::Fight {
            action_type: ActionTypes::Fight,
            account_id1: user_with_puck.account_id.clone(),
            player_number1: player_with_puck.number,
            account_id2: opponent_info.account_id.clone(),
            player_number2: opponent_player.number,
        };
        let opponent_wins = has_won(seed, compared_stat2, compared_stat1);
        proof {
            let ou = spec_opponent_id(game.puck_user());
            let t = game.user(ou).team;
            let id = game.id_by_pos(game.opponent_coeff_pos().1, ou)->0;
            lemma_player_found(t.field_players@, id);
            lemma_player_found(game.user(game.puck_user()).team.field_players@, game.puck_id());
        }
        let won = if opponent_wins {
            ActionData::FightWon {
                action_type: ActionTypes::StartGame,
                account_id: opponent_info.account_id.clone(),
                player_name: opponent_player.name.clone().unwrap(),
                player_img: opponent_player.img.clone().unwrap(),
                player_number: opponent_player.number,
            }
        } else {
            ActionData::FightWon {
                action_type: ActionTypes::StartGame,
                account_id: user_with_puck.account_id.clone(),
                player_name: player_with_puck.name.clone().unwrap(),
                player_img: player_with_puck.img.clone().unwrap(),
                player_number: player_with_puck.number,
            }
        };
        let ghost g0 = *game;
        game.fight_morale(user1_id, opponent_wins);
        let ghost g1 = *game;
        assert(g0.spec_fight_morale(g1, seed@));
        proof { g0.lemma_fight_morale_keeps(g1, user1_id, opponent_wins); }
        let penalty1 = game.do_penalty(BIG_PENALTY, &player1_id, user2_id, user1_id);
        let ghost g2 = *game;
        let penalty2 = game.do_penalty(BIG_PENALTY, &player2_id, user1_id, user2_id);
        let mut actions: Vec<ActionData> = Vec::new();
        actions.push(fight);
        actions.push(won);
        actions.push(get_penalty_by_fight_action(penalty1));
        actions.push(penalty2);
        actions
    }
}

} // verus!

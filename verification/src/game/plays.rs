use vstd::prelude::*;
use crate::game::action::{ActionData, ActionTypes};
use crate::game::engine::{Game, UserInfo, spec_opponent_id, spec_opponent_position, spec_puck, USER_ID1, USER_ID2};
use crate::game::field_player::FieldPlayer;
use crate::game::player::PlayerPosition;
use crate::game::team::{spec_id_is, lemma_player_found};
use crate::game::lineup::{spec_all_positions, lemma_all_positions};
use crate::game::utils::{
    get_random_in_range, get_relative_field_player_stat, has_won, spec_duel_draw, spec_has_won,
    spec_random_in_range, spec_relative_stat,
};

verus! {

/// Whether the duel between `stat` and `opponents_stat` (in thousandths) goes to the
/// first side, for the block's seed.
pub open spec fn spec_wins(seed: Seq<u8>, stat: int, opponents_stat: int) -> bool {
    spec_has_won(stat, opponents_stat, spec_duel_draw(seed, stat, opponents_stat))
}

/// Whether the move or the dangle ends offside: a draw of at most 15 in 1..100 from byte
/// 21 of the seed.
pub open spec fn spec_offside(seed: Seq<u8>) -> bool {
    spec_random_in_range(seed[21], 1, 100) <= 15
}

/// Whether a player can take part in a duel: he has a token id, a user and a teamwork
/// factor of at most 10.
pub open spec fn spec_duel_player(p: FieldPlayer) -> bool {
    &&& p.id is Some
    &&& p.user_id is Some
    &&& p.teamwork matches Some(t) && t <= 100_000
}

impl Game {
    /// The user of the player with the puck.
    pub open spec fn puck_user(self) -> usize {
        (self.player_with_puck->0).0
    }

    /// The token id of the player with the puck.
    pub open spec fn puck_id(self) -> Seq<char> {
        (self.player_with_puck->0).1@
    }

    /// The player with the puck.
    pub open spec fn puck_player(self) -> FieldPlayer {
        self.user(self.puck_user()).team.player(self.puck_id())
    }

    /// Where the player with the puck stands on the ice.
    pub open spec fn puck_pos(self) -> PlayerPosition {
        self.user(self.puck_user()).team.active_five.field_players.spec_find(self.puck_id())->0
    }

    /// The weight, in percent, and the position of the opponent facing the player with
    /// the puck.
    pub open spec fn opponent_coeff_pos(self) -> (u32, PlayerPosition) {
        let u = self.puck_user();
        spec_opponent_position(
            self.user(u).team.active_five.field_players.spec_filled_count(),
            self.user(spec_opponent_id(u)).team.active_five.field_players.spec_filled_count(),
            self.puck_pos(),
        )
    }

    /// The opponent facing the player with the puck.
    pub open spec fn opponent(self) -> FieldPlayer {
        self.player_at(self.opponent_coeff_pos().1, spec_opponent_id(self.puck_user()))
    }

    /// Where the opponent facing the player with the puck stands on the ice.
    pub open spec fn opponent_pos(self) -> PlayerPosition {
        self.user(spec_opponent_id(self.puck_user())).team.active_five.field_players.spec_find(self.opponent().id->0@)->0
    }

    /// Whether the player with the puck and the opponent facing him can be found: the
    /// player with the puck belongs to his side and stands on the ice (not in goal), the
    /// opponent position has a player of the other side, and both can duel.
    pub open spec fn duel_ready(self) -> bool {
        &&& self.player_with_puck is Some
        &&& (self.puck_user() == USER_ID1 || self.puck_user() == USER_ID2)
        &&& self.user1.user_id == USER_ID1
        &&& self.user2.user_id == USER_ID2
        &&& self.user(self.puck_user()).team.has_player(self.puck_id())
        &&& self.user(self.puck_user()).team.active_five.field_players.spec_find(self.puck_id()) is Some
        &&& self.puck_pos() != PlayerPosition::GoaliePos
        &&& self.has_player_at(self.opponent_coeff_pos().1, spec_opponent_id(self.puck_user()))
        &&& spec_duel_player(self.puck_player())
        &&& spec_duel_player(self.opponent())
        &&& self.puck_player().user_id == Some(self.puck_user())
        &&& self.opponent().user_id == Some(spec_opponent_id(self.puck_user()))
    }

    /// The player with the puck.
    pub fn get_player_with_puck(&self) -> (r: &FieldPlayer)
        requires
            self.player_with_puck is Some,
            self.user(self.puck_user()).team.has_player(self.puck_id()),
        ensures
            *r == self.puck_player(),
            spec_id_is(*r, self.puck_id()),
    {
        let (user_id, player_id) = match &self.player_with_puck {
            Some((u, id)) => (*u, id),
            None => (USER_ID1, &self.user1.account_id),
        };
        let user = self.get_user_info(user_id);
        user.team.get_field_player(player_id)
    }

    /// The weight, in percent, and the opponent facing the player with the puck.
    pub fn get_opponent_field_player(&self) -> (r: (u32, &FieldPlayer))
        requires
            self.duel_ready(),
        ensures
            r.0 == self.opponent_coeff_pos().0,
            50 <= r.0 <= 150,
            *r.1 == self.opponent(),
            spec_id_is(*r.1, self.opponent().id->0@),
    {
        let (user_id, player_id) = match &self.player_with_puck {
            Some((u, id)) => (*u, id),
            None => (USER_ID1, &self.user1.account_id),
        };
        let user = self.get_user_info(user_id);
        let active_five = &user.team.active_five;
        let opponent_user = self.get_opponent_info(user.user_id);
        let opponent_active_five = &opponent_user.team.active_five;
        proof { self.lemma_puck_pos(); }
        let field_player_pos = user.team.get_field_player_pos(player_id);
        let (coeff, pos) = self.get_opponent_position(
            active_five.get_number_of_players(),
            opponent_active_five.get_number_of_players(),
            &field_player_pos,
        );
        let opponent_id = if user_id == USER_ID1 { USER_ID2 } else { USER_ID1 };
        (coeff, self.get_field_player_by_pos(opponent_id, &pos))
    }

    /// The token id of the opponent facing the player with the puck, as the puck moves
    /// to him.
    pub open spec fn opponent_takes_puck(self) -> Option<(usize, Seq<char>)> {
        Some((self.opponent().user_id->0, self.opponent().id->0@))
    }

    /// The rating of the player with the puck on a move: his skating.
    pub open spec fn move_stat(self) -> int {
        spec_relative_stat(self.puck_player(), self.puck_player().stats.spec_skating() * 200)
    }

    /// The rating of the opponent on a move: his defensive awareness with his strength,
    /// weighted by his position.
    pub open spec fn move_opponent_stat(self) -> int {
        let o = self.opponent();
        spec_relative_stat(o, (o.stats.defensive_awareness * 1000 + o.stats.spec_strength() * 200) / 2)
            * self.opponent_coeff_pos().0 / 100
    }

    /// `after` and `actions` are what a move gives (see `move_action`).
    pub open spec fn spec_move(self, after: Game, actions: Seq<ActionData>, seed: Seq<u8>) -> bool {
                let p = self.puck_player();
                let o = self.opponent();
                let user = self.user(p.user_id->0);
                let new_zone: u8 = if p.user_id->0 == USER_ID2 { 1 } else { 3 };
                let first = ActionData::Move {
                    action_type: ActionTypes::Move,
                    zone_number: new_zone,
                    account_id: user.account_id,
                    player_number: p.number,
                    player_position: self.puck_pos(),
                };
                if spec_offside(seed) {
                    &&& after == (Game { zone_number: 2, ..self })
                    &&& actions == seq![first, ActionData::Offside {
                        action_type: ActionTypes::Move,
                        zone_number: 2,
                        account_id: user.account_id,
                        player_number: p.number,
                        player_position: self.puck_pos(),
                    }]
                } else if spec_wins(seed, self.move_stat(), self.move_opponent_stat()) {
                    &&& after == (Game { zone_number: new_zone as i8, ..self })
                    &&& actions == seq![first]
                } else {
                    &&& after == (Game { player_with_puck: after.player_with_puck, ..self })
                    &&& spec_puck(after.player_with_puck) == self.opponent_takes_puck()
                    &&& actions == seq![first, ActionData::Hit {
                        action_type: ActionTypes::Hit,
                        account_id: self.user(spec_opponent_id(user.user_id)).account_id,
                        player_number: o.number,
                        player_position: self.opponent_pos(),
                        opponent_number: p.number,
                    }]
                }
            }

    /// The player with the puck skates into the next zone: offside (zone back to the
    /// neutral one), a move into the attack zone, or a hit that gives the puck to the
    /// opponent.
    pub fn move_action(&mut self, seed: &Vec<u8>) -> (actions: Vec<ActionData>)
        requires
            seed.len() > 21,
            old(self).duel_ready(),
        ensures
            old(self).spec_move(*final(self), actions@, seed@),
    {
        let player_with_puck = self.get_player_with_puck();
        let player_stat = get_relative_field_player_stat(player_with_puck, player_with_puck.stats.get_skating() as u64 * 200);
        let user = self.get_user_info(player_with_puck.get_user_id());
        proof { self.lemma_puck_pos(); }
        let position_player_with_puck = user.team.get_field_player_pos(&player_with_puck.get_player_id());
        let (coeff, opponent) = self.get_opponent_field_player();
        let opponent_compared = (opponent.stats.defensive_awareness as u64 * 1000 + opponent.stats.get_strength() as u64 * 200) / 2;
        let opponent_stat = get_relative_field_player_stat(opponent, opponent_compared) * coeff as u64 / 100;
        let new_zone_number: u8 = if player_with_puck.get_user_id() == USER_ID2 { 1 } else { 3 };
        let mut actions = vec![ActionData::Move {
            action_type: ActionTypes::Move,
            zone_number: new_zone_number,
            account_id: user.account_id.clone(),
            player_number: player_with_puck.number,
            player_position: position_player_with_puck,
        }];
        let rnd_offside = get_random_in_range(seed, 1, 100, 21);
        if rnd_offside <= 15 {
            actions.push(ActionData::Offside {
                action_type: ActionTypes::Move,
                zone_number: 2,
                account_id: user.account_id.clone(),
                player_number: player_with_puck.number,
                player_position: position_player_with_puck,
            });
            self.zone_number = 2;
            assert(actions@ =~= seq![actions@[0], actions@[1]]);
            return actions;
        }
        if has_won(seed, player_stat, opponent_stat) {
            self.zone_number = new_zone_number as i8;
            assert(actions@ =~= seq![actions@[0]]);
        } else {
            let opponent_user = self.get_opponent_info(user.user_id);
            let opponent_id = opponent.get_player_id();
            proof { self.lemma_opponent_pos(); }
            let opponent_position = opponent_user.team.get_field_player_pos(&opponent_id);
            actions.push(ActionData::Hit {
                action_type: ActionTypes::Hit,
                account_id: opponent_user.account_id.clone(),
                player_number: opponent.number,
                player_position: opponent_position,
                opponent_number: player_with_puck.number,
            });
            self.player_with_puck = Some((opponent.get_user_id(), opponent_id));
            assert(actions@ =~= seq![actions@[0], actions@[1]]);
        }
        actions
    }

    /// The player with the puck stands where the team's unit on the ice has him.
    pub proof fn lemma_puck_pos(self)
        requires
            self.duel_ready(),
        ensures
            self.user(self.puck_user()).team.active_five.field_players.at(self.puck_pos()) == Some(self.puck_id()),
    {
        let l = self.user(self.puck_user()).team.active_five.field_players;
        l.lemma_find_upto_some(self.puck_id(), 7);
    }

    /// The opponent stands where his unit on the ice has him.
    pub proof fn lemma_opponent_pos(self)
        requires
            self.duel_ready(),
        ensures
            exists|p: PlayerPosition| #[trigger] self.user(spec_opponent_id(self.puck_user())).team.active_five.field_players.at(p)
                == Some(self.opponent().id->0@),
    {
        let team = self.user(spec_opponent_id(self.puck_user())).team;
        let l = team.active_five.field_players;
        let pos = self.opponent_coeff_pos().1;
        let id = self.id_by_pos(pos, spec_opponent_id(self.puck_user()))->0;
        lemma_player_found(team.field_players@, id);
        if l.at(pos) matches Some(x) && x.len() > 0 {
            assert(l.at(pos) == Some(self.opponent().id->0@));
        } else if pos == PlayerPosition::RightWing {
            assert(l.at(PlayerPosition::RightDefender) == Some(self.opponent().id->0@));
        } else if l.spec_filled_count() == 4 {
            assert(l.at(PlayerPosition::RightWing) == Some(self.opponent().id->0@));
        } else {
            assert(l.at(PlayerPosition::LeftDefender) == Some(self.opponent().id->0@));
        }
    }

    /// The rating of the player with the puck on a dangle: his stick handling.
    pub open spec fn dangle_stat(self) -> int {
        spec_relative_stat(self.puck_player(), self.puck_player().stats.spec_stick_handling() * 250)
    }

    /// The rating of the opponent on a dangle: his defensive awareness with his stick
    /// checking, weighted by his position.
    pub open spec fn dangle_opponent_stat(self) -> int {
        let o = self.opponent();
        spec_relative_stat(o, (o.stats.defensive_awareness + o.stats.stick_checking) * 500)
            * self.opponent_coeff_pos().0 / 100
    }

    /// `after` and `actions` are what a dangle gives: an offside (the play goes back to the
    /// neutral zone), a step forward by one zone when the player beats the opponent facing
    /// him, or a poke check that gives the puck to that opponent.
    pub open spec fn spec_dangle(self, after: Game, actions: Seq<ActionData>, seed: Seq<u8>) -> bool {
        let p = self.puck_player();
        let o = self.opponent();
        let user = self.user(p.user_id->0);
        if spec_offside(seed) {
            &&& after == (Game { zone_number: 2, ..self })
            &&& actions == seq![
                ActionData::Dangle {
                    action_type: ActionTypes::Dangle,
                    account_id: user.account_id,
                    zone_number: self.zone_number as u8,
                    player_number: p.number,
                    player_position: self.puck_pos(),
                    opponent_number: 0,
                },
                ActionData::Offside {
                    action_type: ActionTypes::Offside,
                    zone_number: 2,
                    account_id: user.account_id,
                    player_number: p.number,
                    player_position: self.puck_pos(),
                },
            ]
        } else {
            let first = ActionData::Dangle {
                action_type: ActionTypes::Dangle,
                account_id: user.account_id,
                zone_number: self.zone_number as u8,
                player_number: p.number,
                player_position: self.puck_pos(),
                opponent_number: o.number,
            };
            if spec_wins(seed, self.dangle_stat(), self.dangle_opponent_stat()) {
                &&& after == (Game {
                    zone_number: (self.zone_number + if p.user_id->0 == USER_ID2 { -1int } else { 1int }) as i8,
                    ..self
                })
                &&& actions == seq![first]
            } else {
                &&& after == (Game { player_with_puck: after.player_with_puck, ..self })
                &&& spec_puck(after.player_with_puck) == self.opponent_takes_puck()
                &&& actions == seq![first, ActionData::PokeCheck {
                    action_type: ActionTypes::Hit,
                    account_id: self.user(spec_opponent_id(user.user_id)).account_id,
                    opponent_number: p.number,
                    player_number: o.number,
                    player_position: self.opponent_pos(),
                }]
            }
        }
    }

    /// The player with the puck tries to beat the opponent facing him: offside (zone
    /// back to the neutral one), a step forward by one zone, or a poke check that gives
    /// the puck to the opponent. The `Dangle` event names the beaten opponent, or 0
    /// after an offside.
    pub fn dangle_action(&mut self, seed: &Vec<u8>) -> (actions: Vec<ActionData>)
        requires
            seed.len() > 21,
            old(self).duel_ready(),
            !spec_offside(seed@) ==> old(self).opponent().stats.defensive_awareness + old(self).opponent().stats.stick_checking <= 255,
            !spec_offside(seed@) ==> -127 <= old(self).zone_number <= 126,
        ensures
            old(self).spec_dangle(*final(self), actions@, seed@),
    {
        let player_with_puck = self.get_player_with_puck();
        let player_stat = get_relative_field_player_stat(player_with_puck, player_with_puck.stats.get_stick_handling() as u64 * 250);
        let user = self.get_user_info(player_with_puck.get_user_id());
        proof { self.lemma_puck_pos(); }
        let position_player_with_puck = user.team.get_field_player_pos(&player_with_puck.get_player_id());
        let rnd_offside = get_random_in_range(seed, 1, 100, 21);
        if rnd_offside <= 15 {
            let actions = vec![
                ActionData::Dangle {
                    action_type: ActionTypes::Dangle,
                    account_id: user.account_id.clone(),
                    zone_number: self.zone_number as u8,
                    player_number: player_with_puck.number,
                    player_position: position_player_with_puck,
                    opponent_number: 0,
                },
                ActionData::Offside {
                    action_type: ActionTypes::Offside,
                    zone_number: 2,
                    account_id: user.account_id.clone(),
                    player_number: player_with_puck.number,
                    player_position: position_player_with_puck,
                },
            ];
            self.zone_number = 2;
            return actions;
        }
        let relative_side_zone: i8 = if player_with_puck.get_user_id() == 2 { -1 } else { 1 };
        let (coeff, opponent) = self.get_opponent_field_player();
        let checking: u8 = opponent.stats.defensive_awareness + opponent.stats.stick_checking;
        let opponent_stat = get_relative_field_player_stat(opponent, checking as u64 * 500) * coeff as u64 / 100;
        let mut actions = vec![ActionData::Dangle {
            action_type: ActionTypes::Dangle,
            account_id: user.account_id.clone(),
            zone_number: self.zone_number as u8,
            player_number: player_with_puck.number,
            player_position: position_player_with_puck,
            opponent_number: opponent.number,
        }];
        if has_won(seed, player_stat, opponent_stat) {
            self.zone_number = self.zone_number + relative_side_zone;
            assert(actions@ =~= seq![actions@[0]]);
        } else {
            let opponent_user = self.get_opponent_info(user.user_id);
            let opponent_id = opponent.get_player_id();
            proof { self.lemma_opponent_pos(); }
            let opponent_position = opponent_user.team.get_field_player_pos(&opponent_id);
            actions.push(ActionData::PokeCheck {
                action_type: ActionTypes::Hit,
                account_id: opponent_user.account_id.clone(),
                opponent_number: player_with_puck.number,
                player_number: opponent.number,
                player_position: opponent_position,
            });
            self.player_with_puck = Some((opponent.get_user_id(), opponent_id));
            assert(actions@ =~= seq![actions@[0], actions@[1]]);
        }
        actions
    }

    /// The rating of a player in a battle for the puck: his puck control, aggressiveness
    /// and strength.
    pub open spec fn spec_battle_rating(p: FieldPlayer) -> int {
        (p.stats.puck_control + p.stats.aggressiveness + p.stats.strength) * 1000 / 3
    }

    /// Whether the opponent wins the battle for the puck.
    pub open spec fn opponent_wins_battle(self, seed: Seq<u8>) -> bool {
        let p = self.puck_player();
        let o = self.opponent();
        spec_wins(
            seed,
            spec_relative_stat(o, Self::spec_battle_rating(o)) * self.opponent_coeff_pos().0 / 100,
            spec_relative_stat(p, Self::spec_battle_rating(p)),
        )
    }

    /// The player with the puck and the opponent facing him fight for the puck; the
    /// opponent takes it if he wins.
    pub fn battle(&mut self, seed: &Vec<u8>) -> (actions: Vec<ActionData>)
        requires
            seed.len() > 19,
            old(self).duel_ready(),
            ({
                let p = old(self).puck_player();
                p.stats.puck_control + p.stats.aggressiveness + p.stats.strength <= 255
            }),
            ({
                let o = old(self).opponent();
                o.stats.puck_control + o.stats.aggressiveness + o.stats.strength <= 255
            }),
        ensures
            ({
                let p = old(self).puck_player();
                let o = old(self).opponent();
                let user = old(self).user(p.user_id->0);
                let opponent_user = old(self).user(o.user_id->0);
                let first = ActionData::Battle {
                    action_type: ActionTypes::Battle,
                    account_id1: user.account_id,
                    player_number1: p.number,
                    player_position1: old(self).puck_pos(),
                    account_id2: opponent_user.account_id,
                    player_number2: o.number,
                    player_position2: old(self).opponent_pos(),
                };
                if old(self).opponent_wins_battle(seed@) {
                    &&& *final(self) == (Game { player_with_puck: final(self).player_with_puck, ..*old(self) })
                    &&& spec_puck(final(self).player_with_puck) == old(self).opponent_takes_puck()
                    &&& actions@ == seq![first, ActionData::BattleWon {
                        action_type: ActionTypes::BattleWon,
                        account_id: opponent_user.account_id,
                        player_number: o.number,
                        player_position: old(self).opponent_pos(),
                    }]
                } else {
                    &&& *final(self) == *old(self)
                    &&& actions@ == seq![first, ActionData::BattleWon {
                        action_type: ActionTypes::BattleWon,
                        account_id: user.account_id,
                        player_number: p.number,
                        player_position: old(self).puck_pos(),
                    }]
                }
            }),
    {
        let player_with_puck = self.get_player_with_puck();
        let (coeff, opponent_player) = self.get_opponent_field_player();
        let player1_sum: u8 = player_with_puck.stats.puck_control + player_with_puck.stats.aggressiveness
            + player_with_puck.stats.strength;
        let player2_sum: u8 = opponent_player.stats.puck_control + opponent_player.stats.aggressiveness
            + opponent_player.stats.strength;
        let compared_stat1 = get_relative_field_player_stat(player_with_puck, player1_sum as u64 * 1000 / 3);
        let compared_stat2 = get_relative_field_player_stat(opponent_player, player2_sum as u64 * 1000 / 3)
            * coeff as u64 / 100;
        let user_with_puck = self.get_user_info(player_with_puck.get_user_id());
        proof { self.lemma_puck_pos(); }
        let player_with_puck_position = user_with_puck.team.get_field_player_pos(&player_with_puck.get_player_id());
        let opponent_user = self.get_user_info(opponent_player.get_user_id());
        let opponent_id = opponent_player.get_player_id();
        proof { self.lemma_opponent_pos(); }
        let opponent_player_position = opponent_user.team.get_field_player_pos(&opponent_id);
        let mut actions = vec![ActionData::Battle {
            action_type: ActionTypes::Battle,
            account_id1: user_with_puck.account_id.clone(),
            player_number1: player_with_puck.number,
            player_position1: player_with_puck_position,
            account_id2: opponent_user.account_id.clone(),
            player_number2: opponent_player.number,
            player_position2: opponent_player_position,
        }];
        if has_won(seed, compared_stat2, compared_stat1) {
            actions.push(ActionData::BattleWon {
                action_type: ActionTypes::BattleWon,
                account_id: opponent_user.account_id.clone(),
                player_number: opponent_player.number,
                player_position: opponent_player_position,
            });
            self.player_with_puck = Some((opponent_player.get_user_id(), opponent_id));
        } else {
            actions.push(ActionData::BattleWon {
                action_type: ActionTypes::BattleWon,
                account_id: user_with_puck.account_id.clone(),
                player_number: player_with_puck.number,
                player_position: player_with_puck_position,
            });
        }
        actions
    }

    /// The first player of a face-off at `pos`: the player of the first user there.
    pub open spec fn face_off_player1(self, pos: PlayerPosition) -> FieldPlayer {
        self.player_at(pos, USER_ID1)
    }

    /// Where the first player of a face-off stands.
    pub open spec fn face_off_pos1(self, pos: PlayerPosition) -> PlayerPosition {
        self.user1.team.active_five.field_players.spec_find(self.face_off_player1(pos).id->0@)->0
    }

    /// The weight, in percent, and the position of the second player of a face-off.
    pub open spec fn face_off_opponent(self, pos: PlayerPosition) -> (u32, PlayerPosition) {
        spec_opponent_position(
            self.user1.team.active_five.field_players.spec_filled_count(),
            self.user2.team.active_five.field_players.spec_filled_count(),
            self.face_off_pos1(pos),
        )
    }

    /// The second player of a face-off at `pos`.
    pub open spec fn face_off_player2(self, pos: PlayerPosition) -> FieldPlayer {
        self.player_at(self.face_off_opponent(pos).1, USER_ID2)
    }

    /// Whether a face-off can be held at `pos`: a player of each side stands at the
    /// positions that meet, both can duel, and they play for their own side.
    pub open spec fn face_off_ready(self, pos: PlayerPosition) -> bool {
        &&& self.user1.user_id == USER_ID1
        &&& self.user2.user_id == USER_ID2
        &&& self.has_player_at(pos, USER_ID1)
        &&& self.face_off_player1(pos).user_id == Some(USER_ID1)
        &&& spec_duel_player(self.face_off_player1(pos))
        &&& self.face_off_pos1(pos) != PlayerPosition::GoaliePos
        &&& self.has_player_at(self.face_off_opponent(pos).1, USER_ID2)
        &&& self.face_off_player2(pos).user_id == Some(USER_ID2)
        &&& spec_duel_player(self.face_off_player2(pos))
    }

    /// Whether the first player wins the face-off at `pos`.
    pub open spec fn face_off_won(self, pos: PlayerPosition, seed: Seq<u8>) -> bool {
        let p1 = self.face_off_player1(pos);
        let p2 = self.face_off_player2(pos);
        spec_wins(
            seed,
            spec_relative_stat(p1, p1.stats.face_offs * 1000),
            spec_relative_stat(p2, p2.stats.face_offs * 1000) * self.face_off_opponent(pos).0 / 100,
        )
    }

    /// `after` and `actions` are what a face-off at `pos` gives: the winner takes the puck.
    pub open spec fn spec_face_off(self, pos: PlayerPosition, after: Game, actions: Seq<ActionData>, seed: Seq<u8>) -> bool {
        let p1 = self.face_off_player1(pos);
        let p2 = self.face_off_player2(pos);
        let pos1 = self.face_off_pos1(pos);
        let pos2 = self.face_off_opponent(pos).1;
        let first = ActionData::FaceOff {
            action_type: ActionTypes::FaceOff,
            zone_number: self.zone_number as u8,
            account_id1: self.user1.account_id,
            player_number1: p1.number,
            player_position1: pos1,
            account_id2: self.user2.account_id,
            player_number2: p2.number,
            player_position2: pos2,
        };
        &&& after == (Game { player_with_puck: after.player_with_puck, ..self })
        &&& if self.face_off_won(pos, seed) {
            &&& spec_puck(after.player_with_puck) == Some((USER_ID1, p1.id->0@))
            &&& actions == seq![first, ActionData::FaceOffWin {
                action_type: ActionTypes::FaceOffWin,
                account_id: self.user1.account_id,
                zone_number: self.zone_number as u8,
                player_number: p1.number,
                player_position: pos1,
            }]
        } else {
            &&& spec_puck(after.player_with_puck) == Some((USER_ID2, p2.id->0@))
            &&& actions == seq![first, ActionData::FaceOffWin {
                action_type: ActionTypes::FaceOffWin,
                account_id: self.user2.account_id,
                zone_number: self.zone_number as u8,
                player_number: p2.number,
                player_position: pos2,
            }]
        }
    }

    /// The player of `user_id` at `pos` stands where his unit on the ice has him.
    pub proof fn lemma_player_at_found(self, pos: PlayerPosition, user_id: usize)
        requires
            self.has_player_at(pos, user_id),
        ensures
            spec_id_is(self.player_at(pos, user_id), self.id_by_pos(pos, user_id)->0),
            self.user(user_id).team.player(self.player_at(pos, user_id).id->0@) == self.player_at(pos, user_id),
            exists|p: PlayerPosition| #[trigger] self.user(user_id).team.active_five.field_players.at(p)
                == Some(self.player_at(pos, user_id).id->0@),
            self.user(user_id).team.active_five.field_players.spec_find(self.player_at(pos, user_id).id->0@) is Some,
    {
        let team = self.user(user_id).team;
        let l = team.active_five.field_players;
        let id = self.id_by_pos(pos, user_id)->0;
        lemma_player_found(team.field_players@, id);
        if l.at(pos) matches Some(x) && x.len() > 0 {
            assert(l.at(pos) == Some(id));
        } else if pos == PlayerPosition::RightWing {
            assert(l.at(PlayerPosition::RightDefender) == Some(id));
        } else if l.spec_filled_count() == 4 {
            assert(l.at(PlayerPosition::RightWing) == Some(id));
        } else {
            assert(l.at(PlayerPosition::LeftDefender) == Some(id));
        }
        if l.spec_find(id) is None {
            l.lemma_find_upto_none(id, 7);
            lemma_all_positions();
            let p = choose|p: PlayerPosition| #[trigger] l.at(p) == Some(id);
            assert(spec_all_positions().contains(p));
            let k = choose|k: int| 0 <= k < 7 && spec_all_positions()[k] == p;
        }
    }

    /// The players of both sides at the positions that meet at `pos` contest the puck.
    pub fn face_off(&mut self, seed: &Vec<u8>, player_position: &PlayerPosition) -> (actions: Vec<ActionData>)
        requires
            seed.len() > 19,
            old(self).face_off_ready(*player_position),
        ensures
            old(self).spec_face_off(*player_position, *final(self), actions@, seed@),
    {
        let player1 = self.get_field_player_by_pos(USER_ID1, player_position);
        let user = self.get_user_info(player1.get_user_id());
        proof { self.lemma_player_at_found(*player_position, USER_ID1); }
        let player1_id = player1.get_player_id();
        let position1 = user.team.get_field_player_pos(&player1_id);
        let active_five = &user.team.active_five;
        let opponent_user = self.get_opponent_info(user.user_id);
        let opponent_five = &opponent_user.team.active_five;
        let (coeff, opponent_pos) = self.get_opponent_position(
            active_five.get_number_of_players(),
            opponent_five.get_number_of_players(),
            &position1,
        );
        let player2 = self.get_field_player_by_pos(USER_ID2, &opponent_pos);
        proof { self.lemma_player_at_found(opponent_pos, USER_ID2); }
        let compared_stat1 = get_relative_field_player_stat(player1, player1.stats.face_offs as u64 * 1000);
        let compared_stat2 = get_relative_field_player_stat(player2, player2.stats.face_offs as u64 * 1000)
            * coeff as u64 / 100;
        let mut actions: Vec<ActionData> = Vec::new();
        actions.push(ActionData::FaceOff {
            action_type: ActionTypes::FaceOff,
            zone_number: self.zone_number as u8,
            account_id1: user.account_id.clone(),
            player_number1: player1.number,
            player_position1: position1,
            account_id2: opponent_user.account_id.clone(),
            player_number2: player2.number,
            player_position2: opponent_pos,
        });
        assert(actions@[0] == ActionData::FaceOff {
            action_type: ActionTypes::FaceOff,
            zone_number: old(self).zone_number as u8,
            account_id1: old(self).user1.account_id,
            player_number1: old(self).face_off_player1(*player_position).number,
            player_position1: old(self).face_off_pos1(*player_position),
            account_id2: old(self).user2.account_id,
            player_number2: old(self).face_off_player2(*player_position).number,
            player_position2: old(self).face_off_opponent(*player_position).1,
        });
        if has_won(seed, compared_stat1, compared_stat2) {
            actions.push(ActionData::FaceOffWin {
                action_type: ActionTypes::FaceOffWin,
                account_id: user.account_id.clone(),
                zone_number: self.zone_number as u8,
                player_number: player1.number,
                player_position: position1,
            });
            self.player_with_puck = Some((player1.get_user_id(), player1_id));
            assert(actions@ =~= seq![actions@[0], actions@[1]]);
            assert(actions@[1] == ActionData::FaceOffWin {
                action_type: ActionTypes::FaceOffWin,
                account_id: old(self).user1.account_id,
                zone_number: old(self).zone_number as u8,
                player_number: old(self).face_off_player1(*player_position).number,
                player_position: old(self).face_off_pos1(*player_position),
            });
        } else {
            actions.push(ActionData::FaceOffWin {
                action_type: ActionTypes::FaceOffWin,
                account_id: opponent_user.account_id.clone(),
                zone_number: self.zone_number as u8,
                player_number: player2.number,
                player_position: opponent_pos,
            });
            self.player_with_puck = Some((player2.get_user_id(), player2.get_player_id()));
            assert(actions@ =~= seq![actions@[0], actions@[1]]);
            assert(actions@[1] == ActionData::FaceOffWin {
                action_type: ActionTypes::FaceOffWin,
                account_id: old(self).user2.account_id,
                zone_number: old(self).zone_number as u8,
                player_number: old(self).face_off_player2(*player_position).number,
                player_position: old(self).face_off_opponent(*player_position).1,
            });
        }
        actions
    }
}

} // verus!

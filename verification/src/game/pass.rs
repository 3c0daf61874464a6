use vstd::prelude::*;
use crate::game::action::{ActionData, ActionTypes, PassAction};
use crate::game::engine::{Game, spec_opponent_id, spec_puck, USER_ID1, USER_ID2};
use crate::game::field_player::FieldPlayer;
use crate::game::lineup::contains_position;
use crate::game::player::PlayerPosition;
use crate::game::plays::spec_wins;
use crate::game::team::{lemma_player_found, spec_id_is};
use crate::game::utils::{get_random_in_range, get_relative_field_player_stat, has_won, spec_random_in_range, spec_relative_stat};

verus! {

/// The positions a pass can go to from a unit of `n` players: all five with five
/// players, no left wing with four, only the center and the defenders otherwise.
pub open spec fn spec_pass_positions(n: int) -> Seq<PlayerPosition> {
    if n == 5 {
        seq![PlayerPosition::RightWing, PlayerPosition::LeftWing, PlayerPosition::Center,
            PlayerPosition::RightDefender, PlayerPosition::LeftDefender]
    } else if n == 4 {
        seq![PlayerPosition::RightWing, PlayerPosition::Center, PlayerPosition::RightDefender,
            PlayerPosition::LeftDefender]
    } else {
        seq![PlayerPosition::Center, PlayerPosition::RightDefender, PlayerPosition::LeftDefender]
    }
}

/// `s` without `p`.
pub open spec fn spec_without(s: Seq<PlayerPosition>, p: PlayerPosition) -> Seq<PlayerPosition>
    decreases s.len(),
{
    if s.len() == 0 {
        Seq::empty()
    } else if s.last() != p {
        spec_without(s.drop_last(), p).push(s.last())
    } else {
        spec_without(s.drop_last(), p)
    }
}

/// The positions a player at `pos` can pass to, in a unit of `n` players.
pub open spec fn spec_other_positions(pos: PlayerPosition, n: int) -> Seq<PlayerPosition> {
    spec_without(spec_pass_positions(n), pos)
}

/// Whether a pass between the two positions crosses the ice: a left defender and a right
/// wing, or a right defender and a left wing.
pub open spec fn spec_is_diagonal(positions: Seq<PlayerPosition>) -> bool {
    positions.contains(PlayerPosition::LeftDefender) && positions.contains(PlayerPosition::RightWing)
        || positions.contains(PlayerPosition::RightDefender) && positions.contains(PlayerPosition::LeftWing)
}

/// Whether a pass between the positions crosses the ice.
pub fn is_diagonal_pass(positions: Vec<PlayerPosition>) -> (b: bool)
    ensures
        b == spec_is_diagonal(positions@),
{
    contains_position(&positions, PlayerPosition::LeftDefender) && contains_position(&positions, PlayerPosition::RightWing)
        || contains_position(&positions, PlayerPosition::RightDefender) && contains_position(&positions, PlayerPosition::LeftWing)
}

/// The positions a player at `player_pos` can pass to, in a unit of
/// `number_of_players_in_five` players.
pub fn get_other_positions(player_pos: &PlayerPosition, number_of_players_in_five: usize) -> (r: Vec<PlayerPosition>)
    ensures
        r@ == spec_other_positions(*player_pos, number_of_players_in_five as int),
        2 <= r.len() <= 5,
{
    let player_positions = if number_of_players_in_five == 5 {
        vec![PlayerPosition::RightWing, PlayerPosition::LeftWing, PlayerPosition::Center,
            PlayerPosition::RightDefender, PlayerPosition::LeftDefender]
    } else if number_of_players_in_five == 4 {
        vec![PlayerPosition::RightWing, PlayerPosition::Center, PlayerPosition::RightDefender,
            PlayerPosition::LeftDefender]
    } else {
        vec![PlayerPosition::Center, PlayerPosition::RightDefender, PlayerPosition::LeftDefender]
    };
    let ghost base = spec_pass_positions(number_of_players_in_five as int);
    assert(player_positions@ =~= base);
    let mut result: Vec<PlayerPosition> = Vec::new();
    let mut i: usize = 0;
    while i < player_positions.len()
        invariant
            i <= player_positions.len(),
            player_positions@ == base,
            result@ == spec_without(base.take(i as int), *player_pos),
            result.len() <= i,
        decreases player_positions.len() - i,
    {
        assert(base.take(i + 1).drop_last() =~= base.take(i as int));
        if player_positions[i] != *player_pos {
            result.push(player_positions[i]);
        }
        i = i + 1;
    }
    assert(base.take(player_positions.len() as int) =~= base);
    proof {
        reveal_with_fuel(spec_without, 6);
    }
    result
}

/// A position to pass to, drawn with byte 5 of the seed among those that a player at
/// `player_pos` can reach.
pub fn get_another_random_position(seed: &Vec<u8>, player_pos: &PlayerPosition, number_of_players_in_five: usize) -> (r: PlayerPosition)
    requires
        seed.len() > 5,
    ensures
        ({
            let others = spec_other_positions(*player_pos, number_of_players_in_five as int);
            r == others[spec_random_in_range(seed@[5], 0, others.len() as int)]
        }),
{
    let player_positions = get_other_positions(player_pos, number_of_players_in_five);
    let random_pos = get_random_in_range(seed, 0, player_positions.len(), 5);
    player_positions[random_pos]
}

impl Game {
    /// How many players the side of the player with the puck has on the ice.
    pub open spec fn puck_side_players(self) -> int {
        self.user(self.puck_user()).team.active_five.field_players.spec_filled_count()
    }

    /// Where the player with the puck passes.
    pub open spec fn pass_target(self, seed: Seq<u8>) -> PlayerPosition {
        let others = spec_other_positions(self.puck_pos(), self.puck_side_players());
        others[spec_random_in_range(seed[5], 0, others.len() as int)]
    }

    /// Whether the pass crosses the ice.
    pub open spec fn pass_is_diagonal(self, seed: Seq<u8>) -> bool {
        spec_is_diagonal(seq![self.puck_pos(), self.pass_target(seed)])
    }

    /// The opponents' rating against a pass: the IQ of the opponent facing the passer,
    /// weighted by his position, plus the IQ of their center on a pass across the ice.
    pub open spec fn pass_opponent_stat(self, seed: Seq<u8>) -> int {
        let o = self.opponent();
        spec_relative_stat(o, o.stats.spec_iq() * 250) * self.opponent_coeff_pos().0 / 100
            + if self.pass_is_diagonal(seed) {
                self.player_at(PlayerPosition::Center, o.user_id->0).stats.spec_iq() * 250
            } else {
                0
            }
    }

    /// The passer's rating: his IQ.
    pub open spec fn pass_stat(self) -> int {
        spec_relative_stat(self.puck_player(), self.puck_player().stats.spec_iq() * 250)
    }

    /// The receiver of the pass.
    pub open spec fn pass_receiver(self, seed: Seq<u8>) -> FieldPlayer {
        self.player_at(self.pass_target(seed), self.puck_user())
    }

    /// Whether a pass can be played: the passer has a name, the receiver and, on a pass
    /// across the ice, the opponents' center can be found.
    pub open spec fn pass_ready(self, seed: Seq<u8>) -> bool {
        &&& self.duel_ready()
        &&& self.puck_player().name is Some
        &&& self.has_player_at(self.pass_target(seed), self.puck_user())
        &&& self.pass_is_diagonal(seed) ==> self.has_player_at(PlayerPosition::Center, spec_opponent_id(self.puck_user()))
    }

    /// `after` and `actions` are what a pass gives: the receiver gets the puck, or the
    /// opponent facing the passer catches it.
    pub open spec fn spec_pass(self, after: Game, actions: Seq<ActionData>, seed: Seq<u8>) -> bool {
        let p = self.puck_player();
        let o = self.opponent();
        let receiver = self.pass_receiver(seed);
        let target = self.pass_target(seed);
        &&& after == (Game { player_with_puck: after.player_with_puck, ..self })
        &&& if spec_wins(seed, self.pass_stat(), self.pass_opponent_stat(seed)) {
            &&& spec_puck(after.player_with_puck) == Some((self.puck_user(), self.id_by_pos(target, self.puck_user())->0))
            &&& actions == seq![ActionData::Pass {
                action_type: ActionTypes::Pass,
                account_id: self.user(self.puck_user()).account_id,
                from_player_name: p.name->0,
                from_player_number: p.number,
                from: self.puck_pos(),
                to_player_number: receiver.number,
                to: target,
            }]
        } else {
            &&& spec_puck(after.player_with_puck) == self.opponent_takes_puck()
            &&& actions == seq![ActionData::PassCaught {
                action_type: ActionTypes::PassCaught,
                account_id: self.user(spec_opponent_id(self.puck_user())).account_id,
                from_player_number: p.number,
                from: self.puck_pos(),
                to_player_number: receiver.number,
                to: target,
                caught_player_number: o.number,
                caught_player_position: self.opponent_pos(),
            }]
        }
    }
}

impl PassAction {
    /// The player with the puck passes to a teammate drawn with byte 5 of the seed; the
    /// opponent facing him may catch the pass.
    pub fn do_action(&self, game: &mut Game, seed: &Vec<u8>) -> (actions: Vec<ActionData>)
        requires
            seed.len() > 19,
            old(game).pass_ready(seed@),
        ensures
            old(game).spec_pass(*final(game), actions@, seed@),
    {
        let (coeff, opponent) = game.get_opponent_field_player();
        let mut opponent_stat = get_relative_field_player_stat(opponent, opponent.stats.get_iq() as u64 * 250) * coeff as u64 / 100;
        let player_with_puck = game.get_player_with_puck();
        let player_with_puck_stat = get_relative_field_player_stat(player_with_puck, player_with_puck.stats.get_iq() as u64 * 250);
        let (user_id, player_id) = match &game.player_with_puck {
            Some((u, id)) => (*u, id),
            None => (USER_ID1, &game.user1.account_id),
        };
        let user = game.get_user_info(user_id);
        proof { game.lemma_puck_pos(); }
        let player_with_puck_pos = user.team.get_field_player_pos(player_id);
        let number_of_players_in_five = user.team.get_active_five_number_of_player();
        let pass_to = get_another_random_position(seed, &player_with_puck_pos, number_of_players_in_five);
        let diagonal = is_diagonal_pass(vec![player_with_puck_pos, pass_to]);
        if diagonal {
            let center = game.get_field_player_by_pos(opponent.get_user_id(), &PlayerPosition::Center);
            opponent_stat = opponent_stat + center.stats.get_iq() as u64 * 250;
        }
        let receiver = game.get_field_player_by_pos(user_id, &pass_to);
        let mut actions: Vec<ActionData> = Vec::new();
        if has_won(seed, player_with_puck_stat, opponent_stat) {
            let new_player_id = game.get_field_player_id_by_pos(&pass_to, user_id);
            actions.push(ActionData::Pass {
                action_type: ActionTypes::Pass,
                account_id: user.account_id.clone(),
                from_player_name: player_with_puck.name.clone().unwrap(),
                from_player_number: player_with_puck.number,
                from: player_with_puck_pos,
                to_player_number: receiver.number,
                to: pass_to,
            });
            game.player_with_puck = Some((user_id, new_player_id));
        } else {
            let opponent_user = game.get_opponent_info(user_id);
            let opponent_id = opponent.get_player_id();
            proof { game.lemma_opponent_pos(); }
            let opponent_position = opponent_user.team.get_field_player_pos(&opponent_id);
            actions.push(ActionData::PassCaught {
                action_type: ActionTypes::PassCaught,
                account_id: opponent_user.account_id.clone(),
                from_player_number: player_with_puck.number,
                from: player_with_puck_pos,
                to_player_number: receiver.number,
                to: pass_to,
                caught_player_number: opponent.number,
                caught_player_position: opponent_position,
            });
            game.player_with_puck = Some((opponent.get_user_id(), opponent_id));
        }
        actions
    }
}

} // verus!

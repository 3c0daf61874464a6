use vstd::prelude::*;
use crate::game::action::{
    Action, ActionData, ActionTypes, DangleAction, DumpAction, MoveAction, PassAction, ShotAction,
    spec_chosen_action, spec_probability_of_actions,
};
use crate::game::engine::{Game, USER_ID1, USER_ID2};
use crate::game::random_plays::{
    BigPenalty, Giveaway, PROBABILITY_BATTLE, PROBABILITY_BIG_PENALTY, PROBABILITY_GIVEAWAY,
    PROBABILITY_SMALL_PENALTY, PROBABILITY_TAKEAWAY, SmallPenalty, Takeaway, spec_draw,
};
use crate::game::team::Team;
use crate::game::utils::spec_random_in_range;

verus! {

/// How many players of a team are sent off or waiting to be.
pub open spec fn spec_penalty_count(t: Team) -> int {
    t.players_to_big_penalty.len() + t.players_to_small_penalty.len() + t.penalty_players.len()
}

impl Game {
    /// Whether penalties may be called: each side has fewer than two players sent off or
    /// waiting to be.
    pub open spec fn penalties_allowed(self) -> bool {
        spec_penalty_count(self.user1.team) < 2 && spec_penalty_count(self.user2.team) < 2
    }

    /// Whether a giveaway happens this turn.
    pub open spec fn giveaway_happens(self, seed: Seq<u8>) -> bool {
        spec_draw(seed, 11) <= PROBABILITY_GIVEAWAY
    }

    /// Whether a takeaway happens this turn.
    pub open spec fn takeaway_happens(self, seed: Seq<u8>) -> bool {
        spec_draw(seed, 13) <= PROBABILITY_TAKEAWAY
    }

    /// Whether a big penalty is called this turn.
    pub open spec fn big_penalty_happens(self, seed: Seq<u8>) -> bool {
        self.penalties_allowed() && spec_draw(seed, 16) <= PROBABILITY_BIG_PENALTY
    }

    /// Whether a small penalty is called this turn.
    pub open spec fn small_penalty_happens(self, seed: Seq<u8>) -> bool {
        self.penalties_allowed() && spec_draw(seed, 17) <= PROBABILITY_SMALL_PENALTY
    }

    /// Whether the side with the puck is in the opponents' end.
    pub open spec fn in_attack_zone(self) -> bool {
        self.zone_number == 3 && self.puck_user() == USER_ID1 || self.zone_number == 1 && self.puck_user() == USER_ID2
    }

    /// What the player with the puck chooses to do, with the draw of byte 0 of the seed.
    pub open spec fn chosen_action(self, seed: Seq<u8>) -> ActionTypes {
        let five = self.puck_five();
        spec_chosen_action(
            self.in_attack_zone(),
            spec_probability_of_actions(self.puck_player().player_role, five.current_number, five.tactic),
            spec_random_in_range(seed[0], 1, 101),
        )
    }

    /// `after` and `actions` are what a giveaway or takeaway (`kind`) gives, with a battle
    /// on a draw of at most 20 from byte `battle_byte` of the seed.
    pub open spec fn spec_loss(self, after: Game, actions: Seq<ActionData>, seed: Seq<u8>, kind: ActionTypes, battle_byte: int) -> bool {
        if spec_draw(seed, battle_byte) <= PROBABILITY_BATTLE {
            self.spec_battle(after, actions, seed)
        } else {
            self.spec_puck_lost(after, actions, kind)
        }
    }

    /// `after` and `actions` are what a turn of play gives: a random event (giveaway,
    /// takeaway, big or small penalty, in that order of precedence), or else the action
    /// the player with the puck chooses.
    pub open spec fn spec_play(self, after: Game, actions: Seq<ActionData>, seed: Seq<u8>) -> bool {
        if self.giveaway_happens(seed) {
            self.spec_loss(after, actions, seed, ActionTypes::Giveaway, 12)
        } else if self.takeaway_happens(seed) {
            self.spec_loss(after, actions, seed, ActionTypes::Takeaway, 14)
        } else if self.big_penalty_happens(seed) {
            self.spec_penalty_called(after, actions, seed, true)
        } else if self.small_penalty_happens(seed) {
            self.spec_penalty_called(after, actions, seed, false)
        } else {
            match self.chosen_action(seed) {
                ActionTypes::DumpIn => self.spec_dump(after, actions, seed),
                ActionTypes::Shot => self.spec_shot(after, actions, seed),
                ActionTypes::Move => self.spec_move(after, actions, seed),
                _ => self.spec_pass(after, actions, seed),
            }
        }
    }

    /// Whether a turn of play can be played for the seed.
    pub open spec fn play_ready(self, seed: Seq<u8>) -> bool {
        &&& self.duel_ready()
        &&& !self.puck_player().player_role.is_goalie_role()
        &&& spec_penalty_count(self.user1.team) <= usize::MAX
        &&& spec_penalty_count(self.user2.team) <= usize::MAX
        &&& if self.giveaway_happens(seed) {
            spec_draw(seed, 12) <= PROBABILITY_BATTLE ==> self.battle_ready()
        } else if self.takeaway_happens(seed) {
            spec_draw(seed, 14) <= PROBABILITY_BATTLE ==> self.battle_ready()
        } else if self.big_penalty_happens(seed) || self.small_penalty_happens(seed) {
            self.penalty_ready(seed)
        } else {
            match self.chosen_action(seed) {
                ActionTypes::DumpIn => self.dump_ready(seed),
                ActionTypes::Shot => self.shot_ready(seed),
                ActionTypes::Move => true,
                _ => self.pass_ready(seed),
            }
        }
    }
}

impl MoveAction {
    /// The player with the puck skates forward.
    pub fn do_action(&self, game: &mut Game, seed: &Vec<u8>) -> (actions: Vec<ActionData>)
        requires
            seed.len() > 21,
            old(game).duel_ready(),
        ensures
            old(game).spec_move(*final(game), actions@, seed@),
    {
        game.move_action(seed)
    }
}

impl DangleAction {
    /// The player with the puck tries to beat the opponent facing him.
    pub fn do_action(&self, game: &mut Game, seed: &Vec<u8>) -> (actions: Vec<ActionData>)
        requires
            seed.len() > 21,
            old(game).duel_ready(),
            !crate::game::plays::spec_offside(seed@) ==>
                old(game).opponent().stats.defensive_awareness + old(game).opponent().stats.stick_checking <= 255,
            !crate::game::plays::spec_offside(seed@) ==> -127 <= old(game).zone_number <= 126,
        ensures
            old(game).spec_dangle(*final(game), actions@, seed@),
    {
        game.dangle_action(seed)
    }
}

impl Action {
    /// The random event of the turn, if any: a giveaway, a takeaway, or, while each side
    /// has fewer than two players sent off, a big or a small penalty. Pucks leaving the
    /// rink, fights and nets coming off never happen (their chances are below the least
    /// draw).
    pub fn random_action_happened(&self, game: &mut Game, seed: &Vec<u8>) -> (r: Option<Vec<ActionData>>)
        requires
            seed.len() > 21,
            old(game).play_ready(seed@),
        ensures
            ({
                let g = *old(game);
                if g.giveaway_happens(seed@) || g.takeaway_happens(seed@) || g.big_penalty_happens(seed@)
                    || g.small_penalty_happens(seed@) {
                    r matches Some(actions) && g.spec_play(*final(game), actions@, seed@)
                } else {
                    r is None && *final(game) == g
                }
            }),
    {
        if Giveaway.check_probability(seed) {
            return Some(Giveaway.do_action(game, seed));
        }
        if Takeaway.check_probability(seed) {
            return Some(Takeaway.do_action(game, seed));
        }
        let number_of_penalty_players1 = game.user1.team.get_number_of_penalty_players();
        let number_of_penalty_players2 = game.user2.team.get_number_of_penalty_players();
        if number_of_penalty_players1 < 2 && number_of_penalty_players2 < 2 {
            if BigPenalty.check_probability(seed) {
                return Some(BigPenalty.do_action(game, seed));
            }
            if SmallPenalty.check_probability(seed) {
                return Some(SmallPenalty.do_action(game, seed));
            }
        }
        None
    }

    /// The player with the puck chooses what to do (in the opponents' end or not, by his
    /// role and his unit) and does it.
    pub fn choose_and_do_action(&self, game: &mut Game, seed: &Vec<u8>) -> (actions: Vec<ActionData>)
        requires
            seed.len() > 21,
            old(game).play_ready(seed@),
            !old(game).giveaway_happens(seed@),
            !old(game).takeaway_happens(seed@),
            !old(game).big_penalty_happens(seed@),
            !old(game).small_penalty_happens(seed@),
        ensures
            old(game).spec_play(*final(game), actions@, seed@),
    {
        let (user_id, player_id) = match &game.player_with_puck {
            Some((u, id)) => (*u, id.clone()),
            None => (USER_ID1, game.user1.account_id.clone()),
        };
        let is_attack_zone = game.zone_number == 3 && user_id == USER_ID1 || game.zone_number == 1 && user_id == USER_ID2;
        let user = game.get_user_info(user_id);
        let role = user.team.get_field_player(&player_id).player_role;
        let action = self.get_action(seed, is_attack_zone, role, &user.team.active_five);
        match action {
            ActionTypes::DumpIn => DumpAction.do_action(game, seed),
            ActionTypes::Shot => ShotAction.do_action(game, seed),
            ActionTypes::Move => MoveAction.do_action(game, seed),
            _ => PassAction.do_action(game, seed),
        }
    }

    /// A turn of play: a random event if one happens, else the chosen action.
    pub fn do_action(&self, game: &mut Game, seed: &Vec<u8>) -> (actions: Vec<ActionData>)
        requires
            seed.len() > 21,
            old(game).play_ready(seed@),
        ensures
            old(game).spec_play(*final(game), actions@, seed@),
    {
        let events = self.random_action_happened(game, seed);
        match events {
            Some(actions) => actions,
            None => self.choose_and_do_action(game, seed),
        }
    }
}

} // verus!

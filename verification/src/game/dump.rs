use vstd::prelude::*;
use crate::game::action::{ActionData, ActionTypes, DumpAction};
use crate::game::engine::{Game, spec_opponent_id, spec_puck, USER_ID1, USER_ID2};
use crate::game::five::ActiveFive;
use crate::game::player::PlayerPosition;
use crate::game::team::{lemma_player_found, spec_id_is};
use crate::game::utils::{get_random_in_range, spec_random_in_range};
use crate::game::random_plays::spec_draw;

verus! {

/// Chances, in percent, of the outcomes of a dump.
pub const ICING_PROBABILITY: usize = 10;
pub const POSITION_PROBABILITY: usize = 50;
pub const PROBABILITY_PASS_CATCH: usize = 25;
pub const PROBABILITY_DUMP_OUT_TO_DEFENDER: usize = 50;

/// Where a dump from `pos` goes for a unit `five`: a penalty-kill unit dumps to its
/// right wing when it has four players and to its center otherwise; any other unit
/// dumps to the left wing on a draw of at most 50 from byte 4 of the seed (unless the
/// player is the left wing), else to the right wing (unless he is the right wing, then
/// to the left wing).
pub open spec fn spec_pos_to_dump(pos: PlayerPosition, five: ActiveFive, seed: Seq<u8>) -> PlayerPosition {
    if five.current_number.is_penalty_kill() {
        if five.field_players.spec_filled_count() == 4 { PlayerPosition::RightWing } else { PlayerPosition::Center }
    } else if spec_draw(seed, 4) <= POSITION_PROBABILITY && pos != PlayerPosition::LeftWing {
        PlayerPosition::LeftWing
    } else if pos != PlayerPosition::RightWing {
        PlayerPosition::RightWing
    } else {
        PlayerPosition::LeftWing
    }
}

/// The defender who intercepts a dump from `pos`: the right defender against the left
/// side, the left defender against the right side.
pub open spec fn spec_interception_position(pos: PlayerPosition) -> PlayerPosition {
    if pos == PlayerPosition::LeftDefender || pos == PlayerPosition::LeftWing {
        PlayerPosition::RightDefender
    } else {
        PlayerPosition::LeftDefender
    }
}

/// Whether a dump from `pos` can be intercepted: it comes from a side position.
pub open spec fn spec_side_position(pos: PlayerPosition) -> bool {
    pos == PlayerPosition::LeftDefender || pos == PlayerPosition::LeftWing
        || pos == PlayerPosition::RightDefender || pos == PlayerPosition::RightWing
}

/// The wingers' and center's positions but `pos`, in the order right wing, center, left wing.
pub open spec fn spec_winger_positions(pos: PlayerPosition) -> Seq<PlayerPosition> {
    if pos == PlayerPosition::RightWing {
        seq![PlayerPosition::Center, PlayerPosition::LeftWing]
    } else if pos == PlayerPosition::Center {
        seq![PlayerPosition::RightWing, PlayerPosition::LeftWing]
    } else if pos == PlayerPosition::LeftWing {
        seq![PlayerPosition::RightWing, PlayerPosition::Center]
    } else {
        seq![PlayerPosition::RightWing, PlayerPosition::Center, PlayerPosition::LeftWing]
    }
}

/// Where a dump back to the neutral zone goes: drawn with byte 10 of the seed in
/// `1..len` among the positions of `spec_winger_positions`, so never the first one.
pub open spec fn spec_winger_position(pos: PlayerPosition, seed: Seq<u8>) -> PlayerPosition {
    let positions = spec_winger_positions(pos);
    positions[spec_random_in_range(seed[10], 1, positions.len() as int)]
}

/// The defender who intercepts a dump from `player_position`.
pub fn get_interception_position(player_position: &PlayerPosition) -> (r: PlayerPosition)
    requires
        spec_side_position(*player_position),
    ensures
        r == spec_interception_position(*player_position),
{
    match player_position {
        PlayerPosition::LeftDefender | PlayerPosition::LeftWing => PlayerPosition::RightDefender,
        _ => PlayerPosition::LeftDefender,
    }
}

/// Where a dump from `player_position` goes for the unit `five`.
pub fn get_random_pos_to_dump(seed: &Vec<u8>, player_position: &PlayerPosition, five: &ActiveFive) -> (r: PlayerPosition)
    requires
        seed.len() > 4,
    ensures
        r == spec_pos_to_dump(*player_position, *five, seed@),
{
    if five.current_number.is_penalty_kill_unit() {
        let number_of_field_players = five.get_number_of_players();
        return if number_of_field_players == 4 { PlayerPosition::RightWing } else { PlayerPosition::Center };
    }
    let rnd = get_random_in_range(seed, 1, 100, 4);
    if POSITION_PROBABILITY >= rnd && *player_position != PlayerPosition::LeftWing {
        PlayerPosition::LeftWing
    } else if *player_position != PlayerPosition::RightWing {
        PlayerPosition::RightWing
    } else {
        PlayerPosition::LeftWing
    }
}

/// Where a dump back to the neutral zone goes.
pub fn get_random_winger_position(seed: &Vec<u8>, player_position: &PlayerPosition) -> (r: PlayerPosition)
    requires
        seed.len() > 10,
    ensures
        r == spec_winger_position(*player_position, seed@),
{
    let mut positions: Vec<PlayerPosition> = Vec::new();
    if *player_position != PlayerPosition::RightWing {
        positions.push(PlayerPosition::RightWing);
    }
    if *player_position != PlayerPosition::Center {
        positions.push(PlayerPosition::Center);
    }
    if *player_position != PlayerPosition::LeftWing {
        positions.push(PlayerPosition::LeftWing);
    }
    assert(positions@ =~= spec_winger_positions(*player_position));
    let rnd = get_random_in_range(seed, 1, positions.len(), 10);
    positions[rnd]
}

impl Game {
    /// The unit on the ice of the side with the puck.
    pub open spec fn puck_five(self) -> ActiveFive {
        self.user(self.puck_user()).team.active_five
    }

    /// Where the player with the puck dumps it.
    pub open spec fn dump_target(self, seed: Seq<u8>) -> PlayerPosition {
        spec_pos_to_dump(self.puck_pos(), self.puck_five(), seed)
    }

    /// Whether the player with the puck ices it from the neutral zone: a defender of a
    /// unit that is not killing a penalty, on a draw of at most 10 from byte 3 of the seed.
    pub open spec fn neutral_icing(self, seed: Seq<u8>) -> bool {
        &&& !self.puck_five().current_number.is_penalty_kill()
        &&& (self.puck_pos() == PlayerPosition::LeftDefender || self.puck_pos() == PlayerPosition::RightDefender)
        &&& spec_draw(seed, 3) <= ICING_PROBABILITY
    }

    /// Whether the player with the puck ices it from his end: a unit that is not killing
    /// a penalty, on a draw of at most 10 from byte 8 of the seed.
    pub open spec fn defender_icing(self, seed: Seq<u8>) -> bool {
        !self.puck_five().current_number.is_penalty_kill() && spec_draw(seed, 8) <= ICING_PROBABILITY
    }

    /// The icing event.
    pub open spec fn spec_icing_action(self) -> ActionData {
        ActionData::Icing {
            action_type: ActionTypes::Icing,
            account_id: self.user(self.puck_user()).account_id,
            player_number: self.puck_player().number,
        }
    }

    /// `after` and `actions` are what a dump to the teammate at `target` gives: the puck
    /// goes to him and into the opponents' end.
    pub open spec fn spec_dump_to(self, after: Game, actions: Seq<ActionData>, target: PlayerPosition, kind: ActionTypes, zone: i8) -> bool {
        let u = self.puck_user();
        let id = self.id_by_pos(target, u)->0;
        let receiver = self.player_at(target, u);
        &&& after == (Game { player_with_puck: after.player_with_puck, zone_number: zone, ..self })
        &&& spec_puck(after.player_with_puck) == Some((u, id))
        &&& actions == seq![ActionData::Dump {
            action_type: kind,
            account_id: self.user(u).account_id,
            zone_number: zone as u8,
            from_player_number: self.puck_player().number,
            from: self.puck_pos(),
            to_player_number: receiver.number,
            to: self.user(u).team.active_five.field_players.spec_find(id)->0,
        }]
    }

    /// The zone of the opponents' end for the side with the puck.
    pub open spec fn attack_zone(self) -> i8 {
        if self.puck_user() == USER_ID1 { 3 } else { 1 }
    }

    /// `after` and `actions` are what an intercepted dump gives.
    pub open spec fn spec_dump_caught(self, after: Game, actions: Seq<ActionData>, seed: Seq<u8>) -> bool {
        let u = self.puck_user();
        let o = spec_opponent_id(u);
        let target = self.dump_target(seed);
        let interception = spec_interception_position(self.puck_pos());
        &&& after == (Game { player_with_puck: after.player_with_puck, ..self })
        &&& spec_puck(after.player_with_puck) == Some((self.user(o).user_id, self.id_by_pos(interception, self.user(o).user_id)->0))
        &&& actions == seq![ActionData::PassCaught {
            action_type: ActionTypes::PassCaught,
            account_id: self.user(o).account_id,
            from_player_number: self.puck_player().number,
            from: self.puck_pos(),
            to_player_number: self.player_at(target, u).number,
            to: target,
            caught_player_number: self.player_at(interception, o).number,
            caught_player_position: interception,
        }]
    }

    /// Whether the player with the puck can be found on the ice.
    pub open spec fn puck_found(self) -> bool {
        &&& self.player_with_puck is Some
        &&& (self.puck_user() == USER_ID1 || self.puck_user() == USER_ID2)
        &&& self.user1.user_id == USER_ID1
        &&& self.user2.user_id == USER_ID2
        &&& self.user(self.puck_user()).team.has_player(self.puck_id())
        &&& self.puck_five().field_players.spec_find(self.puck_id()) is Some
    }

    /// Whether a dump can be played for the seed: the player with the puck and the
    /// teammate or the opponent who gets it can be found.
    pub open spec fn dump_ready(self, seed: Seq<u8>) -> bool {
        let u = self.puck_user();
        &&& self.puck_found()
        &&& if self.zone_number == 2 {
            !self.neutral_icing(seed) ==> self.has_player_at(self.dump_target(seed), u)
        } else if spec_draw(seed, 7) <= PROBABILITY_PASS_CATCH {
            &&& spec_side_position(self.puck_pos())
            &&& self.has_player_at(self.dump_target(seed), u)
            &&& self.has_player_at(spec_interception_position(self.puck_pos()), spec_opponent_id(u))
        } else if self.defender_icing(seed) {
            true
        } else if spec_draw(seed, 9) <= PROBABILITY_DUMP_OUT_TO_DEFENDER {
            self.has_player_at(self.dump_target(seed), u)
        } else {
            self.has_player_at(spec_winger_position(self.puck_pos(), seed), u)
        }
    }

    /// `after` and `actions` are what a dump gives for the seed.
    pub open spec fn spec_dump(self, after: Game, actions: Seq<ActionData>, seed: Seq<u8>) -> bool {
        if self.zone_number == 2 {
            if self.neutral_icing(seed) {
                after == self && actions == seq![self.spec_icing_action()]
            } else {
                self.spec_dump_to(after, actions, self.dump_target(seed), ActionTypes::DumpIn, self.attack_zone())
            }
        } else if spec_draw(seed, 7) <= PROBABILITY_PASS_CATCH {
            self.spec_dump_caught(after, actions, seed)
        } else if self.defender_icing(seed) {
            after == self && actions == seq![self.spec_icing_action()]
        } else if spec_draw(seed, 9) <= PROBABILITY_DUMP_OUT_TO_DEFENDER {
            self.spec_dump_to(after, actions, self.dump_target(seed), ActionTypes::DumpOut, self.attack_zone())
        } else {
            self.spec_dump_to(after, actions, spec_winger_position(self.puck_pos(), seed), ActionTypes::DumpOut, 2)
        }
    }

    /// The player with the puck stands where his unit has him.
    pub proof fn lemma_puck_found(self)
        requires
            self.puck_found(),
        ensures
            self.puck_five().field_players.at(self.puck_pos()) == Some(self.puck_id()),
            spec_id_is(self.puck_player(), self.puck_id()),
    {
        self.puck_five().field_players.lemma_find_upto_some(self.puck_id(), 7);
        lemma_player_found(self.user(self.puck_user()).team.field_players@, self.puck_id());
    }

    /// Dumps the puck to the teammate at `target`; the puck ends up in `zone`.
    fn dump_to(&mut self, target: PlayerPosition, kind: ActionTypes, zone: i8) -> (actions: Vec<ActionData>)
        requires
            old(self).puck_found(),
            old(self).has_player_at(target, old(self).puck_user()),
            0 <= zone,
        ensures
            old(self).spec_dump_to(*final(self), actions@, target, kind, zone),
    {
        let (user_id, player_id) = match &self.player_with_puck {
            Some((u, id)) => (*u, id),
            None => (USER_ID1, &self.user1.account_id),
        };
        let user = self.get_user_info(user_id);
        proof { self.lemma_puck_found(); }
        let player_with_puck = user.team.get_field_player(player_id);
        let player_with_puck_position = user.team.get_field_player_pos(player_id);
        let player_id_to_dump = self.get_field_player_id_by_pos(&target, user_id);
        proof { self.lemma_player_at_found(target, user_id); }
        let player = user.team.get_field_player(&player_id_to_dump);
        let player_position = user.team.get_field_player_pos(&player_id_to_dump);
        let mut actions: Vec<ActionData> = Vec::new();
        actions.push(ActionData::Dump {
            action_type: kind,
            account_id: user.account_id.clone(),
            zone_number: zone as u8,
            from_player_number: player_with_puck.number,
            from: player_with_puck_position,
            to_player_number: player.number,
            to: player_position,
        });
        self.zone_number = zone;
        self.player_with_puck = Some((user_id, player_id_to_dump));
        actions
    }

    /// The icing event for the player with the puck.
    fn icing(&self) -> (actions: Vec<ActionData>)
        requires
            self.puck_found(),
        ensures
            actions@ == seq![self.spec_icing_action()],
    {
        let (user_id, player_id) = match &self.player_with_puck {
            Some((u, id)) => (*u, id),
            None => (USER_ID1, &self.user1.account_id),
        };
        let user = self.get_user_info(user_id);
        let player_with_puck = user.team.get_field_player(player_id);
        let mut actions: Vec<ActionData> = Vec::new();
        actions.push(ActionData::Icing {
            action_type: ActionTypes::Icing,
            account_id: user.account_id.clone(),
            player_number: player_with_puck.number,
        });
        actions
    }
}

impl DumpAction {
    /// The player with the puck dumps it: from the neutral zone into the opponents' end
    /// (or ices it); from an end, a dump that may be intercepted, iced, sent into the
    /// opponents' end or back to a forward in the neutral zone.
    #[verifier::rlimit(30)]
    pub fn do_action(&self, game: &mut Game, seed: &Vec<u8>) -> (actions: Vec<ActionData>)
        requires
            seed.len() > 10,
            old(game).dump_ready(seed@),
        ensures
            old(game).spec_dump(*final(game), actions@, seed@),
    {
        let (user_id, player_id) = match &game.player_with_puck {
            Some((u, id)) => (*u, id.clone()),
            None => (USER_ID1, game.user1.account_id.clone()),
        };
        proof { game.lemma_puck_found(); }
        let player_position = game.get_user_info(user_id).team.get_field_player_pos(&player_id);
        let is_pk = game.get_user_info(user_id).team.active_five.current_number.is_penalty_kill_unit();
        let attack_zone: i8 = if user_id == USER_ID1 { 3 } else { 1 };
        if game.zone_number == 2 {
            let rnd = get_random_in_range(seed, 1, 100, 3);
            if !is_pk && (player_position == PlayerPosition::LeftDefender || player_position == PlayerPosition::RightDefender)
                && ICING_PROBABILITY >= rnd {
                return game.icing();
            }
            let target = get_random_pos_to_dump(seed, &player_position, &game.get_user_info(user_id).team.active_five);
            return game.dump_to(target, ActionTypes::DumpIn, attack_zone);
        }
        let rnd_catch = get_random_in_range(seed, 1, 100, 7);
        if PROBABILITY_PASS_CATCH >= rnd_catch {
            return self.pass_catch(game, seed, &player_position);
        }
        let rnd_icing = get_random_in_range(seed, 1, 100, 8);
        if !is_pk && ICING_PROBABILITY >= rnd_icing {
            return game.icing();
        }
        let rnd = get_random_in_range(seed, 1, 100, 9);
        if PROBABILITY_DUMP_OUT_TO_DEFENDER >= rnd {
            let target = get_random_pos_to_dump(seed, &player_position, &game.get_user_info(user_id).team.active_five);
            game.dump_to(target, ActionTypes::DumpOut, attack_zone)
        } else {
            let target = get_random_winger_position(seed, &player_position);
            game.dump_to(target, ActionTypes::DumpOut, 2)
        }
    }

    /// The dump from `player_position` is intercepted by a defender of the other side.
    fn pass_catch(&self, game: &mut Game, seed: &Vec<u8>, player_position: &PlayerPosition) -> (actions: Vec<ActionData>)
        requires
            seed.len() > 10,
            old(game).puck_found(),
            *player_position == old(game).puck_pos(),
            spec_side_position(*player_position),
            old(game).has_player_at(old(game).dump_target(seed@), old(game).puck_user()),
            old(game).has_player_at(spec_interception_position(*player_position), spec_opponent_id(old(game).puck_user())),
        ensures
            old(game).spec_dump_caught(*final(game), actions@, seed@),
    {
        let (user_id, player_id) = match &game.player_with_puck {
            Some((u, id)) => (*u, id),
            None => (USER_ID1, &game.user1.account_id),
        };
        let user_with_puck = game.get_user_info(user_id);
        let position_to_dump = get_random_pos_to_dump(seed, player_position, &user_with_puck.team.active_five);
        let player_to_dump = game.get_field_player_by_pos(user_id, &position_to_dump);
        let player_with_puck = user_with_puck.team.get_field_player(player_id);
        let interception_position = get_interception_position(player_position);
        let opponent = game.get_opponent_info(user_id);
        let field_player_id = game.get_field_player_id_by_pos(&interception_position, opponent.user_id);
        let opponent_player = opponent.team.get_field_player(&field_player_id);
        let mut actions: Vec<ActionData> = Vec::new();
        actions.push(ActionData::PassCaught {
            action_type: ActionTypes::PassCaught,
            account_id: opponent.account_id.clone(),
            from_player_number: player_with_puck.number,
            from: *player_position,
            to_player_number: player_to_dump.number,
            to: position_to_dump,
            caught_player_number: opponent_player.number,
            caught_player_position: interception_position,
        });
        game.player_with_puck = Some((opponent.user_id, field_player_id));
        actions
    }
}

} // verus!

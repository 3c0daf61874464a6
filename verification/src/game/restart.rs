use vstd::prelude::*;
use crate::game::action::{Action, ActionData, ActionTypes};

use crate::game::engine::{Game, UserInfo, spec_opponent_id, spec_opponent_position, SECOND, USER_ID1, USER_ID2};
use crate::game::player::PlayerPosition;
use crate::game::plays::spec_wins;
use crate::game::team::{Team, spec_swapped_all};
use crate::game::utils::{get_random_in_range, has_won, spec_random_in_range};

verus! {

/// Where the face-off after the puck left play in `zone` takes place: drawn with byte 22
/// of the seed in `1..len` among the right-hand candidates of the zone (so always the
/// second one): the defenders in zone 1, the wingers in zone 3.
pub open spec fn spec_zone_position(zone: i8, seed: Seq<u8>) -> PlayerPosition {
    let positions = if zone == 1 {
        seq![PlayerPosition::LeftDefender, PlayerPosition::RightDefender]
    } else {
        seq![PlayerPosition::LeftWing, PlayerPosition::RightWing]
    };
    positions[spec_random_in_range(seed[22], 1, 2)]
}

/// Where the face-off after an offside of a player of `user_id` takes place.
pub open spec fn spec_offside_position(user_id: usize, seed: Seq<u8>) -> PlayerPosition {
    let positions = if user_id == USER_ID1 {
        seq![PlayerPosition::LeftWing, PlayerPosition::RightWing]
    } else {
        seq![PlayerPosition::LeftDefender, PlayerPosition::RightDefender]
    };
    positions[spec_random_in_range(seed[22], 1, 2)]
}

impl Game {
    /// `after` is the match once both sides send their whole units on the ice.
    pub open spec fn spec_all_swapped(self, after: Game) -> bool {
        &&& spec_swapped_all(self.user1.team, after.user1.team)
        &&& spec_swapped_all(self.user2.team, after.user2.team)
        &&& after == (Game {
            user1: UserInfo { team: after.user1.team, ..self.user1 },
            user2: UserInfo { team: after.user2.team, ..self.user2 },
            ..self
        })
    }

    /// Whether both sides can send their whole units on the ice.
    pub open spec fn swap_ready(self) -> bool {
        &&& self.user1.team.has_five(self.user1.team.active_five.current_number)
        &&& self.user1.team.active_five.is_goalie_out ==>
            self.user1.team.goalie_substitutions.slot(self.user1.team.active_goalie_substitution) is Some
        &&& self.user2.team.has_five(self.user2.team.active_five.current_number)
        &&& self.user2.team.active_five.is_goalie_out ==>
            self.user2.team.goalie_substitutions.slot(self.user2.team.active_goalie_substitution) is Some
    }

    /// Both sides send their whole units on the ice.
    pub fn swap_all_players_in_fives(&mut self)
        requires
            old(self).swap_ready(),
        ensures
            old(self).spec_all_swapped(*final(self)),
    {
        self.user1.team.swap_all_players_in_active_five();
        self.user2.team.swap_all_players_in_active_five();
    }

    /// The user of the player with the puck.
    pub fn get_user_id_player_with_puck(&self) -> (r: usize)
        requires
            self.player_with_puck is Some,
        ensures
            r == self.puck_user(),
    {
        match &self.player_with_puck {
            Some((u, _)) => *u,
            None => USER_ID1,
        }
    }

    /// Where the face-off after the puck left play takes place.
    pub fn get_random_position(&self, seed: &Vec<u8>) -> (r: PlayerPosition)
        requires
            seed.len() > 22,
            self.zone_number == 1 || self.zone_number == 3,
        ensures
            r == spec_zone_position(self.zone_number, seed@),
    {
        let positions = if self.zone_number == 1 {
            vec![PlayerPosition::LeftDefender, PlayerPosition::RightDefender]
        } else {
            vec![PlayerPosition::LeftWing, PlayerPosition::RightWing]
        };
        let rnd = get_random_in_range(seed, 1, positions.len(), 22);
        positions[rnd]
    }

    /// Where the face-off after an offside takes place.
    pub fn get_random_position_after_offside(&self, seed: &Vec<u8>) -> (r: PlayerPosition)
        requires
            seed.len() > 22,
            self.player_with_puck is Some,
        ensures
            r == spec_offside_position(self.puck_user(), seed@),
    {
        let user_id = self.get_user_id_player_with_puck();
        let positions = if user_id == USER_ID1 {
            vec![PlayerPosition::LeftWing, PlayerPosition::RightWing]
        } else {
            vec![PlayerPosition::LeftDefender, PlayerPosition::RightDefender]
        };
        let rnd = get_random_in_range(seed, 1, positions.len(), 22);
        positions[rnd]
    }

    /// Where the face-off after a save takes place: facing the side of the shooter, or
    /// by the zone when the center shot.
    pub open spec fn save_position(self, seed: Seq<u8>) -> PlayerPosition {
        let u = self.puck_user();
        let n = self.user(u).team.active_five.field_players.spec_filled_count();
        let n_opp = self.user(spec_opponent_id(u)).team.active_five.field_players.spec_filled_count();
        let pos = self.puck_pos();
        if pos == PlayerPosition::LeftWing || pos == PlayerPosition::LeftDefender {
            spec_opponent_position(n, n_opp, PlayerPosition::LeftWing).1
        } else if pos == PlayerPosition::RightWing || pos == PlayerPosition::RightDefender {
            spec_opponent_position(n, n_opp, PlayerPosition::RightWing).1
        } else {
            spec_zone_position(self.zone_number, seed)
        }
    }

    /// Whether the face-off position after a save can be found.
    pub open spec fn save_position_ready(self) -> bool {
        &&& self.puck_found()
        &&& self.puck_pos() != PlayerPosition::AdditionalPosition
        &&& self.puck_pos() != PlayerPosition::GoaliePos
        &&& self.puck_pos() == PlayerPosition::Center ==> (self.zone_number == 1 || self.zone_number == 3)
    }

    /// The face-off position after a save.
    pub fn face_off_after_save_position(&self, seed: &Vec<u8>) -> (r: PlayerPosition)
        requires
            seed.len() > 22,
            self.save_position_ready(),
        ensures
            r == self.save_position(seed@),
    {
        let (user_id, player_id) = match &self.player_with_puck {
            Some((u, id)) => (*u, id),
            None => (USER_ID1, &self.user1.account_id),
        };
        let user = self.get_user_info(user_id);
        proof { self.lemma_puck_found(); }
        let position = user.team.get_field_player_pos(player_id);
        let opponent_user = self.get_opponent_info(user_id);
        let n = user.team.active_five.get_number_of_players();
        let n_opp = opponent_user.team.active_five.get_number_of_players();
        match position {
            PlayerPosition::LeftWing | PlayerPosition::LeftDefender =>
                self.get_opponent_position(n, n_opp, &PlayerPosition::LeftWing).1,
            PlayerPosition::RightWing | PlayerPosition::RightDefender =>
                self.get_opponent_position(n, n_opp, &PlayerPosition::RightWing).1,
            _ => self.get_random_position(seed),
        }
    }

    /// The penalty taker's rating: his skating, shooting, morale and IQ.
    pub open spec fn penalty_shot_stat(self) -> int {
        let s = self.puck_player().stats;
        (s.spec_skating() * 200 + s.spec_shooting() * 250 + s.morale * 1000 + s.spec_iq() * 250) / 4
    }

    /// The goalie's rating against a penalty shot: his reflexes and morale.
    pub open spec fn penalty_shot_goalie_stat(self) -> int {
        let g = self.opponent_goalie();
        (g.stats.spec_reflexes() * 1000 / 7 + g.stats.morale * 1000) / 2
    }

    /// Whether a penalty shot can be taken: the taker has a name and an image, the other
    /// net has a goalie, and the score can grow.
    pub open spec fn penalty_shot_possible(self) -> bool {
        let u = self.puck_user();
        let t = self.user(spec_opponent_id(u)).team;
        &&& self.puck_found()
        &&& self.puck_player().name is Some
        &&& self.puck_player().img is Some
        &&& t.goalies.slot(t.active_goalie) is Some
        &&& self.user(u).team.score < 255
    }

    /// `after` and `actions` are what a penalty shot gives: a goal or a save.
    pub open spec fn spec_penalty_shot(self, after: Game, actions: Seq<ActionData>, seed: Seq<u8>) -> bool {
        let u = self.puck_user();
        let o = spec_opponent_id(u);
        let p = self.puck_player();
        if spec_wins(seed, self.penalty_shot_stat(), self.penalty_shot_goalie_stat()) {
            &&& after == self.with_team(u, Team { score: (self.user(u).team.score + 1) as u8, ..self.user(u).team })
            &&& actions == seq![ActionData::Goal {
                action_type: ActionTypes::Goal,
                account_id: self.user(u).account_id,
                player_name1: p.name->0,
                player_img: p.img->0,
                player_number1: p.number,
                player_name2: None,
                player_number2: None,
            }]
        } else {
            &&& after == self
            &&& actions == seq![ActionData::Save {
                action_type: ActionTypes::Save,
                account_id: self.user(o).account_id,
                goalie_number: self.opponent_goalie().number,
            }]
        }
    }

    /// The player with the puck takes a penalty shot against the goalie in the other net.
    pub fn do_penalty_shot(&mut self, seed: &Vec<u8>) -> (actions: Vec<ActionData>)
        requires
            seed.len() > 19,
            old(self).penalty_shot_possible(),
        ensures
            old(self).spec_penalty_shot(*final(self), actions@, seed@),
    {
        let (user_id, player_id) = match &self.player_with_puck {
            Some((u, id)) => (*u, id.clone()),
            None => (USER_ID1, self.user1.account_id.clone()),
        };
        let player = self.get_user_info(user_id).team.get_field_player(&player_id);
        let player_stat: u64 = (player.stats.get_skating() as u64 * 200 + player.stats.get_shooting() as u64 * 250
            + player.stats.morale as u64 * 1000 + player.stats.get_iq() as u64 * 250) / 4;
        let user_opponent = self.get_opponent_info(user_id);
        let opponent_goalie = user_opponent.team.goalies.get(&user_opponent.team.active_goalie);
        let goalie_stat: u64 = (opponent_goalie.stats.get_reflexes() as u64 * 1000 / 7
            + opponent_goalie.stats.morale as u64 * 1000) / 2;
        let mut actions: Vec<ActionData> = Vec::new();
        if has_won(seed, player_stat, goalie_stat) {
            actions.push(ActionData::Goal {
                action_type: ActionTypes::Goal,
                account_id: self.get_user_info(user_id).account_id.clone(),
                player_name1: player.name.clone().unwrap(),
                player_img: player.img.clone().unwrap(),
                player_number1: player.number,
                player_name2: None,
                player_number2: None,
            });
            if user_id == USER_ID1 {
                self.user1.team.score = self.user1.team.score + 1;
            } else {
                self.user2.team.score = self.user2.team.score + 1;
            }
        } else {
            actions.push(ActionData::Save {
                action_type: ActionTypes::Save,
                account_id: user_opponent.account_id.clone(),
                goalie_number: opponent_goalie.number,
            });
        }
        actions
    }

    /// The match before the restart face-off: the delay grows by three seconds, and the
    /// zone and the player with the puck are as given.
    pub open spec fn prepared(self, zone: i8, puck: Option<(usize, String)>) -> Game {
        Game {
            zone_number: zone,
            event_generation_delay: (self.event_generation_delay + 3 * SECOND) as u64,
            player_with_puck: puck,
            ..self
        }
    }

    /// `after` and `actions` are what a face-off at `pos` gives once both sides send their
    /// whole units on the ice from the match `prep`.
    pub open spec fn spec_swapped_face_off(prep: Game, after: Game, actions: Seq<ActionData>, seed: Seq<u8>, pos: PlayerPosition) -> bool {
        exists|gs: Game| #[trigger] prep.spec_all_swapped(gs) && gs.spec_face_off(pos, after, actions, seed)
    }

    /// Whether a face-off at `pos` can be held once both sides send their whole units on
    /// the ice from the match `prep`.
    pub open spec fn swapped_face_off_ready(prep: Game, pos: PlayerPosition) -> bool {
        &&& prep.swap_ready()
        &&& forall|gs: Game| #[trigger] prep.spec_all_swapped(gs) ==> gs.face_off_ready(pos)
    }

    /// The zone where play restarts after a penalty or a fight: the end of the side with
    /// the puck.
    pub open spec fn penalty_zone(self) -> i8 {
        if self.puck_user() == USER_ID1 { 1 } else { 3 }
    }

    /// `after` and `actions` are what the next event gives, by the last one: a face-off
    /// to start the match or after a goal or a period, after the puck or the net left
    /// play, after an offside, a save, a penalty or a fight; a penalty shot; or a turn of
    /// play. No event follows an icing: its restart would send on the unit facing the side
    /// with the puck only after the puck has been taken from that side, so there is no such
    /// side to find.
    pub open spec fn spec_next_event(self, after: Game, actions: Seq<ActionData>, seed: Seq<u8>) -> bool {
        match self.last_action {
            ActionData::StartGame { .. } => exists|fo: Seq<ActionData>|
                #[trigger] self.prepared(2, self.player_with_puck).spec_face_off(PlayerPosition::Center, after, fo, seed)
                && actions == seq![ActionData::StartGame { action_type: ActionTypes::StartGame }] + fo,
            ActionData::Goal { .. } | ActionData::EndOfPeriod { .. } =>
                Self::spec_swapped_face_off(self.prepared(2, None), after, actions, seed, PlayerPosition::Center),
            ActionData::PuckOut { .. } | ActionData::NetOff { .. } =>
                Self::spec_swapped_face_off(self.prepared(self.zone_number, None), after, actions, seed,
                    spec_zone_position(self.zone_number, seed)),
            ActionData::Offside { .. } =>
                Self::spec_swapped_face_off(self.prepared(self.zone_number, None), after, actions, seed,
                    spec_offside_position(self.puck_user(), seed)),
            ActionData::Save { .. } => exists|gs: Game|
                #[trigger] self.prepared(self.zone_number, self.player_with_puck).spec_all_swapped(gs)
                && gs.spec_face_off(gs.save_position(seed), after, actions, seed),
            ActionData::Penalty { .. } | ActionData::Fight { .. } | ActionData::FightWon { .. } =>
                Self::spec_swapped_face_off(self.prepared(self.penalty_zone(), None), after, actions, seed,
                    spec_zone_position(self.penalty_zone(), seed)),
            ActionData::PenaltyShot { .. } =>
                (Game { event_generation_delay: (self.event_generation_delay + 5 * SECOND) as u64, ..self })
                    .spec_penalty_shot(after, actions, seed),
            ActionData::Icing { .. } => false,
            _ => self.spec_play(after, actions, seed),
        }
    }

    /// Whether the next event can be played for the seed.
    pub open spec fn next_event_ready(self, seed: Seq<u8>) -> bool {
        &&& self.event_generation_delay + 5 * SECOND <= u64::MAX
        &&& self.turns < u128::MAX
        &&& match self.last_action {
            ActionData::StartGame { .. } => self.prepared(2, self.player_with_puck).face_off_ready(PlayerPosition::Center),
            ActionData::Goal { .. } | ActionData::EndOfPeriod { .. } =>
                Self::swapped_face_off_ready(self.prepared(2, None), PlayerPosition::Center),
            ActionData::PuckOut { .. } | ActionData::NetOff { .. } => {
                &&& (self.zone_number == 1 || self.zone_number == 3)
                &&& Self::swapped_face_off_ready(self.prepared(self.zone_number, None), spec_zone_position(self.zone_number, seed))
            },
            ActionData::Offside { .. } => {
                &&& self.player_with_puck is Some
                &&& Self::swapped_face_off_ready(self.prepared(self.zone_number, None),
                    spec_offside_position(self.puck_user(), seed))
            },
            ActionData::Save { .. } => {
                &&& self.prepared(self.zone_number, self.player_with_puck).swap_ready()
                &&& forall|gs: Game| #[trigger] self.prepared(self.zone_number, self.player_with_puck).spec_all_swapped(gs)
                    ==> gs.save_position_ready() && gs.face_off_ready(gs.save_position(seed))
            },
            ActionData::Penalty { .. } | ActionData::Fight { .. } | ActionData::FightWon { .. } => {
                &&& self.player_with_puck is Some
                &&& (self.puck_user() == USER_ID1 || self.puck_user() == USER_ID2)
                &&& Self::swapped_face_off_ready(self.prepared(self.penalty_zone(), None),
                    spec_zone_position(self.penalty_zone(), seed))
            },
            ActionData::PenaltyShot { .. } => self.penalty_shot_possible(),
            ActionData::Icing { .. } => false,
            _ => self.play_ready(seed),
        }
    }

    /// The match starts with a face-off at center.
    fn start_with_face_off(&mut self, seed: &Vec<u8>) -> (actions: Vec<ActionData>)
        requires
            seed.len() > 22,
            old(self).event_generation_delay + 3 * SECOND <= u64::MAX,
            old(self).prepared(2, old(self).player_with_puck).face_off_ready(PlayerPosition::Center),
        ensures
            exists|fo: Seq<ActionData>|
                #[trigger] old(self).prepared(2, old(self).player_with_puck).spec_face_off(PlayerPosition::Center, *final(self), fo, seed@)
                && actions@ == seq![ActionData::StartGame { action_type: ActionTypes::StartGame }] + fo,
    {
        self.zone_number = 2;
        self.event_generation_delay = self.event_generation_delay + 3 * SECOND;
        let mut actions: Vec<ActionData> = Vec::new();
        actions.push(ActionData::StartGame { action_type: ActionTypes::StartGame });
        let mut face_off = self.face_off(seed, &PlayerPosition::Center);
        let ghost fo = face_off@;
        actions.append(&mut face_off);
        assert(actions@ =~= seq![ActionData::StartGame { action_type: ActionTypes::StartGame }] + fo);
        actions
    }

    /// Play restarts with a face-off at `pos` in `zone`, both sides sending their whole
    /// units on the ice; nobody has the puck until then.
    fn restart_with_face_off(&mut self, seed: &Vec<u8>, zone: i8, pos: PlayerPosition) -> (actions: Vec<ActionData>)
        requires
            seed.len() > 22,
            old(self).event_generation_delay + 3 * SECOND <= u64::MAX,
            Self::swapped_face_off_ready(old(self).prepared(zone, None), pos),
        ensures
            Self::spec_swapped_face_off(old(self).prepared(zone, None), *final(self), actions@, seed@, pos),
    {
        self.zone_number = zone;
        self.event_generation_delay = self.event_generation_delay + 3 * SECOND;
        self.player_with_puck = None;
        self.swap_all_players_in_fives();
        let ghost gs = *self;
        let actions = self.face_off(seed, &pos);
        assert(old(self).prepared(zone, None).spec_all_swapped(gs));
        actions
    }

    /// Play restarts after a save, with a face-off by the shooter's side.
    fn restart_after_save(&mut self, seed: &Vec<u8>) -> (actions: Vec<ActionData>)
        requires
            seed.len() > 22,
            old(self).event_generation_delay + 3 * SECOND <= u64::MAX,
            old(self).prepared(old(self).zone_number, old(self).player_with_puck).swap_ready(),
            forall|gs: Game| #[trigger] old(self).prepared(old(self).zone_number, old(self).player_with_puck).spec_all_swapped(gs)
                ==> gs.save_position_ready() && gs.face_off_ready(gs.save_position(seed@)),
        ensures
            exists|gs: Game|
                #[trigger] old(self).prepared(old(self).zone_number, old(self).player_with_puck).spec_all_swapped(gs)
                && gs.spec_face_off(gs.save_position(seed@), *final(self), actions@, seed@),
    {
        self.event_generation_delay = self.event_generation_delay + 3 * SECOND;
        self.swap_all_players_in_fives();
        let ghost gs = *self;
        let position = self.face_off_after_save_position(seed);
        let actions = self.face_off(seed, &position);
        assert(old(self).prepared(old(self).zone_number, old(self).player_with_puck).spec_all_swapped(gs));
        actions
    }

    /// Plays the next event of the match, by the last one, and counts the turn.
    #[verifier::rlimit(40)]
    pub fn do_action(&mut self, seed: &Vec<u8>) -> (actions: Vec<ActionData>)
        requires
            seed.len() > 22,
            old(self).next_event_ready(seed@),
        ensures
            exists|after: Game| #[trigger] old(self).spec_next_event(after, actions@, seed@)
                && *final(self) == (Game { turns: (old(self).turns + 1) as u128, ..after }),
    {
        let ghost g0 = *self;
        let actions = match self.last_action {
            ActionData::StartGame { .. } => self.start_with_face_off(seed),
            ActionData::Goal { .. } | ActionData::EndOfPeriod { .. } =>
                self.restart_with_face_off(seed, 2, PlayerPosition::Center),
            ActionData::PuckOut { .. } | ActionData::NetOff { .. } => {
                let random_position = self.get_random_position(seed);
                let zone = self.zone_number;
                self.restart_with_face_off(seed, zone, random_position)
            },
            ActionData::Offside { .. } => {
                let random_position = self.get_random_position_after_offside(seed);
                let zone = self.zone_number;
                self.restart_with_face_off(seed, zone, random_position)
            },
            ActionData::Save { .. } => self.restart_after_save(seed),
            ActionData::Penalty { .. } | ActionData::Fight { .. } | ActionData::FightWon { .. } => {
                let user_id = self.get_user_id_player_with_puck();
                let zone: i8 = if user_id == USER_ID1 { 1 } else { 3 };
                let previous_zone = self.zone_number;
                self.zone_number = zone;
                let random_position = self.get_random_position(seed);
                self.zone_number = previous_zone;
                assert(*self == g0);
                self.restart_with_face_off(seed, zone, random_position)
            },
            ActionData::PenaltyShot { .. } => {
                self.event_generation_delay = self.event_generation_delay + 5 * SECOND;
                self.do_penalty_shot(seed)
            },
            ActionData::Icing { .. } => {
                // `next_event_ready` rules this out (see `spec_next_event`).
                proof { assert(false); }
                Vec::new()
            },
            _ => Action.do_action(self, seed),
        };
        let ghost after = *self;
        assert(g0.spec_next_event(after, actions@, seed@));
        self.turns = self.turns + 1;
        actions
    }
}

} // verus!

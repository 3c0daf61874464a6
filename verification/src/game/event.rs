use vstd::prelude::*;
use crate::game::action::{ActionData, ActionTypes};
use crate::game::engine::{Game, GameState, UserInfo, NUMBER_OF_STEPS, SECOND, USER_ID1, USER_ID2};
use crate::game::step::spec_team_owned;
use crate::game::team::Team;
use crate::manager::TokenBalance;

verus! {

/// Why no event was played.
#[derive(PartialEq, Eq, Structural, Clone, Copy, Debug)]
pub enum EventError {
    /// The match has a winner.
    GameAlreadyFinished,
    /// Events are asked for too often.
    TooOften,
}

impl Game {
    /// A match between the teams `team1` of `account_id_1` and `team2` of `account_id_2`
    /// for `reward`, set up at `time`: it starts with a face-off in the neutral zone, and
    /// allows two events in a block.
    pub fn new(
        team1: Team,
        team2: Team,
        account_id_1: String,
        account_id_2: String,
        reward: TokenBalance,
        game_id: u64,
        time: u64,
    ) -> (g: Game)
        ensures
            g.game_id == game_id,
            g.user1 == (UserInfo { user_id: USER_ID1, team: g.user1.team, account_id: account_id_1,
                take_to_called: false, coach_speech_called: false, is_goalie_out: false }),
            g.user2 == (UserInfo { user_id: USER_ID2, team: g.user2.team, account_id: account_id_2,
                take_to_called: false, coach_speech_called: false, is_goalie_out: false }),
            spec_team_owned(team1, g.user1.team, USER_ID1),
            spec_team_owned(team2, g.user2.team, USER_ID2),
            g.reward == reward,
            g.winner_index is None,
            g.player_with_puck is None,
            g.zone_number == 2,
            g.turns == 0,
            g.last_action == (ActionData::StartGame { action_type: ActionTypes::StartGame }),
            g.last_event_generation_time == time,
            g.event_generation_delay == 0,
            g.max_number_of_generated_events_in_block == 2,
            g.number_of_generated_events_in_current_block == 0,
            g.timing_wf(),
    {
        let mut team1 = team1;
        let mut team2 = team2;
        team1.set_owner(USER_ID1);
        team2.set_owner(USER_ID2);
        Game {
            game_id,
            user1: UserInfo {
                user_id: USER_ID1,
                team: team1,
                account_id: account_id_1,
                take_to_called: false,
                coach_speech_called: false,
                is_goalie_out: false,
            },
            user2: UserInfo {
                user_id: USER_ID2,
                team: team2,
                account_id: account_id_2,
                take_to_called: false,
                coach_speech_called: false,
                is_goalie_out: false,
            },
            reward,
            winner_index: None,
            player_with_puck: None,
            zone_number: 2,
            turns: 0,
            last_action: ActionData::StartGame { action_type: ActionTypes::StartGame },
            last_event_generation_time: time,
            event_generation_delay: 0,
            max_number_of_generated_events_in_block: 2,
            number_of_generated_events_in_current_block: 0,
        }
    }

    /// Whether the counts of events in a block are in order: no more than the most
    /// allowed, which is at least one.
    pub open spec fn timing_wf(self) -> bool {
        &&& 1 <= self.max_number_of_generated_events_in_block
        &&& self.number_of_generated_events_in_current_block <= self.max_number_of_generated_events_in_block
    }

    /// Whether the count of events in the block can go up when an event is let through at
    /// `time` in the same block as the last one: it is below 255.
    pub open spec fn count_fits(self, time: u64) -> bool {
        time == self.last_event_generation_time && self.spec_event_refused(time) is None
            ==> self.number_of_generated_events_in_current_block < 255
    }

    /// The error for an event asked for at `time`, if it is refused: when the match has a
    /// winner; or in the same block as the last event once the most events of a block
    /// were played; or before the delay after the last event.
    pub open spec fn spec_event_refused(self, time: u64) -> Option<EventError> {
        let d_time = time - self.last_event_generation_time;
        if self.winner_index is Some {
            Some(EventError::GameAlreadyFinished)
        } else if (d_time == 0 && self.number_of_generated_events_in_current_block
            == self.max_number_of_generated_events_in_block) || d_time < self.event_generation_delay {
            Some(EventError::TooOften)
        } else {
            None
        }
    }

    /// Why an event asked for at `time` is refused, if it is (see `spec_event_refused`).
    pub fn event_refused(&self, time: u64) -> (r: Option<EventError>)
        requires
            time >= self.last_event_generation_time,
        ensures
            r == self.spec_event_refused(time),
    {
        if self.winner_index.is_some() {
            return Some(EventError::GameAlreadyFinished);
        }
        let d_time = time - self.last_event_generation_time;
        if (d_time == 0 && self.number_of_generated_events_in_current_block
            == self.max_number_of_generated_events_in_block) || d_time < self.event_generation_delay {
            Some(EventError::TooOften)
        } else {
            None
        }
    }

    /// The match once an event is let through at `time`: in the same block the count of
    /// its events goes up, and reaching the most allowed brings a delay of a second; in a
    /// new block the count starts again at one, with no delay.
    pub open spec fn spec_timed(self, time: u64) -> Game {
        if time == self.last_event_generation_time {
            let count = (self.number_of_generated_events_in_current_block + 1) as u8;
            Game {
                number_of_generated_events_in_current_block: count,
                event_generation_delay: if count == self.max_number_of_generated_events_in_block {
                    SECOND
                } else {
                    self.event_generation_delay
                },
                last_event_generation_time: time,
                ..self
            }
        } else {
            Game {
                number_of_generated_events_in_current_block: 1,
                event_generation_delay: 0,
                last_event_generation_time: time,
                ..self
            }
        }
    }

    /// Lets an event through at `time`, or refuses it (see `spec_event_refused`).
    pub fn check_event_time(&mut self, time: u64) -> (r: Result<(), EventError>)
        requires
            time >= old(self).last_event_generation_time,
            old(self).count_fits(time),
        ensures
            match old(self).spec_event_refused(time) {
                Some(e) => r == Err::<(), EventError>(e) && *final(self) == *old(self),
                None => r is Ok && *final(self) == old(self).spec_timed(time),
            },
            old(self).timing_wf() ==> final(self).timing_wf(),
    {
        match self.event_refused(time) {
            Some(e) => return Err(e),
            None => {},
        }
        let d_time = time - self.last_event_generation_time;
        if d_time == 0 {
            self.number_of_generated_events_in_current_block = self.number_of_generated_events_in_current_block + 1;
            if self.number_of_generated_events_in_current_block == self.max_number_of_generated_events_in_block {
                self.event_generation_delay = SECOND;
            }
        } else {
            self.event_generation_delay = 0;
            self.number_of_generated_events_in_current_block = 1;
        }
        self.last_event_generation_time = time;
        Ok(())
    }

    /// The state of the match after a turn, and the events of the turn followed by the
    /// overtime event when the regular time ends on a tie.
    pub open spec fn spec_with_state(self, actions: Seq<ActionData>) -> (Seq<ActionData>, GameState) {
        if self.turns >= NUMBER_OF_STEPS && self.user1.team.score != self.user2.team.score {
            (actions, GameState::GameOver {
                winner_id: if self.user2.team.score > self.user1.team.score { USER_ID2 } else { USER_ID1 },
            })
        } else if self.turns == NUMBER_OF_STEPS {
            (actions.push(ActionData::Overtime { action_type: ActionTypes::Overtime }), GameState::InProgress)
        } else {
            (actions, GameState::InProgress)
        }
    }

    /// Whether a turn asked for at `time` can be played for the seed once let through.
    pub open spec fn turn_ready(self, time: u64, seed: Seq<u8>) -> bool {
        &&& time >= self.last_event_generation_time
        &&& self.count_fits(time)
        &&& self.spec_event_refused(time) is None ==> self.spec_timed(time).step_ready(seed)
    }

    /// Plays a turn asked for at `time`, unless it is refused: the events of the turn, with
    /// the overtime event when the regular time ends on a tie, and the state of the match.
    pub fn play_turn(&mut self, time: u64, seed: &Vec<u8>) -> (r: Result<(Vec<ActionData>, GameState), EventError>)
        requires
            old(self).turn_ready(time, seed@),
        ensures
            match old(self).spec_event_refused(time) {
                Some(e) => r == Err::<(Vec<ActionData>, GameState), EventError>(e) && *final(self) == *old(self),
                None => r matches Ok((actions, state)) && exists|actions0: Seq<ActionData>|
                    #[trigger] old(self).spec_timed(time).spec_step(*final(self), actions0, seed@)
                    && (actions@, state) == final(self).spec_with_state(actions0),
            },
    {
        match self.check_event_time(time) {
            Err(e) => return Err(e),
            Ok(()) => {},
        }
        let mut actions = self.step(seed);
        let ghost actions0 = actions@;
        let (state, overtime) = self.get_game_state();
        match overtime {
            Some(a) => actions.push(a),
            None => {},
        }
        assert(self.spec_with_state(actions0) == (actions@, state));
        Ok((actions, state))
    }

    /// Ends the match won by `winner_index` with the reward `reward` won: the event for it
    /// closes `actions`, and the match keeps its winner.
    pub fn finish_game(&mut self, winner_index: usize, actions: &mut Vec<ActionData>, reward: u128)
        requires
            winner_index == USER_ID1 || winner_index == USER_ID2,
        ensures
            final(actions)@ == old(actions)@.push(ActionData::GameFinished {
                action_type: ActionTypes::GameFinished,
                winner_account_id: old(self).user(winner_index).account_id,
                reward,
            }),
            *final(self) == (Game { winner_index: Some(winner_index), ..*old(self) }),
    {
        let account_id = self.get_user_info(winner_index).account_id.clone();
        actions.push(ActionData::GameFinished {
            action_type: ActionTypes::GameFinished,
            winner_account_id: account_id,
            reward,
        });
        self.winner_index = Some(winner_index);
    }
}

} // verus!

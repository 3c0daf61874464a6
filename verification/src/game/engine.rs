use vstd::prelude::*;
use crate::game::action::ActionData;
use crate::game::field_player::FieldPlayer;
use crate::game::five::ActiveFive;
use crate::game::player::PlayerPosition;
use crate::game::team::{Team, spec_id_is};
use crate::manager::TokenBalance;

verus! {

/// The user who owns the team on the left side at the start of a match.
pub const USER_ID1: usize = 1;
/// The user who owns the team on the right side at the start of a match.
pub const USER_ID2: usize = 2;
/// The number of turns of the regular time of a match.
pub const NUMBER_OF_STEPS: u128 = 75;
/// One second, in nanoseconds.
pub const SECOND: u64 = 1_000_000_000;

/// One of the two sides of a match.
pub struct UserInfo {
    pub user_id: usize,
    pub team: Team,
    pub account_id: String,
    pub take_to_called: bool,
    pub coach_speech_called: bool,
    pub is_goalie_out: bool,
}

/// Whether a match goes on or who won it.
#[derive(PartialEq, Eq, Structural, Clone, Copy, Debug)]
pub enum GameState {
    InProgress,
    GameOver { winner_id: usize },
}

/// A match between two users. `zone_number` is 1 (the first user's end), 2 (the neutral
/// zone) or 3 (the second user's end); times are in nanoseconds.
pub struct Game {
    pub game_id: u64,
    pub user1: UserInfo,
    pub user2: UserInfo,
    pub reward: TokenBalance,
    pub winner_index: Option<usize>,
    pub player_with_puck: Option<(usize, String)>,
    pub zone_number: i8,
    pub turns: u128,
    pub last_action: ActionData,
    pub last_event_generation_time: u64,
    pub event_generation_delay: u64,
    pub max_number_of_generated_events_in_block: u8,
    pub number_of_generated_events_in_current_block: u8,
}

/// The other user of a match.
pub open spec fn spec_opponent_id(user_id: usize) -> usize {
    if user_id == USER_ID1 { USER_ID2 } else { USER_ID1 }
}

/// The weight, in percent, of the opponent facing a player, and the position of that
/// opponent, for a player at `pos` when his side has `n` players on the ice and the
/// other side `n_opp`.
pub open spec fn spec_opponent_position(n: int, n_opp: int, pos: PlayerPosition) -> (u32, PlayerPosition) {
    match pos {
        PlayerPosition::AdditionalPosition => {
            if n == n_opp {
                (100, PlayerPosition::AdditionalPosition)
            } else if n_opp == 5 || n_opp == 3 {
                (50, PlayerPosition::Center)
            } else {
                (100, PlayerPosition::RightDefender)
            }
        },
        PlayerPosition::Center => {
            if n == 6 && n_opp == 3 || n == 6 && n_opp == 5 {
                (50, PlayerPosition::Center)
            } else if n_opp == 6 && n == 3 || n_opp == 6 && n == 5 {
                (150, PlayerPosition::Center)
            } else {
                (100, PlayerPosition::Center)
            }
        },
        PlayerPosition::LeftWing => {
            if n_opp == 3 {
                (50, PlayerPosition::RightDefender)
            } else if n_opp == 4 {
                (50, PlayerPosition::RightWing)
            } else {
                (100, PlayerPosition::RightDefender)
            }
        },
        PlayerPosition::RightWing => {
            if (n_opp == 5 || n_opp == 6) && (n == 5 || n == 6) || (n == 5 && n_opp == 4) {
                (100, PlayerPosition::LeftDefender)
            } else if n == 4 && n_opp == 4 {
                (150, PlayerPosition::RightDefender)
            } else if n < n_opp {
                (150, PlayerPosition::RightDefender)
            } else {
                (50, PlayerPosition::LeftDefender)
            }
        },
        PlayerPosition::LeftDefender => {
            if (n_opp == 5 || n_opp == 6) && (n == 5 || n == 6) {
                (100, PlayerPosition::RightWing)
            } else if n_opp >= 4 {
                if n_opp >= n {
                    (150, PlayerPosition::RightWing)
                } else {
                    (50, PlayerPosition::RightWing)
                }
            } else if n == 3 && n_opp == 3 {
                (100, PlayerPosition::RightDefender)
            } else {
                (50, PlayerPosition::RightDefender)
            }
        },
        _ => {
            if (n_opp == 5 || n_opp == 6) && (n == 5 || n == 6) {
                (100, PlayerPosition::LeftWing)
            } else if n == 5 && n_opp == 4 || n == 4 && n_opp == 4 {
                (50, PlayerPosition::RightWing)
            } else if n_opp >= 4 {
                if n_opp >= n {
                    (150, PlayerPosition::LeftDefender)
                } else {
                    (50, PlayerPosition::LeftDefender)
                }
            } else if n == 3 && n_opp == 3 {
                (100, PlayerPosition::LeftDefender)
            } else {
                (50, PlayerPosition::LeftDefender)
            }
        },
    }
}

/// The player who stands in for a missing player at `pos`: the right defender for the
/// right wing; for the left wing, the right wing of a unit of four and the left
/// defender otherwise. No one stands in elsewhere.
pub open spec fn spec_penalty_pos_id(five: ActiveFive, pos: PlayerPosition) -> Option<Seq<char>> {
    match pos {
        PlayerPosition::RightWing => five.field_players.at(PlayerPosition::RightDefender),
        PlayerPosition::LeftWing => {
            if five.field_players.spec_filled_count() == 4 {
                five.field_players.at(PlayerPosition::RightWing)
            } else {
                five.field_players.at(PlayerPosition::LeftDefender)
            }
        },
        _ => None,
    }
}

/// The token id of the player of the unit on the ice `five` who plays at `pos`: the
/// player at that position, or the one standing in for a missing player.
pub open spec fn spec_id_by_pos(five: ActiveFive, pos: PlayerPosition) -> Option<Seq<char>> {
    match five.field_players.at(pos) {
        Some(id) => if id.len() > 0 { Some(id) } else { spec_penalty_pos_id(five, pos) },
        None => spec_penalty_pos_id(five, pos),
    }
}

/// The text of the player with the puck: his user and his token id.
pub open spec fn spec_puck(p: Option<(usize, String)>) -> Option<(usize, Seq<char>)> {
    match p {
        Some((u, id)) => Some((u, id@)),
        None => None,
    }
}

impl Game {
    /// The side of the user `user_id` (the second side for any id but the first).
    pub open spec fn user(self, user_id: usize) -> UserInfo {
        if user_id == USER_ID1 { self.user1 } else { self.user2 }
    }

    /// The token id of the player of `user_id` who plays at `pos`.
    pub open spec fn id_by_pos(self, pos: PlayerPosition, user_id: usize) -> Option<Seq<char>> {
        spec_id_by_pos(self.user(user_id).team.active_five, pos)
    }

    /// Whether a player of `user_id` plays at `pos` and is one of his team's players.
    pub open spec fn has_player_at(self, pos: PlayerPosition, user_id: usize) -> bool {
        &&& self.id_by_pos(pos, user_id) is Some
        &&& self.user(user_id).team.has_player(self.id_by_pos(pos, user_id)->0)
    }

    /// The player of `user_id` who plays at `pos`.
    pub open spec fn player_at(self, pos: PlayerPosition, user_id: usize) -> FieldPlayer {
        self.user(user_id).team.player(self.id_by_pos(pos, user_id)->0)
    }

    /// The side of the user `user_id`.
    pub fn get_user_info(&self, user_id: usize) -> (r: &UserInfo)
        ensures
            *r == self.user(user_id),
    {
        if user_id == USER_ID1 {
            return &self.user1;
        }
        &self.user2
    }

    /// The side facing the user `user_id`.
    pub fn get_opponent_info(&self, user_id: usize) -> (r: &UserInfo)
        ensures
            *r == self.user(spec_opponent_id(user_id)),
    {
        if user_id == USER_ID1 {
            return self.get_user_info(USER_ID2);
        }
        self.get_user_info(USER_ID1)
    }

    /// The weight, in percent, and the position of the opponent facing a player at
    /// `field_player_pos`, when his side has `number_of_players` players on the ice and
    /// the other side `number_of_opponent_players`. The goalie has no opponent.
    pub fn get_opponent_position(
        &self,
        number_of_players: usize,
        number_of_opponent_players: usize,
        field_player_pos: &PlayerPosition,
    ) -> (r: (u32, PlayerPosition))
        requires
            *field_player_pos != PlayerPosition::GoaliePos,
        ensures
            r == spec_opponent_position(number_of_players as int, number_of_opponent_players as int, *field_player_pos),
            50 <= r.0 <= 150,
    {
        let n = number_of_players;
        let n_opp = number_of_opponent_players;
        match field_player_pos {
            PlayerPosition::AdditionalPosition => {
                if n == n_opp {
                    (100, PlayerPosition::AdditionalPosition)
                } else if n_opp == 5 || n_opp == 3 {
                    (50, PlayerPosition::Center)
                } else {
                    (100, PlayerPosition::RightDefender)
                }
            },
            PlayerPosition::Center => {
                if n == 6 && n_opp == 3 || n == 6 && n_opp == 5 {
                    (50, PlayerPosition::Center)
                } else if n_opp == 6 && n == 3 || n_opp == 6 && n == 5 {
                    (150, PlayerPosition::Center)
                } else {
                    (100, PlayerPosition::Center)
                }
            },
            PlayerPosition::LeftWing => {
                if n_opp == 3 {
                    (50, PlayerPosition::RightDefender)
                } else if n_opp == 4 {
                    (50, PlayerPosition::RightWing)
                } else {
                    (100, PlayerPosition::RightDefender)
                }
            },
            PlayerPosition::RightWing => {
                if (n_opp == 5 || n_opp == 6) && (n == 5 || n == 6) || (n == 5 && n_opp == 4) {
                    (100, PlayerPosition::LeftDefender)
                } else if n == 4 && n_opp == 4 {
                    (150, PlayerPosition::RightDefender)
                } else if n < n_opp {
                    (150, PlayerPosition::RightDefender)
                } else {
                    (50, PlayerPosition::LeftDefender)
                }
            },
            PlayerPosition::LeftDefender => {
                if (n_opp == 5 || n_opp == 6) && (n == 5 || n == 6) {
                    (100, PlayerPosition::RightWing)
                } else if n_opp >= 4 {
                    if n_opp >= n {
                        (150, PlayerPosition::RightWing)
                    } else {
                        (50, PlayerPosition::RightWing)
                    }
                } else if n == 3 && n_opp == 3 {
                    (100, PlayerPosition::RightDefender)
                } else {
                    (50, PlayerPosition::RightDefender)
                }
            },
            _ => {
                if (n_opp == 5 || n_opp == 6) && (n == 5 || n == 6) {
                    (100, PlayerPosition::LeftWing)
                } else if n == 5 && n_opp == 4 || n == 4 && n_opp == 4 {
                    (50, PlayerPosition::RightWing)
                } else if n_opp >= 4 {
                    if n_opp >= n {
                        (150, PlayerPosition::LeftDefender)
                    } else {
                        (50, PlayerPosition::LeftDefender)
                    }
                } else if n == 3 && n_opp == 3 {
                    (100, PlayerPosition::LeftDefender)
                } else {
                    (50, PlayerPosition::LeftDefender)
                }
            },
        }
    }

    /// The token id of the player who stands in for a missing player at `position`.
    pub fn get_player_id_by_penalty_pos(&self, position: &PlayerPosition, five: &ActiveFive) -> (r: String)
        requires
            spec_penalty_pos_id(*five, *position) is Some,
        ensures
            Some(r@) == spec_penalty_pos_id(*five, *position),
    {
        match position {
            PlayerPosition::RightWing => five.field_players.get(&PlayerPosition::RightDefender).unwrap(),
            _ => {
                let number_of_players = five.get_number_of_players();
                if number_of_players == 4 {
                    five.field_players.get(&PlayerPosition::RightWing).unwrap()
                } else {
                    five.field_players.get(&PlayerPosition::LeftDefender).unwrap()
                }
            },
        }
    }

    /// The token id of the player of `user_id` who plays at `position`.
    pub fn get_field_player_id_by_pos(&self, position: &PlayerPosition, user_id: usize) -> (r: String)
        requires
            self.id_by_pos(*position, user_id) is Some,
        ensures
            Some(r@) == self.id_by_pos(*position, user_id),
    {
        let user_info = self.get_user_info(user_id);
        let five = &user_info.team.active_five;
        match five.field_players.get(position) {
            Some(id) => {
                if id.as_str().is_empty() {
                    self.get_player_id_by_penalty_pos(position, five)
                } else {
                    id
                }
            },
            None => self.get_player_id_by_penalty_pos(position, five),
        }
    }

    /// The player of `user_id` who plays at `position`.
    pub fn get_field_player_by_pos(&self, user_id: usize, position: &PlayerPosition) -> (r: &FieldPlayer)
        requires
            self.has_player_at(*position, user_id),
        ensures
            *r == self.player_at(*position, user_id),
            spec_id_is(*r, self.id_by_pos(*position, user_id)->0),
    {
        let player_id = self.get_field_player_id_by_pos(position, user_id);
        let user_info = self.get_user_info(user_id);
        user_info.team.get_field_player(&player_id)
    }
}

} // verus!

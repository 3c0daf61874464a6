use hockey::game::action::{get_amount_of_spent_strength, ActionData, ActionTypes};
use hockey::game::engine::{Game, GameState, UserInfo};
use hockey::game::event::EventError;
use hockey::game::five::ActiveFive;
use hockey::game::lineup::Lineup;
use hockey::game::numbers::{FiveNumber, GoalieNumber};
use hockey::game::player::GoalieSubstitution;
use hockey::game::tactics::{IceTimePriority, Tactics};
use hockey::game::team::{GoalieSubstitutes, Goalies, Team};
use hockey::manager::TokenBalance;

const SECOND: u64 = 1_000_000_000;

fn team(score: u8) -> Team {
    Team {
        fives: Vec::new(),
        active_five: ActiveFive {
            current_number: FiveNumber::First,
            replaced_position: Vec::new(),
            field_players: Lineup::new(),
            is_goalie_out: false,
            ice_time_priority: IceTimePriority::Normal,
            tactic: Tactics::Neutral,
            time_field: Some(0),
        },
        field_players: Vec::new(),
        penalty_players: Vec::new(),
        players_to_big_penalty: Vec::new(),
        players_to_small_penalty: Vec::new(),
        goalie_substitutions: GoalieSubstitutes { substitution1: None, substitution2: None },
        active_goalie_substitution: GoalieSubstitution::GoalieSubstitution1,
        goalies: Goalies { main_goalkeeper: None, substitute_goalkeeper: None },
        active_goalie: GoalieNumber::MainGoalkeeper,
        score,
    }
}

fn user(user_id: usize, account: &str, score: u8) -> UserInfo {
    UserInfo {
        user_id,
        team: team(score),
        account_id: account.to_string(),
        take_to_called: false,
        coach_speech_called: false,
        is_goalie_out: false,
    }
}

fn game(score1: u8, score2: u8, turns: u128) -> Game {
    Game {
        game_id: 7,
        user1: user(1, "alice.near", score1),
        user2: user(2, "bob.near", score2),
        reward: TokenBalance { token_id: None, balance: 2_000 },
        winner_index: None,
        player_with_puck: None,
        zone_number: 2,
        turns,
        last_action: ActionData::StartGame { action_type: ActionTypes::StartGame },
        last_event_generation_time: 100 * SECOND,
        event_generation_delay: 0,
        max_number_of_generated_events_in_block: 2,
        number_of_generated_events_in_current_block: 0,
    }
}

#[test]
fn events_in_one_block_are_counted() {
    let mut g = game(0, 0, 0);
    let t = g.last_event_generation_time;
    assert_eq!(g.check_event_time(t), Ok(()));
    assert_eq!(g.number_of_generated_events_in_current_block, 1);
    assert_eq!(g.event_generation_delay, 0);
    assert_eq!(g.check_event_time(t), Ok(()));
    assert_eq!(g.number_of_generated_events_in_current_block, 2);
    assert_eq!(g.event_generation_delay, SECOND);
    assert_eq!(g.check_event_time(t), Err(EventError::TooOften));
    assert_eq!(g.number_of_generated_events_in_current_block, 2);
}

#[test]
fn a_new_block_waits_for_the_delay() {
    let mut g = game(0, 0, 0);
    g.event_generation_delay = 3 * SECOND;
    let t = g.last_event_generation_time;
    assert_eq!(g.check_event_time(t + SECOND), Err(EventError::TooOften));
    assert_eq!(g.check_event_time(t + 3 * SECOND), Ok(()));
    assert_eq!(g.number_of_generated_events_in_current_block, 1);
    assert_eq!(g.event_generation_delay, 0);
    assert_eq!(g.last_event_generation_time, t + 3 * SECOND);
}

#[test]
fn finished_match_plays_no_event() {
    let mut g = game(3, 1, 75);
    g.winner_index = Some(1);
    let t = g.last_event_generation_time + 10 * SECOND;
    assert_eq!(g.check_event_time(t), Err(EventError::GameAlreadyFinished));
}

#[test]
fn state_after_regular_time() {
    assert_eq!(game(3, 1, 75).get_game_state().0, GameState::GameOver { winner_id: 1 });
    assert_eq!(game(1, 2, 80).get_game_state().0, GameState::GameOver { winner_id: 2 });
    let (state, overtime) = game(2, 2, 75).get_game_state();
    assert_eq!(state, GameState::InProgress);
    assert!(matches!(overtime, Some(ActionData::Overtime { .. })));
    let (state, event) = game(2, 2, 76).get_game_state();
    assert_eq!(state, GameState::InProgress);
    assert!(event.is_none());
    let (state, event) = game(5, 0, 40).get_game_state();
    assert_eq!(state, GameState::InProgress);
    assert!(event.is_none());
}

#[test]
fn winner_is_the_side_ahead() {
    assert!(game(3, 1, 75).is_game_over());
    assert!(!game(3, 1, 74).is_game_over());
    assert!(!game(2, 2, 90).is_game_over());
    assert_eq!(game(3, 1, 75).get_winner_id(), 1);
    assert_eq!(game(1, 3, 75).get_winner_id(), 2);
    assert_eq!(game(2, 2, 75).get_winner_id(), 1);
}

#[test]
fn periods_end_and_sides_change() {
    let mut g = game(1, 0, 25);
    let end = g.check_end_of_period();
    assert!(matches!(end, Some(ActionData::EndOfPeriod { number: 1, .. })));
    assert_eq!(g.user1.account_id, "bob.near");
    assert_eq!(g.user2.account_id, "alice.near");
    assert_eq!(g.user1.user_id, 1);
    assert_eq!(g.user1.team.score, 0);
    assert_eq!(g.user2.team.score, 1);
    let mut g = game(1, 0, 75);
    assert!(matches!(g.check_end_of_period(), Some(ActionData::EndOfPeriod { number: 3, .. })));
    let mut g = game(1, 0, 26);
    assert!(g.check_end_of_period().is_none());
    assert_eq!(g.user1.account_id, "alice.near");
}

#[test]
fn sides_swapped_twice_are_back() {
    let mut g = game(4, 2, 30);
    g.swap_users();
    g.swap_users();
    assert_eq!(g.user1.account_id, "alice.near");
    assert_eq!(g.user2.account_id, "bob.near");
    assert_eq!(g.user1.team.score, 4);
    assert_eq!(g.user2.team.score, 2);
}

#[test]
fn finished_match_keeps_its_winner() {
    let mut g = game(3, 4, 75);
    let mut actions: Vec<ActionData> = Vec::new();
    g.finish_game(2, &mut actions, 1_800);
    assert_eq!(g.winner_index, Some(2));
    assert_eq!(actions.len(), 1);
    match &actions[0] {
        ActionData::GameFinished { winner_account_id, reward, .. } => {
            assert_eq!(winner_account_id, "bob.near");
            assert_eq!(*reward, 1_800);
        },
        _ => panic!("not the end of the match"),
    }
}

#[test]
fn event_remembers_the_last_play() {
    let mut g = game(0, 0, 3);
    g.event_generation_delay = 3 * SECOND;
    let actions = vec![
        ActionData::EndOfPeriod { action_type: ActionTypes::EndOfPeriod, number: 1 },
        ActionData::TakeTO { action_type: ActionTypes::TakeTO, account_id: "alice.near".to_string() },
    ];
    let event = g.generate_event(&actions);
    assert!(matches!(g.last_action, ActionData::EndOfPeriod { .. }));
    assert_eq!(event.actions.len(), 2);
    assert_eq!(event.event_generation_delay, 3);
    assert_eq!(event.zone_number, 2);
    assert_eq!(event.time, 100 * SECOND);
}

#[test]
fn strength_spent_by_ice_time() {
    assert_eq!(get_amount_of_spent_strength(IceTimePriority::SuperLowPriority), 1);
    assert_eq!(get_amount_of_spent_strength(IceTimePriority::Normal), 3);
    assert_eq!(get_amount_of_spent_strength(IceTimePriority::SuperHighPriority), 5);
}

#[test]
fn refusals_leave_the_match_unchanged() {
    let mut g = game(0, 0, 0);
    let t = g.last_event_generation_time;
    assert_eq!(g.event_refused(t), None);
    g.number_of_generated_events_in_current_block = 2;
    assert_eq!(g.event_refused(t), Some(EventError::TooOften));
    assert_eq!(g.number_of_generated_events_in_current_block, 2);
    g.event_generation_delay = 2 * SECOND;
    assert_eq!(g.event_refused(t + SECOND), Some(EventError::TooOften));
    assert_eq!(g.event_refused(t + 2 * SECOND), None);
    g.winner_index = Some(0);
    assert_eq!(g.event_refused(t + 2 * SECOND), Some(EventError::GameAlreadyFinished));
}

#[test]
fn count_above_the_most_allowed_keeps_counting() {
    let mut g = game(0, 0, 0);
    let t = g.last_event_generation_time;
    g.number_of_generated_events_in_current_block = 3;
    assert_eq!(g.check_event_time(t), Ok(()));
    assert_eq!(g.number_of_generated_events_in_current_block, 4);
    assert_eq!(g.event_generation_delay, 0);
}

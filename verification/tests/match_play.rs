use hockey::game::action::ActionData;
use hockey::game::engine::{Game, GameState};
use hockey::game::field_player::FieldPlayer;
use hockey::game::five::{ActiveFive, FiveIds};
use hockey::game::goalie::Goalie;
use hockey::game::lineup::Lineup;
use hockey::game::numbers::{FiveNumber, GoalieNumber};
use hockey::game::player::{GoalieSubstitution, Hand, PlayerPosition, PlayerRole, PlayerType};
use hockey::game::stats::{FieldPlayerStats, GoalieStats};
use hockey::game::tactics::{IceTimePriority, Tactics};
use hockey::game::team::{GoalieSubstitutes, Goalies, Team};
use hockey::manager::TokenBalance;

const SECOND: u64 = 1_000_000_000;

fn field_stats(r: u8) -> FieldPlayerStats {
    FieldPlayerStats {
        acceleration: r, agility: r, balance: r, endurance: r, speed: r,
        slap_shot_accuracy: r, slap_shot_power: r, wrist_shot_accuracy: r, wrist_shot_power: r,
        deking: r, hand_eye: r, passing: r, puck_control: r,
        aggressiveness: r, body_checking: r, durability: r, fighting_skill: r, strength: r,
        discipline: r, offensive: r, poise: r, morale: r,
        defensive_awareness: r, face_offs: r, shot_blocking: r, stick_checking: r,
    }
}

fn goalie_stats(r: u8) -> GoalieStats {
    GoalieStats {
        angles: r, breakaway: r, five_hole: r, glove_side_high: r, glove_side_low: r,
        stick_side_high: r, stick_side_low: r,
        passing: r, poise: r, poke_check: r, puck_playing: r, rebound_control: r, recover: r,
        aggressiveness: r, agility: r, durability: r, endurance: r, speed: r, vision: r, morale: r,
    }
}

fn player(id: &str, number: u8, position: PlayerPosition, role: PlayerRole, rating: u8) -> FieldPlayer {
    FieldPlayer {
        id: Some(id.to_string()),
        img: Some(format!("{}.png", id)),
        name: Some(format!("Player {}", id)),
        teamwork: Some(10000),
        reality: false,
        nationality: "CA".to_string(),
        birthday: 0,
        player_type: "FieldPlayer".to_string(),
        number,
        hand: Hand::Left,
        player_role: role,
        native_position: position,
        stats: field_stats(rating),
        user_id: None,
        number_of_penalty_events: Some(0),
    }
}

fn goalie(id: &str, number: u8, rating: u8) -> Goalie {
    Goalie {
        id: Some(id.to_string()),
        img: Some(format!("{}.png", id)),
        name: Some(format!("Goalie {}", id)),
        user_id: None,
        reality: false,
        nationality: "CA".to_string(),
        birthday: 0,
        player_type: PlayerType::Goalie,
        number,
        hand: Hand::Left,
        player_role: PlayerRole::Hybrid,
        stats: goalie_stats(rating),
    }
}

const NUMBERS: [FiveNumber; 8] = [
    FiveNumber::First,
    FiveNumber::Second,
    FiveNumber::Third,
    FiveNumber::Fourth,
    FiveNumber::PowerPlay1,
    FiveNumber::PowerPlay2,
    FiveNumber::PenaltyKill1,
    FiveNumber::PenaltyKill2,
];

fn team(prefix: &str, rating: u8) -> Team {
    let mut fives = Vec::new();
    let mut field_players = Vec::new();
    let mut number: u8 = 1;
    for five_number in NUMBERS {
        let penalty_kill = five_number == FiveNumber::PenaltyKill1 || five_number == FiveNumber::PenaltyKill2;
        let mut lineup = Lineup::new();
        let positions: Vec<(PlayerPosition, PlayerRole)> = if penalty_kill {
            vec![
                (PlayerPosition::LeftWing, PlayerRole::Grinder),
                (PlayerPosition::RightWing, PlayerRole::DefensiveForward),
                (PlayerPosition::LeftDefender, PlayerRole::DefensiveDefenseman),
                (PlayerPosition::RightDefender, PlayerRole::TwoWay),
            ]
        } else {
            vec![
                (PlayerPosition::Center, PlayerRole::Playmaker),
                (PlayerPosition::LeftWing, PlayerRole::Shooter),
                (PlayerPosition::RightWing, PlayerRole::TryHarder),
                (PlayerPosition::LeftDefender, PlayerRole::OffensiveDefenseman),
                (PlayerPosition::RightDefender, PlayerRole::ToughGuy),
            ]
        };
        for (position, role) in positions {
            let id = format!("{}{}", prefix, number);
            field_players.push(player(&id, number, position, role, rating));
            lineup.insert(position, id);
            number += 1;
        }
        fives.push(FiveIds {
            field_players: lineup,
            number: five_number,
            ice_time_priority: IceTimePriority::Normal,
            tactic: Tactics::Neutral,
            time_field: Some(0),
        });
    }
    let mut first_line = Lineup::new();
    for position in [
        PlayerPosition::Center,
        PlayerPosition::LeftWing,
        PlayerPosition::RightWing,
        PlayerPosition::LeftDefender,
        PlayerPosition::RightDefender,
    ] {
        first_line.insert(position, fives[0].field_players.get(&position).unwrap());
    }
    Team {
        fives,
        active_five: ActiveFive {
            current_number: FiveNumber::First,
            replaced_position: vec![
                PlayerPosition::Center,
                PlayerPosition::LeftWing,
                PlayerPosition::RightWing,
                PlayerPosition::LeftDefender,
                PlayerPosition::RightDefender,
            ],
            field_players: first_line,
            is_goalie_out: false,
            ice_time_priority: IceTimePriority::Normal,
            tactic: Tactics::Neutral,
            time_field: Some(0),
        },
        field_players,
        penalty_players: Vec::new(),
        players_to_big_penalty: Vec::new(),
        players_to_small_penalty: Vec::new(),
        goalie_substitutions: GoalieSubstitutes {
            substitution1: Some(format!("{}1", prefix)),
            substitution2: Some(format!("{}2", prefix)),
        },
        active_goalie_substitution: GoalieSubstitution::GoalieSubstitution1,
        goalies: Goalies {
            main_goalkeeper: Some(goalie(&format!("{}g1", prefix), 30, rating)),
            substitute_goalkeeper: Some(goalie(&format!("{}g2", prefix), 31, rating)),
        },
        active_goalie: GoalieNumber::MainGoalkeeper,
        score: 0,
    }
}

/// A seed for the turn; bytes 16 and 17 are kept high, so that no penalty is called.
fn seed(turn: u64) -> Vec<u8> {
    let mut state = turn.wrapping_mul(6364136223846793005).wrapping_add(1442695040888963407);
    let mut bytes: Vec<u8> = (0..32)
        .map(|_| {
            state = state.wrapping_mul(6364136223846793005).wrapping_add(1442695040888963407);
            (state >> 33) as u8
        })
        .collect();
    bytes[16] = 200;
    bytes[17] = 200;
    bytes
}

fn new_game() -> Game {
    Game::new(
        team("a", 70),
        team("b", 60),
        "alice.near".to_string(),
        "bob.near".to_string(),
        TokenBalance { token_id: Some("NEAR".to_string()), balance: 2_000 },
        1,
        1_000 * SECOND,
    )
}

#[test]
fn new_match_starts_with_a_face_off() {
    let g = new_game();
    assert_eq!(g.turns, 0);
    assert_eq!(g.zone_number, 2);
    assert!(matches!(g.last_action, ActionData::StartGame { .. }));
    assert_eq!(g.user1.team.field_players[0].user_id, Some(1));
    assert_eq!(g.user2.team.field_players[0].user_id, Some(2));
    assert_eq!(g.user2.account_id, "bob.near");
}

#[test]
fn each_turn_counts_one() {
    let mut g = new_game();
    let mut periods = 0;
    for turn in 0..60u64 {
        let before = g.turns;
        let actions = g.step(&seed(turn));
        assert_eq!(g.turns, before + 1);
        if actions.iter().any(|a| matches!(a, ActionData::EndOfPeriod { .. })) {
            periods += 1;
            assert!(g.turns == 25 || g.turns == 50);
        }
        g.generate_event(&actions);
    }
    assert_eq!(periods, 2);
}

#[test]
fn match_is_played_to_its_end() {
    let mut g = new_game();
    let mut time = 1_000 * SECOND;
    let mut over = false;
    for turn in 0..3000u64 {
        time += 10 * SECOND;
        let (actions, state) = g.play_turn(time, &seed(turn)).unwrap();
        if g.turns == 75 && g.user1.team.score == g.user2.team.score {
            assert!(actions.iter().any(|a| matches!(a, ActionData::Overtime { .. })));
        }
        g.generate_event(&actions);
        if let GameState::GameOver { winner_id } = state {
            assert!(g.turns >= 75);
            assert_ne!(g.user1.team.score, g.user2.team.score);
            let ahead = if g.user2.team.score > g.user1.team.score { 2 } else { 1 };
            assert_eq!(winner_id, ahead);
            over = true;
            break;
        }
    }
    assert!(over);
}

#[test]
fn lines_take_turns() {
    let mut t = team("a", 70);
    let mut seen = Vec::new();
    for _ in 0..4 {
        t.change_active_five();
        seen.push(t.active_five.current_number);
    }
    assert_eq!(seen, vec![FiveNumber::Second, FiveNumber::Third, FiveNumber::Fourth, FiveNumber::First]);
    assert_eq!(t.active_five.time_field, Some(0));
    t.active_five.current_number = FiveNumber::PowerPlay1;
    t.change_active_five();
    assert_eq!(t.active_five.current_number, FiveNumber::PowerPlay2);
    t.change_active_five();
    assert_eq!(t.active_five.current_number, FiveNumber::PowerPlay1);
    t.active_five.current_number = FiveNumber::PenaltyKill2;
    t.change_active_five();
    assert_eq!(t.active_five.current_number, FiveNumber::PenaltyKill1);
}

#[test]
fn goalie_comes_back_to_the_same_skaters() {
    let mut t = team("a", 70);
    let before: Vec<Option<String>> = [
        PlayerPosition::Center,
        PlayerPosition::LeftWing,
        PlayerPosition::RightWing,
        PlayerPosition::LeftDefender,
        PlayerPosition::RightDefender,
        PlayerPosition::AdditionalPosition,
    ]
    .iter()
    .map(|p| t.active_five.field_players.get(p))
    .collect();
    t.goalie_out();
    assert!(t.active_five.is_goalie_out);
    assert_eq!(t.active_five.field_players.get(&PlayerPosition::AdditionalPosition), Some("a1".to_string()));
    t.goalie_back();
    assert!(!t.active_five.is_goalie_out);
    let after: Vec<Option<String>> = [
        PlayerPosition::Center,
        PlayerPosition::LeftWing,
        PlayerPosition::RightWing,
        PlayerPosition::LeftDefender,
        PlayerPosition::RightDefender,
        PlayerPosition::AdditionalPosition,
    ]
    .iter()
    .map(|p| t.active_five.field_players.get(p))
    .collect();
    assert_eq!(after, before);
}

use hockey::game::manage::ManageError;

#[test]
fn time_out_rests_the_side_and_its_rival() {
    let mut g = new_game();
    let alice = "alice.near".to_string();
    let p = g.user1.team.field_players[0].stats;
    let q = g.user2.team.field_players[0].stats;
    let goalie = g.user1.team.goalies.main_goalkeeper.as_ref().unwrap().stats;
    assert_eq!(g.take_to(&alice), Ok(()));
    assert!(g.user1.take_to_called);
    let p1 = g.user1.team.field_players[0].stats;
    let q1 = g.user2.team.field_players[0].stats;
    assert_eq!(p1.strength, p.strength + 5);
    assert_eq!(p1.discipline, p.discipline + 3);
    assert_eq!(p1.morale, p.morale + 3);
    assert_eq!(q1.strength, q.strength + 3);
    assert_eq!(q1.morale, q.morale + 3);
    assert_eq!(q1.discipline, q.discipline);
    assert_eq!(g.user1.team.goalies.main_goalkeeper.as_ref().unwrap().stats.vision, goalie.vision + 8);
    assert_eq!(g.take_to(&alice), Err(ManageError::AlreadyUsedTimeout));
    assert_eq!(g.take_to(&"carol.near".to_string()), Err(ManageError::AccountNotFound));
}

#[test]
fn coach_speaks_once() {
    let mut g = new_game();
    let bob = "bob.near".to_string();
    let p = g.user2.team.field_players[3].stats;
    assert!(g.coach_speech(&bob));
    assert_eq!(g.user2.team.field_players[3].stats.strength, p.strength + 5);
    assert_eq!(g.user2.team.field_players[3].stats.morale, p.morale);
    assert!(!g.coach_speech(&bob));
    assert_eq!(g.user2.team.field_players[3].stats.strength, p.strength + 5);
    assert!(!g.coach_speech(&"carol.near".to_string()));
}

#[test]
fn goalie_pulled_and_back() {
    let mut g = new_game();
    let bob = "bob.near".to_string();
    assert!(g.goalie_out(&bob));
    assert!(g.user2.is_goalie_out);
    assert!(!g.goalie_out(&bob));
    assert!(g.goalie_back(&bob));
    assert!(!g.user2.is_goalie_out);
    assert!(!g.goalie_back(&bob));
}

#[test]
fn side_changes_its_units() {
    let mut g = new_game();
    let alice = "alice.near".to_string();
    assert_eq!(g.change_tactic(FiveNumber::Third, Tactics::Aggressive, &alice), Ok(()));
    assert_eq!(g.user1.team.fives[2].tactic, Tactics::Aggressive);
    assert_eq!(g.user2.team.fives[2].tactic, Tactics::Neutral);
    assert_eq!(g.change_ice_priority(IceTimePriority::HighPriority, FiveNumber::First, &alice), Ok(()));
    assert_eq!(g.user1.team.fives[0].ice_time_priority, IceTimePriority::HighPriority);
    assert_eq!(g.change_positions(FiveNumber::First, &alice, PlayerPosition::Center, PlayerPosition::LeftWing), Ok(()));
    assert_eq!(g.user1.team.fives[0].field_players.get(&PlayerPosition::Center), Some("a2".to_string()));
    assert_eq!(g.user1.team.fives[0].field_players.get(&PlayerPosition::LeftWing), Some("a1".to_string()));
    assert_eq!(
        g.change_positions(FiveNumber::PenaltyKill1, &alice, PlayerPosition::Center, PlayerPosition::LeftWing),
        Err(ManageError::PositionNotFound)
    );
    assert_eq!(g.change_tactic(FiveNumber::First, Tactics::Safe, &"carol.near".to_string()), Err(ManageError::AccountNotFound));
    g.user1.team.fives.pop();
    assert_eq!(g.change_tactic(FiveNumber::PenaltyKill2, Tactics::Safe, &alice), Err(ManageError::FiveNotFound));
}

use hockey::game::sheet::team_from_sheet;

#[test]
fn sheet_team_starts_with_its_first_line() {
    let t = team("a", 70);
    let built = team_from_sheet(t.fives, t.field_players, t.goalies, t.goalie_substitutions, 2).unwrap();
    assert_eq!(built.active_five.current_number, FiveNumber::First);
    assert_eq!(built.active_five.field_players.get(&PlayerPosition::Center), Some("a1".to_string()));
    assert_eq!(built.active_five.replaced_position.len(), 5);
    assert_eq!(built.active_five.time_field, Some(0));
    assert!(built.penalty_players.is_empty());
    assert_eq!(built.score, 0);
    assert!(built.field_players.iter().all(|p| p.user_id == Some(2)));
    assert_eq!(built.goalies.main_goalkeeper.as_ref().unwrap().user_id, Some(2));
    let mut t = team("a", 70);
    t.fives.remove(0);
    assert!(team_from_sheet(t.fives, t.field_players, t.goalies, t.goalie_substitutions, 2).is_none());
}

#[test]
fn positions_swapped_twice_are_back() {
    let mut t = team("a", 70);
    let before: Vec<Option<String>> = [
        PlayerPosition::Center,
        PlayerPosition::LeftWing,
        PlayerPosition::RightWing,
        PlayerPosition::LeftDefender,
        PlayerPosition::RightDefender,
    ]
    .iter()
    .map(|p| t.fives[1].field_players.get(p))
    .collect();
    assert_eq!(t.swap_positions(FiveNumber::Second, PlayerPosition::Center, PlayerPosition::RightDefender), Ok(()));
    assert_eq!(t.fives[1].field_players.get(&PlayerPosition::Center), Some("a10".to_string()));
    assert_eq!(t.fives[1].field_players.get(&PlayerPosition::RightDefender), Some("a6".to_string()));
    assert_eq!(t.fives[1].field_players.get(&PlayerPosition::LeftWing), Some("a7".to_string()));
    assert_eq!(t.swap_positions(FiveNumber::Second, PlayerPosition::Center, PlayerPosition::RightDefender), Ok(()));
    let after: Vec<Option<String>> = [
        PlayerPosition::Center,
        PlayerPosition::LeftWing,
        PlayerPosition::RightWing,
        PlayerPosition::LeftDefender,
        PlayerPosition::RightDefender,
    ]
    .iter()
    .map(|p| t.fives[1].field_players.get(p))
    .collect();
    assert_eq!(after, before);
}

#[test]
fn rarity_by_group_averages() {
    let mut s = field_stats(70);
    s.discipline = 100;
    s.offensive = 100;
    s.poise = 100;
    s.morale = 100;
    assert_eq!(s.get_rarity(), hockey::nft::rarity::Rarity::Uncommon);
    assert_eq!(s.get_group_rarity(), hockey::nft::rarity::Rarity::Rare);
    assert_eq!(field_stats(95).get_group_rarity(), hockey::nft::rarity::Rarity::Exclusive);
    let g = goalie_stats(40);
    assert_eq!(g.get_rarity(), hockey::nft::rarity::Rarity::Common);
    assert_eq!(g.get_group_rarity(), hockey::nft::rarity::Rarity::Unique);
}

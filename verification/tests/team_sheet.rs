use hockey::game::player::{GoalieSubstitution, PlayerPosition};
use hockey::game::tactics::{IceTimePriority, Tactics};
use hockey::nft::team_sheet::{
    check_team_ids, remove_token_from_team, FiveIds, NumberFive, NumberGoalie, TeamError, TeamIds,
};

const POSITIONS: [PlayerPosition; 5] = [
    PlayerPosition::Center,
    PlayerPosition::LeftWing,
    PlayerPosition::RightWing,
    PlayerPosition::LeftDefender,
    PlayerPosition::RightDefender,
];

fn five(number: NumberFive, first: usize, count: usize) -> FiveIds {
    FiveIds {
        field_players: (0..count).map(|k| (POSITIONS[k], format!("p{}", first + k))).collect(),
        number,
        ice_time_priority: IceTimePriority::Normal,
        tactic: Tactics::Neutral,
    }
}

fn sheet() -> TeamIds {
    let numbers = [
        NumberFive::First,
        NumberFive::Second,
        NumberFive::Third,
        NumberFive::Fourth,
        NumberFive::PowerPlay1,
        NumberFive::PowerPlay2,
        NumberFive::PenaltyKill1,
        NumberFive::PenaltyKill2,
    ];
    let mut fives = Vec::new();
    let mut first = 0;
    for number in numbers {
        let count = if number == NumberFive::PenaltyKill1 || number == NumberFive::PenaltyKill2 { 4 } else { 5 };
        fives.push(five(number, first, count));
        first += count;
    }
    TeamIds {
        fives,
        goalies: vec![(NumberGoalie::MainGoalkeeper, "g1".to_string()), (NumberGoalie::SubstituteGoalkeeper, "g2".to_string())],
        goalie_substitutions: vec![
            (GoalieSubstitution::GoalieSubstitution1, "p0".to_string()),
            (GoalieSubstitution::GoalieSubstitution2, "p1".to_string()),
        ],
    }
}

fn owned() -> Option<Vec<String>> {
    let mut ids: Vec<String> = (0..38).map(|k| format!("p{}", k)).collect();
    ids.push("g1".to_string());
    ids.push("g2".to_string());
    Some(ids)
}

#[test]
fn sheet_in_order_lists_its_cards() {
    let ids = check_team_ids(&sheet(), &owned()).unwrap();
    assert_eq!(ids.len(), 38 + 2 + 2);
    assert_eq!(ids[0], "p0");
    assert_eq!(ids[37], "p37");
    assert_eq!(ids[38], "g1");
    assert_eq!(ids[41], "p1");
}

#[test]
fn sheet_faults_are_found_in_order() {
    let mut team = sheet();
    team.fives.pop();
    assert_eq!(check_team_ids(&team, &owned()).err(), Some(TeamError::WrongNumberOfFives));

    let mut team = sheet();
    team.fives[6].field_players.push((PlayerPosition::RightDefender, "p0".to_string()));
    assert_eq!(check_team_ids(&team, &owned()).err(), Some(TeamError::WrongNumberOfFieldPlayers(5)));

    let mut team = sheet();
    team.goalies.pop();
    assert_eq!(check_team_ids(&team, &owned()).err(), Some(TeamError::WrongNumberOfGoalkeepers));

    let mut team = sheet();
    team.goalie_substitutions.pop();
    assert_eq!(check_team_ids(&team, &owned()).err(), Some(TeamError::WrongNumberOfGoalieSubstitutions));

    assert_eq!(check_team_ids(&sheet(), &None).err(), Some(TeamError::NoTokens));
    let mut fewer = owned().unwrap();
    fewer.retain(|id| id != "g2");
    assert_eq!(check_team_ids(&sheet(), &Some(fewer)).err(), Some(TeamError::NotOwner));
}

#[test]
fn removed_card_leaves_every_place() {
    let mut team = sheet();
    remove_token_from_team(&mut team, &"p0".to_string());
    assert_eq!(team.fives[0].field_players.len(), 4);
    assert_eq!(team.fives[0].field_players[0].1, "p1");
    assert_eq!(team.fives[1].field_players.len(), 5);
    assert_eq!(team.goalie_substitutions.len(), 1);
    assert_eq!(team.goalie_substitutions[0].1, "p1");
    assert_eq!(team.goalies.len(), 2);
    remove_token_from_team(&mut team, &"g1".to_string());
    assert_eq!(team.goalies, vec![(NumberGoalie::SubstituteGoalkeeper, "g2".to_string())]);
}

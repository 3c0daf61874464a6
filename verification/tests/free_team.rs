use hockey::classic::player::{PlayerPosition, PlayerRole};
use hockey::game::player::PlayerType;
use hockey::game::tactics::IceTimePriority;
use hockey::nft::free_team::{
    create_free_team, insert_nft_field_player_to_nft_team, Fives, Goalies, NftFive, NftTeam,
    NftTeamError,
};

#[test]
fn free_team_has_four_lines_and_two_goalies() {
    let team = create_free_team();
    assert_eq!(team.fives.len(), 4);
    let first = &team.fives[0];
    assert_eq!(first.number, Fives::First);
    assert_eq!(first.ice_time_priority, IceTimePriority::SuperHighPriority);
    assert_eq!(first.field_players.len(), 5);
    let (position, card) = &first.field_players[0];
    assert_eq!(*position, PlayerPosition::Center);
    assert_eq!(card.title, Some("Schukin".to_string()));
    assert_eq!(card.extra.number, 10);
    assert_eq!(card.extra.player_role, PlayerRole::Shooter);
    assert_eq!(card.extra.player_type, PlayerType::FieldPlayer);
    assert_eq!(card.extra.stats, vec![65, 75, 76, 69, 88]);
    assert_eq!(team.fives[3].number, Fives::Fourth);
    assert_eq!(team.fives[3].field_players[4].1.title, Some("Tsarev".to_string()));
    assert_eq!(team.goalies.len(), 2);
    assert_eq!(team.goalies[0].0, Goalies::MainGoalkeeper);
    assert_eq!(team.goalies[0].1.title, Some("Bakin".to_string()));
    assert_eq!(team.goalies[0].1.extra.player_position, PlayerPosition::GoaliePos);
    assert_eq!(team.goalies[1].1.extra.stats, vec![83, 75, 88, 75, 67]);
}

#[test]
fn cards_join_an_existing_line() {
    let mut team = NftTeam {
        fives: vec![NftFive {
            field_players: vec![(PlayerPosition::Center, "c1".to_string())],
            number: Fives::Second,
            ice_time_priority: IceTimePriority::Normal,
        }],
        goalies: Vec::new(),
    };
    assert_eq!(
        insert_nft_field_player_to_nft_team(&mut team, Fives::First, PlayerPosition::Center, "x".to_string()),
        Err(NftTeamError::FiveNotFound)
    );
    assert_eq!(team.fives[0].field_players.len(), 1);
    assert_eq!(
        insert_nft_field_player_to_nft_team(&mut team, Fives::Second, PlayerPosition::Center, "c2".to_string()),
        Ok(())
    );
    assert_eq!(team.fives[0].field_players, vec![(PlayerPosition::Center, "c2".to_string())]);
    assert_eq!(
        insert_nft_field_player_to_nft_team(&mut team, Fives::Second, PlayerPosition::LeftWing, "lw".to_string()),
        Ok(())
    );
    assert_eq!(team.fives[0].field_players.len(), 2);
    assert_eq!(team.fives[0].field_players[1], (PlayerPosition::LeftWing, "lw".to_string()));
}

use hockey::manager::{
    parse_bid, split_reward, BidError, GameConfig, GameConfigOutput, Stats, UpdateStatsAction,
};

#[test]
fn reward_split_without_referrer() {
    let split = split_reward(2_000, false);
    assert_eq!(split.winner_reward, 1_800);
    assert_eq!(split.referrer_fee, 0);
    assert_eq!(split.service_fee, 200);
}

#[test]
fn reward_split_with_referrer() {
    let split = split_reward(2_000, true);
    assert_eq!(split.winner_reward, 1_800);
    assert_eq!(split.referrer_fee, 100);
    assert_eq!(split.service_fee, 100);
}

#[test]
fn reward_split_rounds_the_fee_down() {
    let split = split_reward(99, true);
    assert_eq!(split.winner_reward, 90);
    assert_eq!(split.referrer_fee, 4);
    assert_eq!(split.service_fee, 5);
}

#[test]
fn reward_split_adds_up() {
    for amount in [0u128, 1, 9, 10, 11, 1_000_000_000_000_000_000_000_000, u128::MAX] {
        for has_referrer in [false, true] {
            let split = split_reward(amount, has_referrer);
            assert_eq!(split.winner_reward + split.referrer_fee + split.service_fee, amount);
        }
    }
}

#[test]
fn stats_count_games_and_rewards() {
    let mut stats = Stats::new();
    assert_eq!(stats.games_num, 0);
    stats.update(UpdateStatsAction::AddPlayedGame, None, None);
    stats.update(UpdateStatsAction::AddPlayedGame, None, None);
    stats.update(UpdateStatsAction::AddWonGame, None, None);
    stats.update(UpdateStatsAction::AddPenaltyGame, None, None);
    stats.update(UpdateStatsAction::AddTotalReward, None, Some(1_800));
    stats.update(UpdateStatsAction::AddTotalReward, None, None);
    stats.update(UpdateStatsAction::AddAffiliateReward, None, Some(100));
    assert_eq!(stats.games_num, 2);
    assert_eq!(stats.victories_num, 1);
    assert_eq!(stats.penalties_num, 1);
    assert_eq!(stats.total_reward, 1_800);
    assert_eq!(stats.total_affiliate_reward, 100);
}

#[test]
fn stats_keep_referrer_and_affiliates() {
    let mut stats = Stats::new();
    stats.update(UpdateStatsAction::AddReferral, None, None);
    assert!(stats.referrer_id.is_none());
    stats.update(UpdateStatsAction::AddReferral, Some("bob.near".to_string()), None);
    assert_eq!(stats.referrer_id, Some("bob.near".to_string()));
    stats.update(UpdateStatsAction::AddAffiliate, Some("carol.near".to_string()), None);
    stats.update(UpdateStatsAction::AddAffiliate, Some("carol.near".to_string()), None);
    stats.update(UpdateStatsAction::AddAffiliate, Some("dave.near".to_string()), None);
    assert_eq!(stats.affiliates, vec!["carol.near".to_string(), "dave.near".to_string()]);
}

#[test]
fn game_config_output_shows_missing_deposit_as_zero() {
    let shown = GameConfigOutput::from_config(GameConfig { deposit: None, opponent_id: Some("bob.near".to_string()) });
    assert_eq!(shown.deposit, 0);
    assert_eq!(shown.opponent_id, Some("bob.near".to_string()));
    let shown = GameConfigOutput::from_config(GameConfig { deposit: Some(5), opponent_id: None });
    assert_eq!(shown.deposit, 5);
    assert!(shown.opponent_id.is_none());
}

#[test]
fn bid_is_read_as_json_number() {
    assert_eq!(parse_bid(&"1000000000000000000000000".to_string()), Ok(1_000_000_000_000_000_000_000_000));
    assert_eq!(parse_bid(&"42".to_string()), Ok(42));
}

#[test]
fn bid_that_is_no_number_is_refused() {
    assert_eq!(parse_bid(&"forty".to_string()), Err(BidError::WrongDeposit));
    assert_eq!(parse_bid(&"-3".to_string()), Err(BidError::WrongDeposit));
}

#[test]
fn bid_is_one_plain_number_with_spaces_around() {
    assert_eq!(parse_bid(&" 7 \n".to_string()), Ok(7));
    assert_eq!(parse_bid(&"0".to_string()), Ok(0));
    assert_eq!(parse_bid(&"\t340282366920938463463374607431768211455".to_string()), Ok(u128::MAX));
    assert_eq!(parse_bid(&"340282366920938463463374607431768211456".to_string()), Err(BidError::WrongDeposit));
    assert_eq!(parse_bid(&"007".to_string()), Err(BidError::WrongDeposit));
    assert_eq!(parse_bid(&"1.5".to_string()), Err(BidError::WrongDeposit));
    assert_eq!(parse_bid(&"1 2".to_string()), Err(BidError::WrongDeposit));
    assert_eq!(parse_bid(&"".to_string()), Err(BidError::WrongDeposit));
}

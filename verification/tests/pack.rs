use hockey::game::player::PlayerType;
use hockey::nft::pack::{
    check_royalties, draw_pack_cards, draw_starter_cards, RoyaltyError, get_pack_probabilities, get_random_in_range, get_random_player_type,
    get_random_rarity, get_rarity_by_index, Pack,
};
use hockey::nft::rarity::{calculate_rarity, Rarity};

#[test]
fn pack_probabilities_add_up_to_a_hundred() {
    for pack in [Pack::Bronze, Pack::Silver, Pack::Gold, Pack::Platinum, Pack::Brilliant] {
        let p = get_pack_probabilities(pack);
        assert_eq!(p.len(), 5);
        assert_eq!(p.iter().map(|x| *x as u32).sum::<u32>(), 100);
    }
    assert_eq!(get_pack_probabilities(Pack::Gold), vec![30, 40, 25, 5, 0]);
}

#[test]
fn rarities_by_rank() {
    assert_eq!(get_rarity_by_index(0), Rarity::Common);
    assert_eq!(get_rarity_by_index(2), Rarity::Rare);
    assert_eq!(get_rarity_by_index(4), Rarity::Exclusive);
}

#[test]
fn rarity_draws_go_down_from_a_hundred() {
    let silver = get_pack_probabilities(Pack::Silver);
    assert_eq!(get_random_rarity(&silver, 99), Rarity::Common);
    assert_eq!(get_random_rarity(&silver, 50), Rarity::Common);
    assert_eq!(get_random_rarity(&silver, 49), Rarity::Uncommon);
    assert_eq!(get_random_rarity(&silver, 5), Rarity::Uncommon);
    assert_eq!(get_random_rarity(&silver, 4), Rarity::Rare);
    assert_eq!(get_random_rarity(&silver, 0), Rarity::Rare);
    let brilliant = get_pack_probabilities(Pack::Brilliant);
    assert_eq!(get_random_rarity(&brilliant, 99), Rarity::Uncommon);
    assert_eq!(get_random_rarity(&brilliant, 19), Rarity::Exclusive);
}

#[test]
fn goalies_from_eighty() {
    assert_eq!(get_random_player_type(79), PlayerType::FieldPlayer);
    assert_eq!(get_random_player_type(80), PlayerType::Goalie);
    assert_eq!(get_random_player_type(1), PlayerType::FieldPlayer);
}

#[test]
fn card_draws_scale_seed_bytes() {
    let seed: Vec<u8> = vec![0, 255, 128, 64, 10, 200];
    assert_eq!(get_random_in_range(&seed, 0), 1);
    assert_eq!(get_random_in_range(&seed, 1), 99);
    assert_eq!(get_random_in_range(&seed, 2), 50);
    assert_eq!(get_random_in_range(&seed, 3), 25);
}

#[test]
fn starter_cards_are_a_goalie_and_five_field_players() {
    let seed: Vec<u8> = vec![0, 255, 128, 64, 10, 200];
    let cards = draw_starter_cards(&seed);
    assert_eq!(cards.len(), 6);
    assert_eq!(cards[0], (PlayerType::Goalie, Rarity::Rare));
    assert_eq!(cards[1], (PlayerType::FieldPlayer, Rarity::Common));
    assert_eq!(cards[2], (PlayerType::FieldPlayer, Rarity::Common));
    assert_eq!(cards[3], (PlayerType::FieldPlayer, Rarity::Uncommon));
    assert_eq!(cards[4], (PlayerType::FieldPlayer, Rarity::Rare));
    assert_eq!(cards[5], (PlayerType::FieldPlayer, Rarity::Common));
}

#[test]
fn rarity_of_average_rating() {
    assert_eq!(calculate_rarity(95 * 26, 26), Rarity::Exclusive);
    assert_eq!(calculate_rarity(95 * 26 - 1, 26), Rarity::Unique);
    assert_eq!(calculate_rarity(75 * 20, 20), Rarity::Rare);
    assert_eq!(calculate_rarity(60 * 20, 20), Rarity::Uncommon);
    assert_eq!(calculate_rarity(59 * 20, 20), Rarity::Common);
}

#[test]
fn pack_cards_follow_the_pack_chances() {
    let seed: Vec<u8> = vec![0, 255, 128];
    let cards = draw_pack_cards(&seed, Pack::Gold);
    assert_eq!(cards.len(), 3);
    assert_eq!(cards[0], (PlayerType::FieldPlayer, Rarity::Unique));
    assert_eq!(cards[1], (PlayerType::Goalie, Rarity::Common));
    assert_eq!(cards[2], (PlayerType::FieldPlayer, Rarity::Uncommon));
}

#[test]
fn royalties_are_capped() {
    assert_eq!(check_royalties(&Vec::new()), Ok(()));
    assert_eq!(check_royalties(&vec![("a.near".to_string(), 2000)]), Ok(()));
    assert_eq!(
        check_royalties(&vec![("a.near".to_string(), 1000), ("b.near".to_string(), 1001)]),
        Err(RoyaltyError::RoyaltiesAboveCap)
    );
    let many: Vec<(String, u32)> = (0..7).map(|i| (format!("{}.near", i), 1)).collect();
    assert_eq!(check_royalties(&many), Err(RoyaltyError::TooManyRoyalties));
}

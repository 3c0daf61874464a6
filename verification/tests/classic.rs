use hockey::classic::field_player::{FieldPlayer, FieldPlayerStats};
use hockey::classic::player::PlayerPosition::Center;
use hockey::classic::player::PlayerRole::Shooter;

#[test]
fn it_works() {
    let stats: FieldPlayerStats = FieldPlayerStats::new(125, 124, 144, 0, 200);

    let player: FieldPlayer = FieldPlayer::new(false, Center, Shooter, 0, stats);
    println!("{}", player.stats.get_skating());
    assert_eq!(player.stats.get_skating(), 125);
    assert_eq!(player.stats.get_shooting(), 124);
    assert_eq!(player.stats.get_strength(), 144);
    assert_eq!(player.stats.get_iq(), 0);
    assert_eq!(player.stats.get_morale(), 200);
    assert!(!player.get_holds_puck());
    assert_eq!(player.get_user_id(), 0);
}

use hockey::classic::action::{
    get_another_random_position, get_other_positions, get_random_position_after_rebound, Action,
    ActionTypes,
};
use hockey::classic::player::PlayerPosition;

#[test]
fn role_weights() {
    assert_eq!(Action.get_probability_of_actions(Shooter), vec![2, 4, 1, 3]);
}

#[test]
fn draws_pick_actions_by_weight() {
    assert_eq!(Action.choose_random_action(false, Shooter, 0), ActionTypes::Move);
    assert_eq!(Action.choose_random_action(false, Shooter, 3), ActionTypes::Dangle);
    assert_eq!(Action.choose_random_action(false, Shooter, 6), ActionTypes::Pass);
    assert_eq!(Action.choose_random_action(true, Shooter, 6), ActionTypes::Shot);
    assert_eq!(Action.choose_random_action(true, Shooter, 0), ActionTypes::Pass);
}

#[test]
fn random_action_draws_over_the_whole_range() {
    let mut shots = 0;
    for _ in 0..200 {
        let a = Action.get_random_action(true, Shooter);
        assert!(a == ActionTypes::Shot || a == ActionTypes::Pass);
        if a == ActionTypes::Shot {
            shots += 1;
        }
    }
    assert!(shots > 0);
}

#[test]
fn other_positions_leave_out_the_player() {
    assert_eq!(
        get_other_positions(PlayerPosition::Center),
        vec![PlayerPosition::RightWing, PlayerPosition::LeftWing, PlayerPosition::RightDefender, PlayerPosition::LeftDefender]
    );
    assert_eq!(get_other_positions(PlayerPosition::GoaliePos).len(), 5);
    assert_eq!(get_another_random_position(PlayerPosition::Center, 2), PlayerPosition::RightDefender);
}

#[test]
fn rebound_positions() {
    assert_eq!(get_random_position_after_rebound(0), PlayerPosition::LeftDefender);
    assert_eq!(get_random_position_after_rebound(3), PlayerPosition::RightDefender);
    assert_eq!(get_random_position_after_rebound(5), PlayerPosition::Center);
    assert_eq!(get_random_position_after_rebound(8), PlayerPosition::LeftWing);
    assert_eq!(get_random_position_after_rebound(9), PlayerPosition::RightWing);
}

use hockey::classic::positioned::{PositionedPlayer, PositionedStats};

#[test]
fn position_coefficients() {
    let stats = PositionedStats::new(60, 70, 80_000, 50, 90);
    let cases = [
        (PlayerPosition::Center, PlayerPosition::Center, 10000),
        (PlayerPosition::Center, PlayerPosition::LeftWing, 8000),
        (PlayerPosition::RightWing, PlayerPosition::Center, 7500),
        (PlayerPosition::RightWing, PlayerPosition::LeftWing, 9500),
        (PlayerPosition::LeftDefender, PlayerPosition::RightDefender, 9500),
        (PlayerPosition::LeftDefender, PlayerPosition::LeftWing, 8000),
        (PlayerPosition::RightDefender, PlayerPosition::RightDefender, 10000),
    ];
    for (position, native, expected) in cases {
        let mut player = PositionedPlayer::new(native, position, 0, Shooter, 1, stats);
        player.set_position_coefficient();
        assert_eq!(player.position_coefficient, expected);
        assert_eq!(player.get_player_position(), position);
    }
}

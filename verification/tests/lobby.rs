use hockey::lobby::{arrive, check_start, has_game_started, Arrival, LobbyError};
use hockey::manager::GameConfig;

fn waiting(entries: &[(&str, Option<u128>, Option<&str>)]) -> Vec<(String, GameConfig)> {
    entries
        .iter()
        .map(|(id, d, o)| (id.to_string(), GameConfig { deposit: *d, opponent_id: o.map(|s| s.to_string()) }))
        .collect()
}

fn games() -> Vec<(u64, (String, String))> {
    vec![(0, ("carol.near".to_string(), "dave.near".to_string()))]
}

#[test]
fn players_in_a_match_are_found() {
    assert!(has_game_started(&games(), &"dave.near".to_string()));
    assert!(!has_game_started(&games(), &"alice.near".to_string()));
}

#[test]
fn first_player_waits_and_the_next_plays_him() {
    let empty = waiting(&[]);
    assert_eq!(arrive(&empty, &games(), &"alice.near".to_string()), Ok(Arrival::Wait));
    assert_eq!(arrive(&empty, &games(), &"carol.near".to_string()), Err(LobbyError::AnotherGameStarted));
    let w = waiting(&[("alice.near", Some(5), None), ("erin.near", Some(5), None)]);
    assert_eq!(arrive(&w, &games(), &"bob.near".to_string()), Ok(Arrival::Play("alice.near".to_string())));
    assert_eq!(arrive(&w, &games(), &"erin.near".to_string()), Err(LobbyError::AlreadyWaiting));
    assert_eq!(arrive(&w, &games(), &"dave.near".to_string()), Err(LobbyError::AnotherGameStarted));
}

#[test]
fn match_starts_after_its_checks() {
    let w = waiting(&[
        ("alice.near", Some(5), None),
        ("frank.near", Some(7), None),
        ("gina.near", Some(5), Some("bob.near")),
        ("hal.near", Some(5), Some("ivy.near")),
    ]);
    let g = games();
    let bob = "bob.near".to_string();
    assert_eq!(check_start(&w, &g, &"alice.near".to_string(), 5, &bob), Ok(0));
    assert_eq!(check_start(&w, &g, &"zed.near".to_string(), 5, &bob), Err(LobbyError::OpponentNotReady));
    assert_eq!(check_start(&w, &g, &"frank.near".to_string(), 5, &bob), Err(LobbyError::WrongDeposit));
    assert_eq!(
        check_start(&w, &g, &"alice.near".to_string(), 5, &"alice.near".to_string()),
        Err(LobbyError::SameAccount)
    );
    assert_eq!(
        check_start(&w, &g, &"alice.near".to_string(), 5, &"carol.near".to_string()),
        Err(LobbyError::AnotherGameStarted)
    );
    assert_eq!(check_start(&w, &g, &"gina.near".to_string(), 5, &bob), Ok(2));
    assert_eq!(check_start(&w, &g, &"hal.near".to_string(), 5, &bob), Err(LobbyError::WrongAccount));
}

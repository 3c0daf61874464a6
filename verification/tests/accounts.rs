use hockey::accounts::{
    accept_friend_request, accept_request_play, decline_friend_request, decline_request_play,
    remove_friend, send_friend_request, send_request_play, Account, AccountError,
};

fn ids(v: &Vec<String>) -> Vec<&str> {
    v.iter().map(|s| s.as_str()).collect()
}

#[test]
fn friend_request_accepted_makes_both_friends() {
    let mut alice = Account::new("alice.near".to_string());
    let mut bob = Account::new("bob.near".to_string());
    assert_eq!(send_friend_request(&mut alice, &mut bob), Ok(()));
    assert_eq!(ids(&alice.sent_friend_requests), vec!["bob.near"]);
    assert_eq!(ids(&bob.friend_requests_received), vec!["alice.near"]);
    assert_eq!(accept_friend_request(&mut bob, &mut alice), Ok(()));
    assert_eq!(ids(&alice.friends), vec!["bob.near"]);
    assert_eq!(ids(&bob.friends), vec!["alice.near"]);
    assert!(alice.sent_friend_requests.is_empty());
    assert!(bob.friend_requests_received.is_empty());
}

#[test]
fn unfriending_undoes_the_friendship() {
    let mut alice = Account::new("alice.near".to_string());
    let mut bob = Account::new("bob.near".to_string());
    send_friend_request(&mut alice, &mut bob).unwrap();
    accept_friend_request(&mut bob, &mut alice).unwrap();
    assert_eq!(remove_friend(&mut alice, &mut bob), Ok(()));
    assert!(alice.friends.is_empty());
    assert!(bob.friends.is_empty());
}

#[test]
fn accepting_without_request_is_refused() {
    let mut alice = Account::new("alice.near".to_string());
    let mut bob = Account::new("bob.near".to_string());
    assert_eq!(accept_friend_request(&mut bob, &mut alice), Err(AccountError::FriendIdNotFound));
    bob.friend_requests_received.push("alice.near".to_string());
    assert_eq!(accept_friend_request(&mut bob, &mut alice), Err(AccountError::AccountIdNotFound));
    assert_eq!(ids(&bob.friend_requests_received), vec!["alice.near"]);
    assert!(bob.friends.is_empty());
}

#[test]
fn befriending_oneself_is_refused() {
    let mut alice = Account::new("alice.near".to_string());
    let mut again = Account::new("alice.near".to_string());
    assert_eq!(send_friend_request(&mut alice, &mut again), Err(AccountError::WrongFriendId));
    assert_eq!(remove_friend(&mut alice, &mut again), Err(AccountError::WrongFriendId));
    assert_eq!(send_request_play(&mut alice, &mut again, 5), Err(AccountError::WrongFriendId));
    assert!(alice.sent_friend_requests.is_empty());
}

#[test]
fn declined_friend_request_is_dropped_both_ways() {
    let mut alice = Account::new("alice.near".to_string());
    let mut bob = Account::new("bob.near".to_string());
    send_friend_request(&mut alice, &mut bob).unwrap();
    send_friend_request(&mut bob, &mut alice).unwrap();
    decline_friend_request(&mut bob, &mut alice);
    assert!(alice.sent_friend_requests.is_empty());
    assert!(alice.friend_requests_received.is_empty());
    assert!(bob.sent_friend_requests.is_empty());
    assert!(bob.friend_requests_received.is_empty());
}

#[test]
fn request_to_play_keeps_the_last_deposit() {
    let mut alice = Account::new("alice.near".to_string());
    let mut bob = Account::new("bob.near".to_string());
    send_request_play(&mut alice, &mut bob, 5).unwrap();
    send_request_play(&mut alice, &mut bob, 7).unwrap();
    assert_eq!(alice.sent_requests_play, vec![("bob.near".to_string(), 7)]);
    assert_eq!(bob.requests_play_received, vec![("alice.near".to_string(), 7)]);
}

#[test]
fn accepting_a_request_to_play_is_refused() {
    let mut alice = Account::new("alice.near".to_string());
    let mut bob = Account::new("bob.near".to_string());
    assert!(matches!(accept_request_play(&bob, &alice, 5), Err(AccountError::RequestToPlayNotFound)));
    send_request_play(&mut alice, &mut bob, 5).unwrap();
    assert!(matches!(accept_request_play(&bob, &alice, 6), Err(AccountError::WrongDeposit)));
    assert!(matches!(accept_request_play(&bob, &alice, 5), Err(AccountError::AccountIdNotFound)));
    bob.requests_play_received.clear();
    assert!(matches!(accept_request_play(&bob, &alice, 5), Err(AccountError::FriendIdNotFound)));
}

#[test]
fn declined_request_to_play_refunds_the_sender() {
    let mut alice = Account::new("alice.near".to_string());
    let mut bob = Account::new("bob.near".to_string());
    send_request_play(&mut alice, &mut bob, 5).unwrap();
    let refunds = decline_request_play(&mut alice, &mut bob);
    assert_eq!(refunds, vec![("alice.near".to_string(), 5)]);
    assert!(alice.sent_requests_play.is_empty());
    assert!(bob.requests_play_received.is_empty());
}

#[test]
fn declining_with_no_request_refunds_nothing() {
    let mut alice = Account::new("alice.near".to_string());
    let mut bob = Account::new("bob.near".to_string());
    let refunds = decline_request_play(&mut bob, &mut alice);
    assert!(refunds.is_empty());
}

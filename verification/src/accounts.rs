use vstd::prelude::*;
use crate::ids::{
    get_amount, insert_amount, insert_id, remove_amount, remove_id, spec_id_set, spec_key_map,
    spec_unique_ids, spec_unique_keys,
};
use crate::manager::GameConfig;

verus! {

/// A registered player: his friends, the friend requests he sent and received, and the
/// requests to play he sent and received, each with its deposit.
pub struct Account {
    pub user_id: String,
    pub friends: Vec<String>,
    pub sent_friend_requests: Vec<String>,
    pub friend_requests_received: Vec<String>,
    pub sent_requests_play: Vec<(String, u128)>,
    pub requests_play_received: Vec<(String, u128)>,
}

/// Why a request between two players was refused.
#[derive(PartialEq, Eq, Structural, Clone, Copy, Debug)]
pub enum AccountError {
    /// A player cannot befriend or invite himself.
    WrongFriendId,
    /// The other player sent no such request.
    FriendIdNotFound,
    /// The request is missing, or still listed, on the other player's side.
    AccountIdNotFound,
    /// The other player sent no request to play.
    RequestToPlayNotFound,
    /// The deposit differs from the one of the request to play.
    WrongDeposit,
}

impl Account {
    /// Whether no list of the account holds an id twice.
    pub open spec fn wf(self) -> bool {
        &&& spec_unique_ids(self.friends@)
        &&& spec_unique_ids(self.sent_friend_requests@)
        &&& spec_unique_ids(self.friend_requests_received@)
        &&& spec_unique_keys(self.sent_requests_play@)
        &&& spec_unique_keys(self.requests_play_received@)
    }

    pub open spec fn friend_set(self) -> Set<Seq<char>> {
        spec_id_set(self.friends@)
    }

    pub open spec fn sent_set(self) -> Set<Seq<char>> {
        spec_id_set(self.sent_friend_requests@)
    }

    pub open spec fn received_set(self) -> Set<Seq<char>> {
        spec_id_set(self.friend_requests_received@)
    }

    pub open spec fn sent_play(self) -> Map<Seq<char>, u128> {
        spec_key_map(self.sent_requests_play@)
    }

    pub open spec fn received_play(self) -> Map<Seq<char>, u128> {
        spec_key_map(self.requests_play_received@)
    }

    /// Whether `after` holds what `self` holds, with the friends `friends`, the friend
    /// requests `sent` and `received`, and the requests to play `sent_play` and
    /// `received_play`.
    pub open spec fn spec_with(
        self,
        after: Account,
        friends: Set<Seq<char>>,
        sent: Set<Seq<char>>,
        received: Set<Seq<char>>,
        sent_play: Map<Seq<char>, u128>,
        received_play: Map<Seq<char>, u128>,
    ) -> bool {
        &&& after.wf()
        &&& after.user_id == self.user_id
        &&& after.friend_set() == friends
        &&& after.sent_set() == sent
        &&& after.received_set() == received
        &&& after.sent_play() == sent_play
        &&& after.received_play() == received_play
    }

    /// A newly registered player, with nobody on any list.
    pub fn new(user_id: String) -> (a: Account)
        ensures
            a.wf(),
            a.user_id == user_id,
            a.friend_set() == Set::<Seq<char>>::empty(),
            a.sent_set() == Set::<Seq<char>>::empty(),
            a.received_set() == Set::<Seq<char>>::empty(),
            a.sent_play() == Map::<Seq<char>, u128>::empty(),
            a.received_play() == Map::<Seq<char>, u128>::empty(),
    {
        let a = Account {
            user_id,
            friends: Vec::new(),
            sent_friend_requests: Vec::new(),
            friend_requests_received: Vec::new(),
            sent_requests_play: Vec::new(),
            requests_play_received: Vec::new(),
        };
        assert(a.friend_set() =~= Set::<Seq<char>>::empty());
        assert(a.sent_set() =~= Set::<Seq<char>>::empty());
        assert(a.received_set() =~= Set::<Seq<char>>::empty());
        assert(a.sent_play() =~= Map::<Seq<char>, u128>::empty());
        assert(a.received_play() =~= Map::<Seq<char>, u128>::empty());
        a
    }
}

/// `a1` and `f1` are the players `a0` and `f0` once they are no longer friends.
pub open spec fn spec_unfriended(a0: Account, f0: Account, a1: Account, f1: Account) -> bool {
    &&& a0.spec_with(a1, a0.friend_set().remove(f0.user_id@), a0.sent_set(), a0.received_set(), a0.sent_play(), a0.received_play())
    &&& f0.spec_with(f1, f0.friend_set().remove(a0.user_id@), f0.sent_set(), f0.received_set(), f0.sent_play(), f0.received_play())
}

/// `a1` and `f1` are the players `a0` and `f0` once `a0` accepted the friend request of
/// `f0`: the request is gone from both sides and each is the other's friend.
pub open spec fn spec_befriended(a0: Account, f0: Account, a1: Account, f1: Account) -> bool {
    &&& a0.spec_with(a1, a0.friend_set().insert(f0.user_id@), a0.sent_set(),
        a0.received_set().remove(f0.user_id@), a0.sent_play(), a0.received_play())
    &&& f0.spec_with(f1, f0.friend_set().insert(a0.user_id@), f0.sent_set().remove(a0.user_id@),
        f0.received_set(), f0.sent_play(), f0.received_play())
}

/// `account` and `friend` stop being friends; refused when they are the same player.
pub fn remove_friend(account: &mut Account, friend: &mut Account) -> (r: Result<(), AccountError>)
    requires
        old(account).wf(),
        old(friend).wf(),
    ensures
        old(account).user_id@ == old(friend).user_id@ ==> r == Err::<(), AccountError>(AccountError::WrongFriendId)
            && *final(account) == *old(account) && *final(friend) == *old(friend),
        old(account).user_id@ != old(friend).user_id@ ==> r is Ok
            && spec_unfriended(*old(account), *old(friend), *final(account), *final(friend)),
{
    if account.user_id == friend.user_id {
        return Err(AccountError::WrongFriendId);
    }
    remove_id(&mut account.friends, &friend.user_id);
    remove_id(&mut friend.friends, &account.user_id);
    Ok(())
}

/// `account` asks `friend` to be friends; refused when they are the same player.
pub fn send_friend_request(account: &mut Account, friend: &mut Account) -> (r: Result<(), AccountError>)
    requires
        old(account).wf(),
        old(friend).wf(),
    ensures
        old(account).user_id@ == old(friend).user_id@ ==> r == Err::<(), AccountError>(AccountError::WrongFriendId)
            && *final(account) == *old(account) && *final(friend) == *old(friend),
        old(account).user_id@ != old(friend).user_id@ ==> r is Ok
            && old(account).spec_with(*final(account), old(account).friend_set(),
                old(account).sent_set().insert(old(friend).user_id@), old(account).received_set(),
                old(account).sent_play(), old(account).received_play())
            && old(friend).spec_with(*final(friend), old(friend).friend_set(), old(friend).sent_set(),
                old(friend).received_set().insert(old(account).user_id@),
                old(friend).sent_play(), old(friend).received_play()),
{
    if account.user_id == friend.user_id {
        return Err(AccountError::WrongFriendId);
    }
    insert_id(&mut account.sent_friend_requests, friend.user_id.clone());
    insert_id(&mut friend.friend_requests_received, account.user_id.clone());
    Ok(())
}

/// `account` accepts the friend request of `friend`; refused when `account` received no
/// request from `friend`, or `friend` lists no request to `account`.
pub fn accept_friend_request(account: &mut Account, friend: &mut Account) -> (r: Result<(), AccountError>)
    requires
        old(account).wf(),
        old(friend).wf(),
    ensures
        !old(account).received_set().contains(old(friend).user_id@) ==>
            r == Err::<(), AccountError>(AccountError::FriendIdNotFound),
        old(account).received_set().contains(old(friend).user_id@)
            && !old(friend).sent_set().contains(old(account).user_id@) ==>
            r == Err::<(), AccountError>(AccountError::AccountIdNotFound),
        r is Err ==> *final(account) == *old(account) && *final(friend) == *old(friend),
        old(account).received_set().contains(old(friend).user_id@)
            && old(friend).sent_set().contains(old(account).user_id@) ==>
            r is Ok && spec_befriended(*old(account), *old(friend), *final(account), *final(friend)),
{
    if find_in(&account.friend_requests_received, &friend.user_id) == false {
        return Err(AccountError::FriendIdNotFound);
    }
    if find_in(&friend.sent_friend_requests, &account.user_id) == false {
        return Err(AccountError::AccountIdNotFound);
    }
    remove_id(&mut account.friend_requests_received, &friend.user_id);
    remove_id(&mut friend.sent_friend_requests, &account.user_id);
    insert_id(&mut account.friends, friend.user_id.clone());
    insert_id(&mut friend.friends, account.user_id.clone());
    Ok(())
}

/// Whether `id` is in the set `v`.
fn find_in(v: &Vec<String>, id: &String) -> (b: bool)
    ensures
        b == spec_id_set(v@).contains(id@),
{
    match crate::ids::find_id(v, id) {
        Some(i) => {
            assert(v@[i as int]@ == id@);
            true
        },
        None => false,
    }
}

/// `account` turns down the friend request of `friend`: every friend request between the
/// two, either way, is dropped.
pub fn decline_friend_request(account: &mut Account, friend: &mut Account)
    requires
        old(account).wf(),
        old(friend).wf(),
    ensures
        old(account).spec_with(*final(account), old(account).friend_set(),
            old(account).sent_set().remove(old(friend).user_id@),
            old(account).received_set().remove(old(friend).user_id@),
            old(account).sent_play(), old(account).received_play()),
        old(friend).spec_with(*final(friend), old(friend).friend_set(),
            old(friend).sent_set().remove(old(account).user_id@),
            old(friend).received_set().remove(old(account).user_id@),
            old(friend).sent_play(), old(friend).received_play()),
{
    remove_id(&mut account.friend_requests_received, &friend.user_id);
    remove_id(&mut account.sent_friend_requests, &friend.user_id);
    remove_id(&mut friend.sent_friend_requests, &account.user_id);
    remove_id(&mut friend.friend_requests_received, &account.user_id);
}

/// `account` asks `friend` to play for `deposit`; refused when they are the same player.
pub fn send_request_play(account: &mut Account, friend: &mut Account, deposit: u128) -> (r: Result<(), AccountError>)
    requires
        old(account).wf(),
        old(friend).wf(),
    ensures
        old(account).user_id@ == old(friend).user_id@ ==> r == Err::<(), AccountError>(AccountError::WrongFriendId)
            && *final(account) == *old(account) && *final(friend) == *old(friend),
        old(account).user_id@ != old(friend).user_id@ ==> r is Ok
            && old(account).spec_with(*final(account), old(account).friend_set(), old(account).sent_set(),
                old(account).received_set(), old(account).sent_play().insert(old(friend).user_id@, deposit),
                old(account).received_play())
            && old(friend).spec_with(*final(friend), old(friend).friend_set(), old(friend).sent_set(),
                old(friend).received_set(), old(friend).sent_play(),
                old(friend).received_play().insert(old(account).user_id@, deposit)),
{
    if account.user_id == friend.user_id {
        return Err(AccountError::WrongFriendId);
    }
    insert_amount(&mut account.sent_requests_play, friend.user_id.clone(), deposit);
    insert_amount(&mut friend.requests_play_received, account.user_id.clone(), deposit);
    Ok(())
}

/// `account` answers the request to play of `friend` with `deposit`. Refused when
/// `friend` sent no request to `account`, for another deposit, or `account` lists none
/// from `friend`; and refused as well when all of that is in order, since the request is
/// then still listed on `friend`'s side. No match starts this way.
pub fn accept_request_play(account: &Account, friend: &Account, deposit: u128) -> (r: Result<GameConfig, AccountError>)
    requires
        account.wf(),
        friend.wf(),
    ensures
        !friend.sent_play().contains_key(account.user_id@) ==> r == Err::<GameConfig, AccountError>(AccountError::RequestToPlayNotFound),
        friend.sent_play().contains_key(account.user_id@) && friend.sent_play()[account.user_id@] != deposit ==>
            r == Err::<GameConfig, AccountError>(AccountError::WrongDeposit),
        friend.sent_play().contains_key(account.user_id@) && friend.sent_play()[account.user_id@] == deposit
            && !account.received_play().contains_key(friend.user_id@) ==>
            r == Err::<GameConfig, AccountError>(AccountError::FriendIdNotFound),
        friend.sent_play().contains_key(account.user_id@) && friend.sent_play()[account.user_id@] == deposit
            && account.received_play().contains_key(friend.user_id@) ==>
            r == Err::<GameConfig, AccountError>(AccountError::AccountIdNotFound),
{
    let friend_deposit = match get_amount(&friend.sent_requests_play, &account.user_id) {
        Some(d) => d,
        None => return Err(AccountError::RequestToPlayNotFound),
    };
    if deposit != friend_deposit {
        return Err(AccountError::WrongDeposit);
    }
    if get_amount(&account.requests_play_received, &friend.user_id).is_none() {
        return Err(AccountError::FriendIdNotFound);
    }
    if get_amount(&friend.sent_requests_play, &account.user_id).is_some() {
        return Err(AccountError::AccountIdNotFound);
    }
    Ok(GameConfig { deposit: Some(deposit), opponent_id: Some(friend.user_id.clone()) })
}

/// The refunds of a declined request to play: to `account` the deposit of its request
/// that `friend` received, then to `friend` the deposit of a request that `account` lists
/// from itself.
pub open spec fn spec_play_refunds(a: Account, f: Account) -> Seq<(Seq<char>, u128)> {
    let received = a.received_play().remove(f.user_id@);
    (if f.received_play().contains_key(a.user_id@) {
        seq![(a.user_id@, f.received_play()[a.user_id@])]
    } else {
        Seq::empty()
    }) + (if received.contains_key(a.user_id@) {
        seq![(f.user_id@, received[a.user_id@])]
    } else {
        Seq::empty()
    })
}

/// The accounts and amounts of `v`, as ids and amounts.
pub open spec fn spec_refund_view(v: Seq<(String, u128)>) -> Seq<(Seq<char>, u128)> {
    v.map_values(|e: (String, u128)| (e.0@, e.1))
}

/// `account` turns down the request to play of `friend`: requests to play between the two
/// are dropped, and the deposits to give back are returned (see `spec_play_refunds`).
pub fn decline_request_play(account: &mut Account, friend: &mut Account) -> (refunds: Vec<(String, u128)>)
    requires
        old(account).wf(),
        old(friend).wf(),
    ensures
        ({
            let a = *old(account);
            let f = *old(friend);
            let received = a.received_play().remove(f.user_id@);
            &&& a.spec_with(*final(account), a.friend_set(), a.sent_set(), a.received_set(),
                a.sent_play().remove(f.user_id@), received.remove(a.user_id@))
            &&& f.spec_with(*final(friend), f.friend_set(), f.sent_set(), f.received_set(),
                if received.contains_key(a.user_id@) { f.sent_play().remove(a.user_id@) } else { f.sent_play() },
                f.received_play().remove(a.user_id@))
            &&& spec_refund_view(refunds@) == spec_play_refunds(a, f)
        }),
{
    let ghost a = *account;
    let ghost f = *friend;
    let mut refunds: Vec<(String, u128)> = Vec::new();
    remove_amount(&mut account.requests_play_received, &friend.user_id);
    remove_amount(&mut account.sent_requests_play, &friend.user_id);
    match remove_amount(&mut friend.requests_play_received, &account.user_id) {
        Some(d) => {
            remove_amount(&mut account.sent_requests_play, &friend.user_id);
            refunds.push((account.user_id.clone(), d));
        },
        None => {},
    }
    let ghost first = refunds@;
    match remove_amount(&mut account.requests_play_received, &account.user_id) {
        Some(d) => {
            remove_amount(&mut friend.sent_requests_play, &account.user_id);
            refunds.push((friend.user_id.clone(), d));
        },
        None => {},
    }
    assert(a.sent_play().remove(f.user_id@).remove(f.user_id@) =~= a.sent_play().remove(f.user_id@));
    assert(spec_refund_view(refunds@) =~= spec_play_refunds(a, f));
    refunds
}

/// Ending a friendship that an accepted request began gives both players back the
/// friends they had before the request, when they were not friends then.
pub proof fn lemma_unfriend_undoes_befriend(
    a0: Account,
    f0: Account,
    a1: Account,
    f1: Account,
    a2: Account,
    f2: Account,
)
    requires
        spec_befriended(a0, f0, a1, f1),
        spec_unfriended(a1, f1, a2, f2),
        !a0.friend_set().contains(f0.user_id@),
        !f0.friend_set().contains(a0.user_id@),
    ensures
        a2.friend_set() == a0.friend_set(),
        f2.friend_set() == f0.friend_set(),
{
    assert(a2.friend_set() =~= a0.friend_set());
    assert(f2.friend_set() =~= f0.friend_set());
}

/// Friendship is mutual: when two different players are each other's friends or not
/// alike, they stay so whichever of them befriends or unfriends the other.
pub proof fn lemma_friendship_mutual(
    a0: Account,
    f0: Account,
    a1: Account,
    f1: Account,
)
    requires
        a0.user_id@ != f0.user_id@,
        a0.friend_set().contains(f0.user_id@) == f0.friend_set().contains(a0.user_id@),
        spec_befriended(a0, f0, a1, f1) || spec_unfriended(a0, f0, a1, f1)
            || spec_befriended(f0, a0, f1, a1) || spec_unfriended(f0, a0, f1, a1),
    ensures
        a1.friend_set().contains(f1.user_id@) == f1.friend_set().contains(a1.user_id@),
{
}

} // verus!

//! The players waiting for a match with a given deposit, and the checks made before a
//! match between two of them starts.
use vstd::prelude::*;
use crate::manager::GameConfig;

verus! {

/// Why a player cannot wait for a match, or a match cannot start.
#[derive(PartialEq, Eq, Structural, Clone, Copy, Debug)]
pub enum LobbyError {
    /// The player is already waiting for a match with this deposit.
    AlreadyWaiting,
    /// The player already plays a match.
    AnotherGameStarted,
    /// The opponent is not waiting for a match with this deposit.
    OpponentNotReady,
    /// The opponent waits for another deposit.
    WrongDeposit,
    /// A player cannot play against himself.
    SameAccount,
    /// The opponent waits for another player.
    WrongAccount,
}

/// What a player who comes with his team does: waits, or plays the player named.
#[derive(PartialEq, Eq, Debug)]
pub enum Arrival {
    Wait,
    Play(String),
}

/// Whether `account` plays in one of the matches under way (a match id with its two
/// players).
pub open spec fn spec_in_game(games: Seq<(u64, (String, String))>, account: Seq<char>) -> bool {
    exists|i: int| 0 <= i < games.len() && ((#[trigger] games[i]).1.0@ == account || games[i].1.1@ == account)
}

/// Whether `account_id` already plays a match.
pub fn has_game_started(games: &Vec<(u64, (String, String))>, account_id: &String) -> (r: bool)
    ensures
        r == spec_in_game(games@, account_id@),
{
    let mut i: usize = 0;
    while i < games.len()
        invariant
            i <= games.len(),
            forall|k: int| 0 <= k < i ==> (#[trigger] games@[k]).1.0@ != account_id@ && games@[k].1.1@ != account_id@,
        decreases games.len() - i,
    {
        if games[i].1.0 == *account_id || games[i].1.1 == *account_id {
            assert(games@[i as int].1.0@ == account_id@ || games@[i as int].1.1@ == account_id@);
            return true;
        }
        i = i + 1;
    }
    false
}

/// What comes of a player `account` arriving for a deposit whose waiting list is
/// `waiting`: with nobody waiting, he waits; else, unless he is waiting already, he plays
/// the first player of the list. Either way, not while he plays another match.
pub open spec fn spec_arrival(
    waiting: Seq<(String, GameConfig)>,
    games: Seq<(u64, (String, String))>,
    account: Seq<char>,
) -> Result<Arrival, LobbyError> {
    if waiting.len() == 0 {
        if spec_in_game(games, account) {
            Err(LobbyError::AnotherGameStarted)
        } else {
            Ok(Arrival::Wait)
        }
    } else if exists|i: int| 0 <= i < waiting.len() && (#[trigger] waiting[i]).0@ == account {
        Err(LobbyError::AlreadyWaiting)
    } else if spec_in_game(games, account) {
        Err(LobbyError::AnotherGameStarted)
    } else {
        Ok(Arrival::Play(waiting[0].0))
    }
}

/// Decides what a player arriving with his team does (see `spec_arrival`).
pub fn arrive(
    waiting: &Vec<(String, GameConfig)>,
    games: &Vec<(u64, (String, String))>,
    account_id: &String,
) -> (r: Result<Arrival, LobbyError>)
    ensures
        match (r, spec_arrival(waiting@, games@, account_id@)) {
            (Ok(Arrival::Play(a)), Ok(Arrival::Play(b))) => a@ == b@,
            (x, y) => x == y,
        },
{
    if waiting.len() == 0 {
        if has_game_started(games, account_id) {
            return Err(LobbyError::AnotherGameStarted);
        }
        return Ok(Arrival::Wait);
    }
    let mut i: usize = 0;
    while i < waiting.len()
        invariant
            i <= waiting.len(),
            forall|k: int| 0 <= k < i ==> (#[trigger] waiting@[k]).0@ != account_id@,
        decreases waiting.len() - i,
    {
        if waiting[i].0 == *account_id {
            assert(waiting@[i as int].0@ == account_id@);
            return Err(LobbyError::AlreadyWaiting);
        }
        i = i + 1;
    }
    if has_game_started(games, account_id) {
        return Err(LobbyError::AnotherGameStarted);
    }
    Ok(Arrival::Play(waiting[0].0.clone()))
}

/// The checks, in order, before `account` plays `opponent`, whose terms `config` sit at
/// `index` of the waiting list: the deposit, two different players, `account` in no other
/// match, and the opponent accepting `account`.
pub open spec fn spec_start_checked(
    config: GameConfig,
    index: usize,
    games: Seq<(u64, (String, String))>,
    opponent: Seq<char>,
    deposit: u128,
    account: Seq<char>,
) -> Result<usize, LobbyError> {
    if (match config.deposit { Some(d) => d, None => 0 }) != deposit {
        Err(LobbyError::WrongDeposit)
    } else if account == opponent {
        Err(LobbyError::SameAccount)
    } else if spec_in_game(games, account) {
        Err(LobbyError::AnotherGameStarted)
    } else if config.opponent_id matches Some(p) && p@ != account {
        Err(LobbyError::WrongAccount)
    } else {
        Ok(index)
    }
}

/// Where the terms of `opponent_id` sit in the waiting list for `deposit`, once the match
/// of `account_id` against him may start: refused when he does not wait, and otherwise as
/// `spec_start_checked` says, on his first entry.
pub fn check_start(
    waiting: &Vec<(String, GameConfig)>,
    games: &Vec<(u64, (String, String))>,
    opponent_id: &String,
    deposit: u128,
    account_id: &String,
) -> (r: Result<usize, LobbyError>)
    ensures
        !(exists|i: int| 0 <= i < waiting.len() && (#[trigger] waiting@[i]).0@ == opponent_id@)
            ==> r == Err::<usize, LobbyError>(LobbyError::OpponentNotReady),
        forall|i: int| 0 <= i < waiting.len() && (#[trigger] waiting@[i]).0@ == opponent_id@
            && (forall|j: int| 0 <= j < i ==> (#[trigger] waiting@[j]).0@ != opponent_id@)
            ==> r == spec_start_checked(waiting@[i].1, i as usize, games@, opponent_id@, deposit, account_id@),
{
    let mut i: usize = 0;
    while i < waiting.len()
        invariant
            i <= waiting.len(),
            forall|k: int| 0 <= k < i ==> (#[trigger] waiting@[k]).0@ != opponent_id@,
        decreases waiting.len() - i,
    {
        if waiting[i].0 == *opponent_id {
            let config = &waiting[i].1;
            let d: u128 = match config.deposit {
                Some(d) => d,
                None => 0,
            };
            let r = if d != deposit {
                Err(LobbyError::WrongDeposit)
            } else if *account_id == *opponent_id {
                Err(LobbyError::SameAccount)
            } else if has_game_started(games, account_id) {
                Err(LobbyError::AnotherGameStarted)
            } else {
                match &config.opponent_id {
                    Some(p) => {
                        if *p != *account_id {
                            Err(LobbyError::WrongAccount)
                        } else {
                            Ok(i)
                        }
                    },
                    None => Ok(i),
                }
            };
            proof {
                assert forall|k: int| 0 <= k < waiting.len() && (#[trigger] waiting@[k]).0@ == opponent_id@
                    && (forall|j: int| 0 <= j < k ==> (#[trigger] waiting@[j]).0@ != opponent_id@)
                    implies k == i by {
                    if k < i {
                    } else if k > i {
                        assert(waiting@[i as int].0@ == opponent_id@);
                    }
                }
            }
            return r;
        }
        i = i + 1;
    }
    Err(LobbyError::OpponentNotReady)
}

} // verus!

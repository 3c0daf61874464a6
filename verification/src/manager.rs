use vstd::prelude::*;
use crate::ids::{insert_id, spec_id_set, spec_unique_ids};

verus! {

/// An amount of a token; no token id stands for NEAR.
pub struct TokenBalance {
    pub token_id: Option<String>,
    pub balance: u128,
}

/// What a player waiting for a match asks: the deposit, and the one opponent he accepts
/// (anyone when none).
pub struct GameConfig {
    pub deposit: Option<u128>,
    pub opponent_id: Option<String>,
}

/// A waiting player's terms as shown to others: no deposit shows as zero.
pub struct GameConfigOutput {
    pub deposit: u128,
    pub opponent_id: Option<String>,
}

impl GameConfigOutput {
    /// The terms as shown.
    pub fn from_config(config: GameConfig) -> (o: GameConfigOutput)
        ensures
            o.deposit == match config.deposit { Some(d) => d, None => 0 },
            o.opponent_id == config.opponent_id,
    {
        GameConfigOutput {
            deposit: match config.deposit { Some(d) => d, None => 0 },
            opponent_id: config.opponent_id,
        }
    }
}

/// The events that a player's record counts.
#[derive(PartialEq, Eq, Structural, Clone, Copy, Debug)]
pub enum UpdateStatsAction {
    AddPlayedGame,
    AddReferral,
    AddAffiliate,
    AddWonGame,
    AddTotalReward,
    AddAffiliateReward,
    AddPenaltyGame,
}

/// A player's record: who brought him, whom he brought, his matches, wins and penalty
/// games, and the rewards he won himself and through those he brought (in NEAR).
pub struct Stats {
    pub referrer_id: Option<String>,
    pub affiliates: Vec<String>,
    pub games_num: u64,
    pub victories_num: u64,
    pub penalties_num: u64,
    pub total_reward: u128,
    pub total_affiliate_reward: u128,
}

impl Stats {
    /// Whether the record lists no affiliate twice.
    pub open spec fn wf(self) -> bool {
        spec_unique_ids(self.affiliates@)
    }

    /// The affiliates of the record.
    pub open spec fn affiliate_set(self) -> Set<Seq<char>> {
        spec_id_set(self.affiliates@)
    }

    /// Whether the record can count `action` without overflowing.
    pub open spec fn update_fits(self, action: UpdateStatsAction, balance: Option<u128>) -> bool {
        match action {
            UpdateStatsAction::AddPlayedGame => self.games_num < u64::MAX,
            UpdateStatsAction::AddWonGame => self.victories_num < u64::MAX,
            UpdateStatsAction::AddPenaltyGame => self.penalties_num < u64::MAX,
            UpdateStatsAction::AddTotalReward => balance matches Some(b) ==> self.total_reward + b <= u128::MAX,
            UpdateStatsAction::AddAffiliateReward =>
                balance matches Some(b) ==> self.total_affiliate_reward + b <= u128::MAX,
            _ => true,
        }
    }

    /// The record once it counts `action`, taken as sets: a played, won or penalty game
    /// adds one to its count; a referral sets the referrer and an affiliate joins the
    /// affiliates, when given; a reward adds to its total, when given.
    pub open spec fn spec_updated(
        self,
        after: Stats,
        action: UpdateStatsAction,
        additional_account_id: Option<String>,
        balance: Option<u128>,
    ) -> bool {
        &&& after.wf()
        &&& after.games_num == self.games_num + if action == UpdateStatsAction::AddPlayedGame { 1int } else { 0 }
        &&& after.victories_num == self.victories_num + if action == UpdateStatsAction::AddWonGame { 1int } else { 0 }
        &&& after.penalties_num == self.penalties_num + if action == UpdateStatsAction::AddPenaltyGame { 1int } else { 0 }
        &&& after.referrer_id == (if action == UpdateStatsAction::AddReferral && additional_account_id is Some {
            additional_account_id
        } else {
            self.referrer_id
        })
        &&& after.affiliate_set() == (match (action, additional_account_id) {
            (UpdateStatsAction::AddAffiliate, Some(id)) => self.affiliate_set().insert(id@),
            _ => self.affiliate_set(),
        })
        &&& after.total_reward == self.total_reward + match (action, balance) {
            (UpdateStatsAction::AddTotalReward, Some(b)) => b as int,
            _ => 0int,
        }
        &&& after.total_affiliate_reward == self.total_affiliate_reward + match (action, balance) {
            (UpdateStatsAction::AddAffiliateReward, Some(b)) => b as int,
            _ => 0int,
        }
    }

    /// The record of a player who has played no match yet.
    pub fn new() -> (s: Stats)
        ensures
            s.wf(),
            s.referrer_id is None,
            s.affiliate_set() == Set::<Seq<char>>::empty(),
            s.games_num == 0 && s.victories_num == 0 && s.penalties_num == 0,
            s.total_reward == 0 && s.total_affiliate_reward == 0,
    {
        let s = Stats {
            referrer_id: None,
            affiliates: Vec::new(),
            games_num: 0,
            victories_num: 0,
            penalties_num: 0,
            total_reward: 0,
            total_affiliate_reward: 0,
        };
        assert(s.affiliate_set() =~= Set::<Seq<char>>::empty());
        s
    }

    /// Counts `action` in the record (see `spec_updated`).
    pub fn update(&mut self, action: UpdateStatsAction, additional_account_id: Option<String>, balance: Option<u128>)
        requires
            old(self).wf(),
            old(self).update_fits(action, balance),
        ensures
            old(self).spec_updated(*final(self), action, additional_account_id, balance),
    {
        match action {
            UpdateStatsAction::AddPlayedGame => {
                self.games_num = self.games_num + 1;
            },
            UpdateStatsAction::AddReferral => {
                if additional_account_id.is_some() {
                    self.referrer_id = additional_account_id;
                }
            },
            UpdateStatsAction::AddAffiliate => {
                match additional_account_id {
                    Some(id) => insert_id(&mut self.affiliates, id),
                    None => {},
                }
            },
            UpdateStatsAction::AddWonGame => {
                self.victories_num = self.victories_num + 1;
            },
            UpdateStatsAction::AddTotalReward => {
                match balance {
                    Some(b) => self.total_reward = self.total_reward + b,
                    None => {},
                }
            },
            UpdateStatsAction::AddAffiliateReward => {
                match balance {
                    Some(b) => self.total_affiliate_reward = self.total_affiliate_reward + b,
                    None => {},
                }
            },
            UpdateStatsAction::AddPenaltyGame => {
                self.penalties_num = self.penalties_num + 1;
            },
        }
    }
}

/// How a match's reward is shared: a tenth is the fee, the winner gets the rest; half the
/// fee goes to the winner's referrer, if he has one, and the service keeps what is left.
pub struct RewardSplit {
    pub winner_reward: u128,
    pub referrer_fee: u128,
    pub service_fee: u128,
}

/// The fee of a reward: a tenth, rounded down.
pub open spec fn spec_fee(amount: u128) -> int {
    amount as int / 10
}

/// The shares of `amount` when the winner has a referrer or not.
pub open spec fn spec_split(amount: u128, has_referrer: bool) -> (int, int, int) {
    let fee = spec_fee(amount);
    let referrer_fee = if has_referrer { fee / 2 } else { 0 };
    (amount - fee, referrer_fee, fee - referrer_fee)
}

/// Shares `amount` between the winner, his referrer and the service.
pub fn split_reward(amount: u128, has_referrer: bool) -> (r: RewardSplit)
    ensures
        (r.winner_reward as int, r.referrer_fee as int, r.service_fee as int) == spec_split(amount, has_referrer),
{
    let fee = amount / 10;
    let winner_reward = amount - fee;
    let referrer_fee = if has_referrer { fee / 2 } else { 0 };
    RewardSplit { winner_reward, referrer_fee, service_fee: fee - referrer_fee }
}

/// No part of a reward is lost or made up: the three shares add up to the reward, and the
/// winner gets at least nine tenths of it.
pub proof fn lemma_reward_conserved(amount: u128, has_referrer: bool)
    ensures
        spec_split(amount, has_referrer).0 + spec_split(amount, has_referrer).1
            + spec_split(amount, has_referrer).2 == amount,
        10 * spec_split(amount, has_referrer).0 >= 9 * amount,
        spec_split(amount, has_referrer).1 >= 0,
        spec_split(amount, has_referrer).2 >= 0,
{
}

/// Whether `c` is JSON whitespace: a space, a line feed, a tab or a carriage return.
pub open spec fn spec_json_space(c: char) -> bool {
    c == ' ' || c == '\n' || c == '\t' || c == '\r'
}

/// Whether `c` is a decimal digit.
pub open spec fn spec_decimal_digit(c: char) -> bool {
    48 <= (c as int) <= 57
}

/// The value of the decimal digits `d`.
pub open spec fn spec_decimal(d: Seq<char>) -> int
    decreases d.len(),
{
    if d.len() == 0 {
        0
    } else {
        10 * spec_decimal(d.drop_last()) + ((d.last() as int) - 48)
    }
}

/// Whether `text` is the digits `text[i..j]` with nothing but JSON whitespace around them,
/// no leading zero unless the number is 0 itself, and a value that fits in a `u128`.
pub open spec fn spec_amount_at(text: Seq<char>, i: int, j: int) -> bool {
    &&& 0 <= i < j <= text.len()
    &&& forall|k: int| 0 <= k < i ==> spec_json_space(#[trigger] text[k])
    &&& forall|k: int| i <= k < j ==> spec_decimal_digit(#[trigger] text[k])
    &&& forall|k: int| j <= k < text.len() ==> spec_json_space(#[trigger] text[k])
    &&& (text[i] == '0' ==> j == i + 1)
    &&& spec_decimal(text.subrange(i, j)) <= u128::MAX
}

/// The amount that the JSON text `text` holds: the value of its digits when it is one
/// unsigned decimal number that fits in a `u128` (see `spec_amount_at`), none otherwise.
pub open spec fn spec_json_amount(text: Seq<char>) -> Option<u128> {
    if exists|i: int, j: int| spec_amount_at(text, i, j) {
        let (i, j) = choose|i: int, j: int| spec_amount_at(text, i, j);
        Some(spec_decimal(text.subrange(i, j)) as u128)
    } else {
        None
    }
}

/// Reads the JSON number `bid` with `serde_json::from_str::<u128>`. Its source skips
/// whitespace, refuses a minus sign, reads one digit `0` or a run of digits that starts
/// with another, refuses a value above `u128::MAX` and anything but whitespace after it;
/// the contract says so (see `spec_json_amount`).
#[verifier::external_body]
fn parse_deposit(bid: &String) -> (r: Option<u128>)
    ensures
        r == spec_json_amount(bid@),
{
    serde_json::from_str::<u128>(bid.as_str()).ok()
}

/// Why a bid was refused.
#[derive(PartialEq, Eq, Structural, Clone, Copy, Debug)]
pub enum BidError {
    WrongDeposit,
}

/// The deposit named by a bid read as JSON text.
pub fn deposit_of_bid(parsed: Option<u128>) -> (r: Result<u128, BidError>)
    ensures
        r == match parsed {
            Some(d) => Ok::<u128, BidError>(d),
            None => Err(BidError::WrongDeposit),
        },
{
    match parsed {
        Some(d) => Ok(d),
        None => Err(BidError::WrongDeposit),
    }
}

/// The deposit that a player withdrawing from the waiting list names in `bid`.
pub fn parse_bid(bid: &String) -> (r: Result<u128, BidError>)
    ensures
        r == match spec_json_amount(bid@) {
            Some(d) => Ok::<u128, BidError>(d),
            None => Err(BidError::WrongDeposit),
        },
{
    deposit_of_bid(parse_deposit(bid))
}

} // verus!

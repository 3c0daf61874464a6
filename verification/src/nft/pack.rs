use vstd::prelude::*;
use crate::game::utils::spec_random_in_range;
use crate::game::player::PlayerType;
use crate::nft::rarity::Rarity;

verus! {

/// The packs of cards on sale, from the cheapest.
#[derive(PartialEq, Eq, Structural, Clone, Copy, Debug)]
pub enum Pack {
    Bronze,
    Silver,
    Gold,
    Platinum,
    Brilliant,
}

/// The number of cards that a new player gets.
pub const NUMBER_OF_STARTER_CARDS: usize = 6;
/// Out of 100, the draws below which a card shows a field player.
pub const FIELD_PLAYER_PROBABILITY: u8 = 80;

/// The rarities by rank, from the most common.
pub open spec fn spec_rarity_at(index: int) -> Rarity {
    if index == 0 {
        Rarity::Common
    } else if index == 1 {
        Rarity::Uncommon
    } else if index == 2 {
        Rarity::Rare
    } else if index == 3 {
        Rarity::Unique
    } else {
        Rarity::Exclusive
    }
}

/// The rarity of rank `index`, from the most common.
pub fn get_rarity_by_index(index: usize) -> (r: Rarity)
    requires
        index < 5,
    ensures
        r == spec_rarity_at(index as int),
{
    if index == 0 {
        Rarity::Common
    } else if index == 1 {
        Rarity::Uncommon
    } else if index == 2 {
        Rarity::Rare
    } else if index == 3 {
        Rarity::Unique
    } else {
        Rarity::Exclusive
    }
}

/// The chances, in percent, of each rarity (from the most common) in a card of `pack`.
pub open spec fn spec_pack_probabilities(pack: Pack) -> Seq<u8> {
    match pack {
        Pack::Bronze => seq![80u8, 20, 0, 0, 0],
        Pack::Silver => seq![50u8, 45, 5, 0, 0],
        Pack::Gold => seq![30u8, 40, 25, 5, 0],
        Pack::Platinum => seq![10u8, 30, 30, 20, 10],
        Pack::Brilliant => seq![0u8, 15, 30, 35, 20],
    }
}

/// The chances of each rarity in a card of `pack`.
pub fn get_pack_probabilities(pack: Pack) -> (r: Vec<u8>)
    ensures
        r@ == spec_pack_probabilities(pack),
{
    let r: Vec<u8> = match pack {
        Pack::Bronze => vec![80, 20, 0, 0, 0],
        Pack::Silver => vec![50, 45, 5, 0, 0],
        Pack::Gold => vec![30, 40, 25, 5, 0],
        Pack::Platinum => vec![10, 30, 30, 20, 10],
        Pack::Brilliant => vec![0, 15, 30, 35, 20],
    };
    assert(r@ =~= spec_pack_probabilities(pack));
    r
}

/// The sum of `s`.
pub open spec fn spec_sum(s: Seq<u8>) -> int
    decreases s.len(),
{
    if s.len() == 0 {
        0
    } else {
        spec_sum(s.drop_last()) + s.last()
    }
}

/// Every pack has five rarities whose chances add up to a hundred percent.
pub proof fn lemma_pack_probabilities_sum(pack: Pack)
    ensures
        spec_pack_probabilities(pack).len() == 5,
        spec_sum(spec_pack_probabilities(pack)) == 100,
{
    let s = spec_pack_probabilities(pack);
    assert(s.drop_last().drop_last().drop_last().drop_last().drop_last().len() == 0);
    reveal_with_fuel(spec_sum, 6);
}

/// The rank that the draw `rnd` picks from the chances `probabilities`, going down from
/// `percent` at rank `i`: the first rank whose chances bring the rest down to `rnd` or
/// below. None when the chances run out first, or go below zero.
pub open spec fn spec_pick(probabilities: Seq<u8>, rnd: u8, i: int, percent: int) -> Option<int>
    decreases probabilities.len() - i,
{
    if i < 0 || i >= probabilities.len() {
        None
    } else if percent < probabilities[i] {
        None
    } else if rnd >= percent - probabilities[i] {
        Some(i)
    } else {
        spec_pick(probabilities, rnd, i + 1, percent - probabilities[i])
    }
}

/// Whether the draw `rnd` picks a rarity from `probabilities`.
pub open spec fn spec_rarity_defined(probabilities: Seq<u8>, rnd: u8) -> bool {
    spec_pick(probabilities, rnd, 0, 100) matches Some(k) && k < 5
}

/// The rarity that the draw `rnd` picks from `probabilities`.
pub open spec fn spec_random_rarity(probabilities: Seq<u8>, rnd: u8) -> Rarity {
    spec_rarity_at(spec_pick(probabilities, rnd, 0, 100)->0)
}

/// The rarity that the draw `rnd`, out of 100, picks from the chances `probabilities`.
pub fn get_random_rarity(probabilities: &Vec<u8>, rnd: u8) -> (r: Rarity)
    requires
        spec_rarity_defined(probabilities@, rnd),
    ensures
        r == spec_random_rarity(probabilities@, rnd),
{
    let mut percent: u8 = 100;
    let mut i: usize = 0;
    while i < probabilities.len()
        invariant
            i <= probabilities.len(),
            spec_pick(probabilities@, rnd, i as int, percent as int) == spec_pick(probabilities@, rnd, 0, 100),
            spec_rarity_defined(probabilities@, rnd),
        decreases probabilities.len() - i,
    {
        percent = percent - probabilities[i];
        if rnd >= percent {
            return get_rarity_by_index(i);
        }
        i = i + 1;
    }
    proof {
        assert(spec_pick(probabilities@, rnd, i as int, percent as int) is None);
    }
    Rarity::Common
}

/// Every pack gives a rarity for every draw.
pub proof fn lemma_pack_rarity_defined(pack: Pack, rnd: u8)
    ensures
        spec_rarity_defined(spec_pack_probabilities(pack), rnd),
{
    reveal_with_fuel(spec_pick, 6);
}

/// The chances, in percent, of a card of `pack` being of rank `k` or rarer.
pub open spec fn spec_chance_at_least(pack: Pack, k: int) -> int
    decreases 5 - k,
{
    if k < 0 || k >= 5 {
        0
    } else {
        spec_pack_probabilities(pack)[k] + spec_chance_at_least(pack, k + 1)
    }
}

/// The chances, in percent, of a card of `pack` being of a rank below `k`.
pub open spec fn spec_chance_below(pack: Pack, k: int) -> int
    decreases k,
{
    if k <= 0 || k > 5 {
        0
    } else {
        spec_chance_below(pack, k - 1) + spec_pack_probabilities(pack)[k - 1]
    }
}

/// A dearer pack gives a card of any rarity or a rarer one at least as often as a cheaper
/// pack: Bronze, Silver, Gold, Platinum and Brilliant, in that order.
pub proof fn lemma_dearer_pack_gives_rarer_cards(k: int)
    requires
        0 <= k < 5,
    ensures
        spec_chance_at_least(Pack::Bronze, k) <= spec_chance_at_least(Pack::Silver, k),
        spec_chance_at_least(Pack::Silver, k) <= spec_chance_at_least(Pack::Gold, k),
        spec_chance_at_least(Pack::Gold, k) <= spec_chance_at_least(Pack::Platinum, k),
        spec_chance_at_least(Pack::Platinum, k) <= spec_chance_at_least(Pack::Brilliant, k),
        0 < k ==> spec_chance_at_least(Pack::Bronze, k) < spec_chance_at_least(Pack::Platinum, k),
        0 < k ==> spec_chance_at_least(Pack::Gold, k) < spec_chance_at_least(Pack::Brilliant, k),
{
    reveal_with_fuel(spec_chance_at_least, 6);
}

/// The chances of a pack rise to a peak and then fall: no rarity is less likely than both
/// a commoner and a rarer one.
pub proof fn lemma_pack_chances_single_peak(pack: Pack, i: int, j: int, k: int)
    requires
        0 <= i < j < k < 5,
    ensures
        !(spec_pack_probabilities(pack)[i] > spec_pack_probabilities(pack)[j]
            && spec_pack_probabilities(pack)[j] < spec_pack_probabilities(pack)[k]),
{
}

/// Which rarities a pack can give: every pack an uncommon card; every pack but the
/// Brilliant a common one; every pack but the Bronze a rare one; the Gold and dearer packs
/// a unique one; only the Platinum and the Brilliant an exclusive one. The Platinum is the
/// only pack that can give all five.
pub proof fn lemma_pack_rarities_available(pack: Pack)
    ensures
        spec_pack_probabilities(pack)[1] > 0,
        spec_pack_probabilities(pack)[0] > 0 <==> pack != Pack::Brilliant,
        spec_pack_probabilities(pack)[2] > 0 <==> pack != Pack::Bronze,
        spec_pack_probabilities(pack)[3] > 0 <==> (pack == Pack::Gold || pack == Pack::Platinum || pack == Pack::Brilliant),
        spec_pack_probabilities(pack)[4] > 0 <==> (pack == Pack::Platinum || pack == Pack::Brilliant),
{
}

/// The chances of each pack by rarity, from the most common: Bronze 80/20/0/0/0, Silver
/// 50/45/5/0/0, Gold 30/40/25/5/0, Platinum 10/30/30/20/10, Brilliant 0/15/30/35/20.
pub proof fn lemma_pack_chances(pack: Pack)
    ensures
        pack == Pack::Bronze ==> spec_pack_probabilities(pack) == seq![80u8, 20, 0, 0, 0],
        pack == Pack::Silver ==> spec_pack_probabilities(pack) == seq![50u8, 45, 5, 0, 0],
        pack == Pack::Gold ==> spec_pack_probabilities(pack) == seq![30u8, 40, 25, 5, 0],
        pack == Pack::Platinum ==> spec_pack_probabilities(pack) == seq![10u8, 30, 30, 20, 10],
        pack == Pack::Brilliant ==> spec_pack_probabilities(pack) == seq![0u8, 15, 30, 35, 20],
{
}

/// A card of a pack is of the rarity of rank `k` exactly for the draws (out of 100) from
/// 100 less the chances of rank `k` and the commoner ranks, up to 100 less the chances of
/// the commoner ranks: the commonest rarity takes the highest draws.
pub proof fn lemma_draw_picks_rarity(pack: Pack, rnd: u8, k: int)
    requires
        0 <= k < 5,
        100 - spec_chance_below(pack, k + 1) <= rnd < 100 - spec_chance_below(pack, k),
    ensures
        spec_random_rarity(spec_pack_probabilities(pack), rnd) == spec_rarity_at(k),
{
    reveal_with_fuel(spec_chance_below, 6);
    reveal_with_fuel(spec_pick, 6);
}

/// Whether a card drawn with `rnd` out of 100 shows a goalie or a field player.
pub open spec fn spec_player_type(rnd: u8) -> PlayerType {
    if rnd >= FIELD_PLAYER_PROBABILITY { PlayerType::Goalie } else { PlayerType::FieldPlayer }
}

/// Whether a card drawn with `rnd` out of 100 shows a goalie or a field player.
pub fn get_random_player_type(rnd: u8) -> (r: PlayerType)
    ensures
        r == spec_player_type(rnd),
{
    if rnd >= FIELD_PLAYER_PROBABILITY { PlayerType::Goalie } else { PlayerType::FieldPlayer }
}

/// The draw, from 1 to 99, of card `i`, from byte `i` of the seed.
pub open spec fn spec_card_draw(seed: Seq<u8>, i: int) -> u8 {
    spec_random_in_range(seed[i], 1, 100) as u8
}

/// The draw, from 1 to 99, of card `index`, from byte `index` of the seed.
pub fn get_random_in_range(seed: &Vec<u8>, index: usize) -> (r: u8)
    requires
        index < seed.len(),
    ensures
        r == spec_card_draw(seed@, index as int),
        1 <= r < 100,
{
    let n = crate::game::utils::get_random_in_range(seed, 1, 100, index);
    n as u8
}

/// The cards of a new player: a goalie, then five field players, each of a rarity drawn
/// from the chances of a silver pack.
pub open spec fn spec_starter_cards(seed: Seq<u8>) -> Seq<(PlayerType, Rarity)> {
    Seq::new(NUMBER_OF_STARTER_CARDS as nat, |i: int| (
        if i == 0 { PlayerType::Goalie } else { PlayerType::FieldPlayer },
        spec_random_rarity(spec_pack_probabilities(Pack::Silver), spec_card_draw(seed, i)),
    ))
}

/// Draws the cards of a new player from the block's random seed.
pub fn draw_starter_cards(seed: &Vec<u8>) -> (cards: Vec<(PlayerType, Rarity)>)
    requires
        seed.len() >= NUMBER_OF_STARTER_CARDS,
    ensures
        cards@ == spec_starter_cards(seed@),
{
    let mut cards: Vec<(PlayerType, Rarity)> = Vec::new();
    let mut i: usize = 0;
    while i < NUMBER_OF_STARTER_CARDS
        invariant
            i <= NUMBER_OF_STARTER_CARDS,
            seed.len() >= NUMBER_OF_STARTER_CARDS,
            cards@ == spec_starter_cards(seed@).take(i as int),
        decreases NUMBER_OF_STARTER_CARDS - i,
    {
        let player_type = if i == 0 { PlayerType::Goalie } else { PlayerType::FieldPlayer };
        let rnd = get_random_in_range(seed, i);
        let probabilities = get_pack_probabilities(Pack::Silver);
        proof { lemma_pack_rarity_defined(Pack::Silver, rnd); }
        let rarity = get_random_rarity(&probabilities, rnd);
        cards.push((player_type, rarity));
        assert(cards@ =~= spec_starter_cards(seed@).take(i + 1));
        i = i + 1;
    }
    cards
}

/// The number of cards in a pack.
pub const NUMBER_OF_CARDS_IN_PACK: usize = 3;

/// The cards of a pack: card `i` is drawn with byte `i` of the seed, its rarity from the
/// chances of the pack and its kind from the same draw.
pub open spec fn spec_pack_cards(seed: Seq<u8>, pack: Pack) -> Seq<(PlayerType, Rarity)> {
    Seq::new(NUMBER_OF_CARDS_IN_PACK as nat, |i: int| (
        spec_player_type(spec_card_draw(seed, i)),
        spec_random_rarity(spec_pack_probabilities(pack), spec_card_draw(seed, i)),
    ))
}

/// Draws the cards of a pack from the block's random seed.
pub fn draw_pack_cards(seed: &Vec<u8>, pack: Pack) -> (cards: Vec<(PlayerType, Rarity)>)
    requires
        seed.len() >= NUMBER_OF_CARDS_IN_PACK,
    ensures
        cards@ == spec_pack_cards(seed@, pack),
{
    let mut cards: Vec<(PlayerType, Rarity)> = Vec::new();
    let mut i: usize = 0;
    while i < NUMBER_OF_CARDS_IN_PACK
        invariant
            i <= NUMBER_OF_CARDS_IN_PACK,
            seed.len() >= NUMBER_OF_CARDS_IN_PACK,
            cards@ == spec_pack_cards(seed@, pack).take(i as int),
        decreases NUMBER_OF_CARDS_IN_PACK - i,
    {
        let probabilities = get_pack_probabilities(pack);
        let rnd = get_random_in_range(seed, i);
        proof { lemma_pack_rarity_defined(pack, rnd); }
        let rarity = get_random_rarity(&probabilities, rnd);
        let player_type = get_random_player_type(rnd);
        cards.push((player_type, rarity));
        assert(cards@ =~= spec_pack_cards(seed@, pack).take(i + 1));
        i = i + 1;
    }
    cards
}

/// The most that the royalties a minter sets may add up to, in hundredths of a percent.
pub const MINTER_ROYALTY_CAP: u32 = 2000;

/// Why royalties were refused.
#[derive(PartialEq, Eq, Structural, Clone, Copy, Debug)]
pub enum RoyaltyError {
    /// More than six accounts.
    TooManyRoyalties,
    /// The amounts add up to more than 20%.
    RoyaltiesAboveCap,
}

/// The sum of the amounts of `royalties`.
pub open spec fn spec_royalty_sum(royalties: Seq<(String, u32)>) -> int
    decreases royalties.len(),
{
    if royalties.len() == 0 {
        0
    } else {
        spec_royalty_sum(royalties.drop_last()) + royalties.last().1
    }
}

/// Whether the royalties of a card can be set: at most six accounts, adding up to at most
/// 20%.
pub fn check_royalties(royalties: &Vec<(String, u32)>) -> (r: Result<(), RoyaltyError>)
    requires
        royalties.len() < 7 ==> spec_royalty_sum(royalties@) <= u32::MAX,
    ensures
        royalties.len() >= 7 ==> r == Err::<(), RoyaltyError>(RoyaltyError::TooManyRoyalties),
        royalties.len() < 7 && spec_royalty_sum(royalties@) > MINTER_ROYALTY_CAP ==>
            r == Err::<(), RoyaltyError>(RoyaltyError::RoyaltiesAboveCap),
        royalties.len() < 7 && spec_royalty_sum(royalties@) <= MINTER_ROYALTY_CAP ==> r is Ok,
{
    if royalties.len() >= 7 {
        return Err(RoyaltyError::TooManyRoyalties);
    }
    let mut total: u64 = 0;
    let mut i: usize = 0;
    while i < royalties.len()
        invariant
            i <= royalties.len(),
            royalties.len() < 7,
            total == spec_royalty_sum(royalties@.take(i as int)),
            total <= 6 * 0xFFFF_FFFFu64,
            total <= i * 0xFFFF_FFFFu64,
        decreases royalties.len() - i,
    {
        assert(royalties@.take(i + 1).drop_last() =~= royalties@.take(i as int));
        total = total + royalties[i].1 as u64;
        i = i + 1;
    }
    assert(royalties@.take(royalties.len() as int) =~= royalties@);
    if total > MINTER_ROYALTY_CAP as u64 {
        Err(RoyaltyError::RoyaltiesAboveCap)
    } else {
        Ok(())
    }
}

} // verus!

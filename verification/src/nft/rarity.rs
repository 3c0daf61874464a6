use vstd::prelude::*;

verus! {

/// How rare a card is.
#[derive(PartialEq, Eq, Structural, Clone, Copy, Debug)]
pub enum Rarity {
    Common,
    Uncommon,
    Rare,
    Unique,
    Exclusive,
}

/// The rarity of an average rating `sum / count`: exclusive from 95, unique from 85, rare
/// from 75, uncommon from 60, common below.
pub open spec fn spec_rarity(sum: int, count: int) -> Rarity {
    if sum >= 95 * count {
        Rarity::Exclusive
    } else if sum >= 85 * count {
        Rarity::Unique
    } else if sum >= 75 * count {
        Rarity::Rare
    } else if sum >= 60 * count {
        Rarity::Uncommon
    } else {
        Rarity::Common
    }
}

/// The rarity of the average rating `sum / count`.
pub fn calculate_rarity(sum: u16, count: u16) -> (r: Rarity)
    requires
        count > 0,
    ensures
        r == spec_rarity(sum as int, count as int),
{
    let total: u32 = sum as u32;
    let n: u32 = count as u32;
    if total >= 95 * n {
        Rarity::Exclusive
    } else if total >= 85 * n {
        Rarity::Unique
    } else if total >= 75 * n {
        Rarity::Rare
    } else if total >= 60 * n {
        Rarity::Uncommon
    } else {
        Rarity::Common
    }
}

} // verus!

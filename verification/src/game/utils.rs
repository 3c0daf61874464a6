use vstd::prelude::*;
use crate::game::field_player::FieldPlayer;

verus! {

/// The number that `get_random_in_range` draws from the seed byte `random`: the byte read
/// as a fraction of 256 and scaled onto `min..max`.
pub open spec fn spec_random_in_range(random: u8, min: int, max: int) -> int {
    min + (random as int) * (max - min) / 256
}

/// A number in `min..max` (exactly `min` when the range is empty) taken from byte `index`
/// of the block's random seed.
pub fn get_random_in_range(seed: &Vec<u8>, min: usize, max: usize, index: usize) -> (r: usize)
    requires
        index < seed.len(),
        min <= max,
        max <= 0xFFFF_FFFF,
    ensures
        r == spec_random_in_range(seed@[index as int], min as int, max as int),
        min <= r,
        min < max ==> r < max,
        min == max ==> r == min,
{
    let random: u64 = seed[index] as u64;
    let width: u64 = (max - min) as u64;
    proof {
        assert(random * width <= 255 * width) by (nonlinear_arith)
            requires random <= 255;
        assert(random * width / 256 < width || width == 0) by (nonlinear_arith)
            requires random <= 255;
    }
    let offset: u64 = random * width / 256;
    min + offset as usize
}

/// The outcome of a duel between the ratings `stat` and `opponents_stat` (in thousandths)
/// for the drawn number `random_number`: the stronger side wins when the number is above
/// the weaker rating, the weaker side when it is at most its own rating.
pub open spec fn spec_has_won(stat: int, opponents_stat: int, random_number: int) -> bool {
    if stat > opponents_stat {
        random_number * 1000 > opponents_stat
    } else {
        random_number * 1000 <= stat
    }
}

/// The number `has_won` draws: from 1 up to the rounded sum of both ratings (in whole points).
pub open spec fn spec_duel_draw(seed: Seq<u8>, stat: int, opponents_stat: int) -> int {
    spec_random_in_range(seed[19], 1, (stat + opponents_stat + 500) / 1000 + 1)
}

/// Whether the side rated `stat` beats the side rated `opponents_stat` (both in
/// thousandths), with a number drawn from byte 19 of the seed.
pub fn has_won(seed: &Vec<u8>, stat: u64, opponents_stat: u64) -> (won: bool)
    requires
        seed.len() > 19,
        stat <= 4_000_000_000,
        opponents_stat <= 4_000_000_000,
    ensures
        won == spec_has_won(stat as int, opponents_stat as int, spec_duel_draw(seed@, stat as int, opponents_stat as int)),
{
    let sum: u64 = stat + opponents_stat;
    let rounded: usize = ((sum + 500) / 1000) as usize;
    let random_number: usize = get_random_in_range(seed, 1, rounded + 1, 19);
    let drawn: u64 = random_number as u64 * 1000;
    if stat > opponents_stat {
        drawn > opponents_stat
    } else {
        drawn <= stat
    }
}

/// The rating of a player in a duel, in thousandths: the average of the compared rating
/// (in thousandths), his morale and his average strength, times his teamwork factor.
pub open spec fn spec_relative_stat(player: FieldPlayer, compared_stat: int) -> int {
    (compared_stat + player.stats.morale * 1000 + player.stats.spec_strength() * 200) / 3
        * (player.teamwork->0 as int) / 10000
}

/// The rating of a player in a duel on the compared rating `compared_stat` (in thousandths).
pub fn get_relative_field_player_stat(player: &FieldPlayer, compared_stat: u64) -> (r: u64)
    requires
        player.teamwork matches Some(t) && t <= 100_000,
        compared_stat <= 1_000_000,
    ensures
        r == spec_relative_stat(*player, compared_stat as int),
        r <= 1_000_000_000,
{
    let stat_avg: u64 = (compared_stat + player.stats.morale as u64 * 1000 + player.stats.get_strength() as u64 * 200) / 3;
    let teamwork: u64 = match player.teamwork {
        Some(t) => t as u64,
        None => 0,
    };
    proof {
        assert(stat_avg <= 1_000_000);
        assert(stat_avg * teamwork <= 1_000_000 * 100_000) by (nonlinear_arith)
            requires stat_avg <= 1_000_000, teamwork <= 100_000;
    }
    stat_avg * teamwork / 10000
}

} // verus!

use vstd::prelude::*;
use crate::game::field_player::FieldPlayer;
use crate::game::five::{ActiveFive, FiveIds};
use crate::game::lineup::{Lineup, lemma_lineup_ext, lemma_with_slot};
use crate::game::numbers::FiveNumber;
use crate::game::player::PlayerPosition;
use crate::game::team::{
    Team, contains_id, find_five, lemma_first_five_unique, spec_first_five, spec_five, spec_five_index,
    spec_has_five, spec_has_player, spec_ids, spec_player,
};

verus! {

/// The token ids of the units `numbers`, unit after unit, each in visiting order.
pub open spec fn spec_players_in_fives(fives: Seq<FiveIds>, numbers: Seq<FiveNumber>) -> Seq<Seq<char>>
    decreases numbers.len(),
{
    if numbers.len() == 0 {
        Seq::empty()
    } else {
        spec_players_in_fives(fives, numbers.drop_last()) + spec_five(fives, numbers.last()).field_players.ids()
    }
}

/// The ids of `ids`, in order, that are not in `taken` and not in `penalty`.
pub open spec fn spec_filter_available(
    ids: Seq<Seq<char>>,
    taken: Seq<Seq<char>>,
    penalty: Seq<Seq<char>>,
) -> Seq<Seq<char>>
    decreases ids.len(),
{
    if ids.len() == 0 {
        Seq::empty()
    } else {
        let prev = spec_filter_available(ids.drop_last(), taken, penalty);
        if !taken.contains(ids.last()) && !penalty.contains(ids.last()) {
            prev.push(ids.last())
        } else {
            prev
        }
    }
}

/// The defence rating of a player (`by_defence`) or his IQ rating.
pub open spec fn spec_rating(p: FieldPlayer, by_defence: bool) -> int {
    if by_defence {
        p.stats.spec_defense()
    } else {
        p.stats.spec_iq()
    }
}

/// The best of the first `i` of `ids` and his rating: the first one rated above every
/// player before him, starting from a rating of 0 and the empty id.
pub open spec fn spec_best_upto(
    players: Seq<FieldPlayer>,
    ids: Seq<Seq<char>>,
    by_defence: bool,
    i: int,
) -> (Seq<char>, int)
    decreases i,
{
    if i <= 0 {
        (Seq::empty(), 0)
    } else {
        let prev = spec_best_upto(players, ids, by_defence, i - 1);
        let r = spec_rating(spec_player(players, ids[i - 1]), by_defence);
        if r > prev.1 {
            (ids[i - 1], r)
        } else {
            prev
        }
    }
}

/// The best of `ids`.
pub open spec fn spec_best(players: Seq<FieldPlayer>, ids: Seq<Seq<char>>, by_defence: bool) -> Seq<char> {
    spec_best_upto(players, ids, by_defence, ids.len() as int).0
}

/// Whether each of the units `numbers` is among `fives`.
pub open spec fn spec_all_fives(fives: Seq<FiveIds>, numbers: Seq<FiveNumber>) -> bool {
    forall|k: int| 0 <= k < numbers.len() ==> spec_has_five(fives, #[trigger] numbers[k])
}

/// The players of the units `fives` that play in none of `brigades` and are not sent off.
pub open spec fn spec_available(
    units: Seq<FiveIds>,
    penalty: Seq<Seq<char>>,
    brigades: Seq<FiveNumber>,
    fives: Seq<FiveNumber>,
) -> Seq<Seq<char>> {
    spec_filter_available(spec_players_in_fives(units, fives), spec_players_in_fives(units, brigades), penalty)
}

/// `after` is `before` with the unit numbered `n` changed in its players only: it holds
/// `id` at `p`, and the other positions as before.
pub open spec fn spec_slot_set(before: Seq<FiveIds>, after: Seq<FiveIds>, n: FiveNumber, p: PlayerPosition, id: Option<Seq<char>>) -> bool {
    let idx = spec_five_index(before, n);
    &&& after.len() == before.len()
    &&& forall|k: int| 0 <= k < before.len() && k != idx ==> #[trigger] after[k] == before[k]
    &&& after[idx] == (FiveIds { field_players: after[idx].field_players, ..before[idx] })
    &&& after[idx].field_players.at(p) == id
    &&& forall|q: PlayerPosition| q != p ==> #[trigger] after[idx].field_players.slot(q) == before[idx].field_players.slot(q)
}

/// `after` is `before` once the brigade `n` has replaced the penalized player `id`: if
/// the brigade holds him, his position goes to the available player with the best
/// defence (`by_defence`, for penalty-kill units) or the best IQ.
pub open spec fn spec_brigade_replaced(
    before: Seq<FiveIds>,
    after: Seq<FiveIds>,
    players: Seq<FieldPlayer>,
    penalty: Seq<Seq<char>>,
    fives: Seq<FiveNumber>,
    brigades: Seq<FiveNumber>,
    n: FiveNumber,
    id: Seq<char>,
) -> bool {
    match spec_five(before, n).field_players.spec_find(id) {
        None => after == before,
        Some(p) => spec_slot_set(
            before,
            after,
            n,
            p,
            Some(spec_best(players, spec_available(before, penalty, brigades, fives), n.is_penalty_kill())),
        ),
    }
}

/// The four lines.
pub open spec fn spec_lines() -> Seq<FiveNumber> {
    seq![FiveNumber::First, FiveNumber::Second, FiveNumber::Third, FiveNumber::Fourth]
}

/// Whether every token id of the four lines is a player of `players`.
pub open spec fn spec_lines_known(units: Seq<FiveIds>, players: Seq<FieldPlayer>) -> bool {
    forall|k: int| 0 <= k < spec_players_in_fives(units, spec_lines()).len()
        ==> spec_has_player(players, #[trigger] spec_players_in_fives(units, spec_lines())[k])
}

/// The penalty-kill units and the power-play units.
pub open spec fn spec_penalty_kills() -> Seq<FiveNumber> {
    seq![FiveNumber::PenaltyKill1, FiveNumber::PenaltyKill2]
}

pub open spec fn spec_power_plays() -> Seq<FiveNumber> {
    seq![FiveNumber::PowerPlay1, FiveNumber::PowerPlay2]
}

/// Whether all eight units of a team are among `units`.
pub open spec fn spec_units_complete(units: Seq<FiveIds>) -> bool {
    &&& spec_all_fives(units, spec_lines())
    &&& spec_all_fives(units, spec_penalty_kills())
    &&& spec_all_fives(units, spec_power_plays())
}

/// `after` is `before` once the brigades `done` (some of `brigades`), one after the
/// other, have replaced the penalized player `id`.
pub open spec fn spec_brigades_chain(
    before: Seq<FiveIds>,
    after: Seq<FiveIds>,
    players: Seq<FieldPlayer>,
    penalty: Seq<Seq<char>>,
    fives: Seq<FiveNumber>,
    brigades: Seq<FiveNumber>,
    done: Seq<FiveNumber>,
    id: Seq<char>,
) -> bool
    decreases done.len(),
{
    if done.len() == 0 {
        after == before
    } else {
        exists|mid: Seq<FiveIds>|
            spec_brigades_chain(before, mid, players, penalty, fives, brigades, done.drop_last(), id)
            && #[trigger] spec_brigade_replaced(mid, after, players, penalty, fives, brigades, done.last(), id)
    }
}

/// `after` is `before` once the penalty-kill units, then the power-play units, have
/// replaced the penalized player `id` by available players of the four lines.
pub open spec fn spec_penalty_replaced(
    before: Seq<FiveIds>,
    after: Seq<FiveIds>,
    players: Seq<FieldPlayer>,
    penalty: Seq<Seq<char>>,
    id: Seq<char>,
) -> bool {
    exists|mid: Seq<FiveIds>|
        spec_brigades_chain(before, mid, players, penalty, spec_lines(), spec_penalty_kills(), spec_penalty_kills(), id)
        && #[trigger] spec_brigades_chain(mid, after, players, penalty, spec_lines(), spec_power_plays(), spec_power_plays(), id)
}

/// `after` is `before` without the right wing of the penalty-kill units and the left
/// wing of the power-play units.
pub open spec fn spec_extra_removed(before: Seq<FiveIds>, after: Seq<FiveIds>) -> bool {
    exists|f1: Seq<FiveIds>, f2: Seq<FiveIds>, f3: Seq<FiveIds>|
        #![trigger spec_slot_set(before, f1, FiveNumber::PenaltyKill1, PlayerPosition::RightWing, None), spec_slot_set(f1, f2, FiveNumber::PenaltyKill2, PlayerPosition::RightWing, None), spec_slot_set(f2, f3, FiveNumber::PowerPlay1, PlayerPosition::LeftWing, None)]
        spec_slot_set(before, f1, FiveNumber::PenaltyKill1, PlayerPosition::RightWing, None)
        && spec_slot_set(f1, f2, FiveNumber::PenaltyKill2, PlayerPosition::RightWing, None)
        && spec_slot_set(f2, f3, FiveNumber::PowerPlay1, PlayerPosition::LeftWing, None)
        && spec_slot_set(f3, after, FiveNumber::PowerPlay2, PlayerPosition::LeftWing, None)
}

/// `after` is `before` once the brigades `done` (some of `brigades`), one after the
/// other, have put back at `pos` the available player of the four lines with the best IQ.
pub open spec fn spec_release_chain(
    before: Seq<FiveIds>,
    after: Seq<FiveIds>,
    players: Seq<FieldPlayer>,
    penalty: Seq<Seq<char>>,
    brigades: Seq<FiveNumber>,
    done: Seq<FiveNumber>,
    pos: PlayerPosition,
) -> bool
    decreases done.len(),
{
    if done.len() == 0 {
        after == before
    } else {
        exists|mid: Seq<FiveIds>|
            spec_release_chain(before, mid, players, penalty, brigades, done.drop_last(), pos)
            && #[trigger] spec_release_step(mid, after, players, penalty, brigades, done.last(), pos)
    }
}

/// The best IQ among the available players of the four lines.
pub open spec fn spec_best_iq_available(
    units: Seq<FiveIds>,
    players: Seq<FieldPlayer>,
    penalty: Seq<Seq<char>>,
    brigades: Seq<FiveNumber>,
) -> Seq<char> {
    spec_best(players, spec_available(units, penalty, brigades, spec_lines()), false)
}

/// `after` is `mid` once the brigade `n` has put back at `pos` the available player of
/// the four lines with the best IQ.
pub open spec fn spec_release_step(
    mid: Seq<FiveIds>,
    after: Seq<FiveIds>,
    players: Seq<FieldPlayer>,
    penalty: Seq<Seq<char>>,
    brigades: Seq<FiveNumber>,
    n: FiveNumber,
    pos: PlayerPosition,
) -> bool {
    spec_slot_set(mid, after, n, pos, Some(spec_best_iq_available(mid, players, penalty, brigades)))
}

/// `after` is the team `before` once the units have replaced the penalized player `id`:
/// a team on a penalty kill may lose its extra players, any other team goes back to its
/// first line.
pub open spec fn spec_team_penalty_done(before: Team, after: Team, id: Seq<char>) -> bool {
    let five = before.five(before.active_five.current_number);
    let penalty = spec_ids(before.penalty_players@);
    &&& if five.number.is_penalty_kill() {
        &&& five.field_players.spec_filled_count() == 3 ==> spec_penalty_replaced(
            before.fives@, after.fives@, before.field_players@, penalty, id)
        &&& five.field_players.spec_filled_count() != 3 ==> exists|mid: Seq<FiveIds>|
            spec_penalty_replaced(before.fives@, mid, before.field_players@, penalty, id)
            && #[trigger] spec_extra_removed(mid, after.fives@)
        &&& after.active_five == before.active_five
    } else {
        &&& spec_penalty_replaced(before.fives@, after.fives@, before.field_players@, penalty, id)
        &&& after.active_five == (ActiveFive { current_number: FiveNumber::First, ..before.active_five })
    }
    &&& after == (Team { fives: after.fives, active_five: after.active_five, ..before })
}

/// `after` is the team `before` once the players that penalties took out of the units are
/// back: the power-play units get a left wing and the penalty-kill units a right wing,
/// each the available player of the four lines with the best IQ; the unit on the ice
/// gets its player back at that position.
pub open spec fn spec_brigades_released(before: Team, after: Team) -> bool {
    &&& exists|mid: Seq<FiveIds>|
        spec_release_chain(before.fives@, mid, before.field_players@, spec_ids(before.penalty_players@),
            spec_power_plays(), spec_power_plays(), PlayerPosition::LeftWing)
        && #[trigger] spec_release_chain(mid, after.fives@, before.field_players@,
            spec_ids(before.penalty_players@), spec_penalty_kills(), spec_penalty_kills(), PlayerPosition::RightWing)
    &&& ({
        let n = before.active_five.current_number;
        let pos = if n.is_power_play() { PlayerPosition::LeftWing } else { PlayerPosition::RightWing };
        if n.is_power_play() || n.is_penalty_kill() {
            &&& after.active_five == (ActiveFive {
                field_players: before.active_five.field_players.with_slot(
                    pos, after.five(n).field_players.slot(pos)),
                replaced_position: after.active_five.replaced_position,
                ..before.active_five
            })
            &&& after.active_five.replaced_position@ == before.active_five.replaced_position@.push(pos)
        } else {
            after.active_five == before.active_five
        }
    })
    &&& after == (Team { fives: after.fives, active_five: after.active_five, ..before })
}

/// An available player is a player of the four lines.
pub proof fn lemma_filter_available_subset(ids: Seq<Seq<char>>, taken: Seq<Seq<char>>, penalty: Seq<Seq<char>>)
    ensures
        forall|k: int| 0 <= k < spec_filter_available(ids, taken, penalty).len()
            ==> ids.contains(#[trigger] spec_filter_available(ids, taken, penalty)[k]),
        forall|k: int| 0 <= k < spec_filter_available(ids, taken, penalty).len()
            ==> !taken.contains(#[trigger] spec_filter_available(ids, taken, penalty)[k]),
    decreases ids.len(),
{
    if ids.len() > 0 {
        lemma_filter_available_subset(ids.drop_last(), taken, penalty);
        let prev = spec_filter_available(ids.drop_last(), taken, penalty);
        assert forall|k: int| 0 <= k < prev.len() implies ids.contains(#[trigger] prev[k]) by {
            assert(ids.drop_last().contains(prev[k]));
            let j = choose|j: int| 0 <= j < ids.drop_last().len() && ids.drop_last()[j] == prev[k];
            assert(ids[j] == prev[k]);
        }
        assert(ids[ids.len() - 1] == ids.last());
    }
}

/// Changing one unit in its players only leaves where each unit is, and every other unit.
pub proof fn lemma_slot_set_frame(before: Seq<FiveIds>, after: Seq<FiveIds>, n: FiveNumber, p: PlayerPosition, id: Option<Seq<char>>, m: FiveNumber)
    requires
        spec_has_five(before, n),
        spec_slot_set(before, after, n, p, id),
    ensures
        spec_has_five(after, m) == spec_has_five(before, m),
        spec_has_five(before, m) ==> spec_five_index(after, m) == spec_five_index(before, m),
        spec_has_five(before, m) && m != n ==> spec_five(after, m) == spec_five(before, m),
        spec_five(after, n).field_players.at(p) == id,
{
    let idx = spec_five_index(before, n);
    let i0 = choose|i: int| 0 <= i < before.len() && #[trigger] before[i].number == n;
    assert(spec_first_five(before, n, idx)) by {
        if !spec_first_five(before, n, idx) {
            let mut j = i0;
            // the first index of `n` exists
            assert(exists|i: int| spec_first_five(before, n, i)) by {
                lemma_first_index_exists(before, n, i0);
            }
        }
    }
    assert forall|k: int| 0 <= k < before.len() implies #[trigger] after[k].number == before[k].number by {
        if k != idx {
            assert(after[k] == before[k]);
        }
    }
    if spec_has_five(before, m) {
        let im = choose|i: int| 0 <= i < before.len() && #[trigger] before[i].number == m;
        lemma_first_index_exists(before, m, im);
        let jm = choose|i: int| spec_first_five(before, m, i);
        assert(spec_first_five(after, m, jm));
        lemma_first_five_unique(before, m, jm);
        lemma_first_five_unique(after, m, jm);
        assert(after[im].number == m);
    } else {
        assert forall|i: int| 0 <= i < after.len() implies #[trigger] after[i].number != m by {
            assert(after[i].number == before[i].number);
        }
    }
    lemma_first_five_unique(before, n, idx);
    assert(spec_first_five(after, n, idx));
    lemma_first_five_unique(after, n, idx);
}

/// A unit that is among `fives` has a first place there.
pub proof fn lemma_first_index_exists(fives: Seq<FiveIds>, n: FiveNumber, i: int)
    requires
        0 <= i < fives.len(),
        fives[i].number == n,
    ensures
        exists|j: int| spec_first_five(fives, n, j),
        spec_first_five(fives, n, spec_five_index(fives, n)),
    decreases i,
{
    if exists|k: int| 0 <= k < i && #[trigger] fives[k].number == n {
        let k = choose|k: int| 0 <= k < i && #[trigger] fives[k].number == n;
        lemma_first_index_exists(fives, n, k);
    } else {
        assert(spec_first_five(fives, n, i));
    }
}

/// The players of units that did not change stay the same.
pub proof fn lemma_players_in_fives_frame(a: Seq<FiveIds>, b: Seq<FiveIds>, numbers: Seq<FiveNumber>)
    requires
        forall|k: int| 0 <= k < numbers.len() ==> spec_five(a, #[trigger] numbers[k]) == spec_five(b, numbers[k]),
    ensures
        spec_players_in_fives(a, numbers) == spec_players_in_fives(b, numbers),
    decreases numbers.len(),
{
    if numbers.len() > 0 {
        assert forall|k: int| 0 <= k < numbers.drop_last().len() implies
            spec_five(a, #[trigger] numbers.drop_last()[k]) == spec_five(b, numbers.drop_last()[k]) by {
            assert(numbers.drop_last()[k] == numbers[k]);
        }
        lemma_players_in_fives_frame(a, b, numbers.drop_last());
        assert(numbers.last() == numbers[numbers.len() - 1]);
    }
}

/// Changing the players of a unit that is not a line keeps the units complete and the
/// players of the lines.
pub proof fn lemma_slot_set_keeps_lines(before: Seq<FiveIds>, after: Seq<FiveIds>, n: FiveNumber, p: PlayerPosition, id: Option<Seq<char>>, players: Seq<FieldPlayer>)
    requires
        spec_has_five(before, n),
        !n.is_line(),
        spec_slot_set(before, after, n, p, id),
        spec_units_complete(before),
    ensures
        spec_units_complete(after),
        spec_players_in_fives(after, spec_lines()) == spec_players_in_fives(before, spec_lines()),
        forall|m: FiveNumber| #[trigger] spec_has_five(after, m) == spec_has_five(before, m),
{
    assert forall|m: FiveNumber| #[trigger] spec_has_five(after, m) == spec_has_five(before, m) by {
        lemma_slot_set_frame(before, after, n, p, id, m);
    }
    assert forall|k: int| 0 <= k < spec_lines().len() implies
        spec_five(after, #[trigger] spec_lines()[k]) == spec_five(before, spec_lines()[k]) by {
        lemma_slot_set_frame(before, after, n, p, id, spec_lines()[k]);
        assert(spec_has_five(before, spec_lines()[k]));
    }
    lemma_players_in_fives_frame(after, before, spec_lines());
    assert(spec_has_five(before, spec_lines()[0]));
    assert(spec_has_five(before, spec_lines()[1]));
    assert(spec_has_five(before, spec_lines()[2]));
    assert(spec_has_five(before, spec_lines()[3]));
    assert(spec_has_five(before, spec_penalty_kills()[0]));
    assert(spec_has_five(before, spec_penalty_kills()[1]));
    assert(spec_has_five(before, spec_power_plays()[0]));
    assert(spec_has_five(before, spec_power_plays()[1]));
}

/// Putting players back never adds or removes a unit.
pub proof fn lemma_release_chain_has_five(
    before: Seq<FiveIds>,
    after: Seq<FiveIds>,
    players: Seq<FieldPlayer>,
    penalty: Seq<Seq<char>>,
    brigades: Seq<FiveNumber>,
    done: Seq<FiveNumber>,
    pos: PlayerPosition,
    m: FiveNumber,
)
    requires
        spec_release_chain(before, after, players, penalty, brigades, done, pos),
        spec_all_fives(before, done),
    ensures
        spec_has_five(after, m) == spec_has_five(before, m),
    decreases done.len(),
{
    if done.len() > 0 {
        let rest = done.drop_last();
        let last = done.last();
        let mid = choose|mid: Seq<FiveIds>|
            spec_release_chain(before, mid, players, penalty, brigades, rest, pos)
            && #[trigger] spec_release_step(mid, after, players, penalty, brigades, last, pos);
        assert(spec_all_fives(before, rest)) by {
            assert forall|k: int| 0 <= k < rest.len() implies spec_has_five(before, #[trigger] rest[k]) by {
                assert(rest[k] == done[k]);
            }
        }
        assert(spec_has_five(before, done[done.len() - 1]));
        lemma_release_chain_has_five(before, mid, players, penalty, brigades, rest, pos, m);
        lemma_release_chain_has_five(before, mid, players, penalty, brigades, rest, pos, last);
        lemma_slot_set_frame(mid, after, last, pos, Some(spec_best_iq_available(mid, players, penalty, brigades)), m);
    }
}

/// After the brigades `done` have put a player back at `pos`, each of them has a player
/// there, and the other units are as before.
pub proof fn lemma_release_chain_frame(
    before: Seq<FiveIds>,
    after: Seq<FiveIds>,
    players: Seq<FieldPlayer>,
    penalty: Seq<Seq<char>>,
    brigades: Seq<FiveNumber>,
    done: Seq<FiveNumber>,
    pos: PlayerPosition,
    m: FiveNumber,
)
    requires
        spec_release_chain(before, after, players, penalty, brigades, done, pos),
        spec_all_fives(before, done),
        spec_has_five(before, m),
    ensures
        spec_has_five(after, m),
        done.contains(m) ==> spec_five(after, m).field_players.slot(pos) is Some,
        !done.contains(m) ==> spec_five(after, m) == spec_five(before, m),
    decreases done.len(),
{
    if done.len() > 0 {
        let rest = done.drop_last();
        let last = done.last();
        let mid = choose|mid: Seq<FiveIds>|
            spec_release_chain(before, mid, players, penalty, brigades, rest, pos)
            && #[trigger] spec_release_step(mid, after, players, penalty, brigades, last, pos);
        let id = Some(spec_best_iq_available(mid, players, penalty, brigades));
        assert(spec_all_fives(before, rest)) by {
            assert forall|k: int| 0 <= k < rest.len() implies spec_has_five(before, #[trigger] rest[k]) by {
                assert(rest[k] == done[k]);
            }
        }
        assert(spec_has_five(before, done[done.len() - 1]));
        lemma_release_chain_frame(before, mid, players, penalty, brigades, rest, pos, m);
        lemma_release_chain_has_five(before, mid, players, penalty, brigades, rest, pos, last);
        lemma_slot_set_frame(mid, after, last, pos, id, m);
        if m != last {
            assert(done.contains(m) == rest.contains(m)) by {
                if done.contains(m) {
                    let k = choose|k: int| 0 <= k < done.len() && done[k] == m;
                    assert(k < done.len() - 1);
                    assert(rest[k] == m);
                }
                if rest.contains(m) {
                    let k = choose|k: int| 0 <= k < rest.len() && rest[k] == m;
                    assert(done[k] == m);
                }
            }
        }
    }
}

/// After the brigades `done` have put a player back, all of them are still there.
pub proof fn lemma_release_chain_all_fives(
    before: Seq<FiveIds>,
    after: Seq<FiveIds>,
    players: Seq<FieldPlayer>,
    penalty: Seq<Seq<char>>,
    brigades: Seq<FiveNumber>,
    done: Seq<FiveNumber>,
    pos: PlayerPosition,
    numbers: Seq<FiveNumber>,
)
    requires
        spec_release_chain(before, after, players, penalty, brigades, done, pos),
        spec_all_fives(before, done),
        spec_all_fives(before, numbers),
    ensures
        spec_all_fives(after, numbers),
{
    assert forall|k: int| 0 <= k < numbers.len() implies spec_has_five(after, #[trigger] numbers[k]) by {
        lemma_release_chain_has_five(before, after, players, penalty, brigades, done, pos, numbers[k]);
    }
}

impl Team {
    /// The token ids of the units `five_numbers`, unit after unit.
    pub fn get_players_in_fives(&self, five_numbers: &Vec<FiveNumber>) -> (r: Vec<String>)
        requires
            spec_all_fives(self.fives@, five_numbers@),
        ensures
            spec_ids(r@) == spec_players_in_fives(self.fives@, five_numbers@),
    {
        let mut result: Vec<String> = Vec::new();
        let mut i: usize = 0;
        while i < five_numbers.len()
            invariant
                i <= five_numbers.len(),
                spec_all_fives(self.fives@, five_numbers@),
                spec_ids(result@) == spec_players_in_fives(self.fives@, five_numbers@.take(i as int)),
            decreases five_numbers.len() - i,
        {
            let n = five_numbers[i];
            assert(spec_has_five(self.fives@, five_numbers@[i as int]));
            let five = self.get_five(&n);
            let mut ids = five.field_players.id_list();
            let ghost before = result@;
            let ghost added = ids@;
            result.append(&mut ids);
            proof {
                assert(five_numbers@.take(i + 1).drop_last() =~= five_numbers@.take(i as int));
                assert(five_numbers@.take(i + 1).last() == n);
                assert(spec_ids(result@) =~= spec_ids(before) + spec_ids(added));
            }
            i = i + 1;
        }
        assert(five_numbers@.take(five_numbers.len() as int) =~= five_numbers@);
        result
    }

    /// The players of the units `fives` that play in none of `brigades` and are not
    /// sent off.
    pub fn get_available_players(&self, brigades: &Vec<FiveNumber>, fives: &Vec<FiveNumber>) -> (r: Vec<String>)
        requires
            spec_all_fives(self.fives@, brigades@),
            spec_all_fives(self.fives@, fives@),
        ensures
            spec_ids(r@) == spec_available(self.fives@, spec_ids(self.penalty_players@), brigades@, fives@),
    {
        let players_in_brigades = self.get_players_in_fives(brigades);
        let players_in_fives = self.get_players_in_fives(fives);
        let ghost all = spec_ids(players_in_fives@);
        let ghost taken = spec_ids(players_in_brigades@);
        let ghost penalty = spec_ids(self.penalty_players@);
        let mut available_players: Vec<String> = Vec::new();
        let mut i: usize = 0;
        while i < players_in_fives.len()
            invariant
                i <= players_in_fives.len(),
                all == spec_ids(players_in_fives@),
                taken == spec_ids(players_in_brigades@),
                penalty == spec_ids(self.penalty_players@),
                spec_ids(available_players@) == spec_filter_available(all.take(i as int), taken, penalty),
            decreases players_in_fives.len() - i,
        {
            let id = &players_in_fives[i];
            let ghost before = available_players@;
            assert(all.take(i + 1).drop_last() =~= all.take(i as int));
            assert(all.take(i + 1).last() == id@);
            if !contains_id(&players_in_brigades, id) && !contains_id(&self.penalty_players, id) {
                available_players.push(id.clone());
                assert(spec_ids(available_players@) =~= spec_ids(before).push(id@));
            }
            i = i + 1;
        }
        assert(all.take(players_in_fives.len() as int) =~= all);
        available_players
    }

    /// The first of `available_players` with the best defence (the empty id if none
    /// has a positive defence).
    pub fn get_player_id_with_max_defence(&self, available_players: &Vec<String>) -> (r: String)
        requires
            forall|k: int| 0 <= k < available_players.len() ==> self.has_player(#[trigger] available_players@[k]@),
        ensures
            r@ == spec_best(self.field_players@, spec_ids(available_players@), true),
    {
        self.get_best_player(available_players, true)
    }

    /// The first of `available_players` with the best IQ (the empty id if none has a
    /// positive IQ).
    pub fn get_player_id_with_max_iq(&self, available_players: &Vec<String>) -> (r: String)
        requires
            forall|k: int| 0 <= k < available_players.len() ==> self.has_player(#[trigger] available_players@[k]@),
        ensures
            r@ == spec_best(self.field_players@, spec_ids(available_players@), false),
    {
        self.get_best_player(available_players, false)
    }

    fn get_best_player(&self, available_players: &Vec<String>, by_defence: bool) -> (r: String)
        requires
            forall|k: int| 0 <= k < available_players.len() ==> self.has_player(#[trigger] available_players@[k]@),
        ensures
            r@ == spec_best(self.field_players@, spec_ids(available_players@), by_defence),
    {
        let ghost ids = spec_ids(available_players@);
        let mut best: String = String::new();
        let mut max: u16 = 0;
        let mut i: usize = 0;
        while i < available_players.len()
            invariant
                i <= available_players.len(),
                ids == spec_ids(available_players@),
                forall|k: int| 0 <= k < available_players.len() ==> self.has_player(#[trigger] available_players@[k]@),
                best@ == spec_best_upto(self.field_players@, ids, by_defence, i as int).0,
                max == spec_best_upto(self.field_players@, ids, by_defence, i as int).1,
            decreases available_players.len() - i,
        {
            let player = self.get_field_player(&available_players[i]);
            let rating = if by_defence { player.stats.get_defense() } else { player.stats.get_iq() };
            assert(ids[i as int] == available_players@[i as int]@);
            if rating > max {
                best = available_players[i].clone();
                max = rating;
            }
            i = i + 1;
        }
        best
    }

    /// Lets the brigade `brigade_number` replace the penalized player: if it holds him, his
    /// position goes to the available player of `fives` with the best defence (penalty
    /// kill) or the best IQ (power play).
    pub fn replace_penalty_player_in_brigade(
        &mut self,
        fives: &Vec<FiveNumber>,
        brigades: &Vec<FiveNumber>,
        brigade_number: &FiveNumber,
        penalty_player_id: &String,
    )
        requires
            old(self).has_five(*brigade_number),
            spec_all_fives(old(self).fives@, brigades@),
            spec_all_fives(old(self).fives@, fives@),
            ({
                let avail = spec_available(old(self).fives@, spec_ids(old(self).penalty_players@), brigades@, fives@);
                forall|k: int| 0 <= k < avail.len() ==> old(self).has_player(#[trigger] avail[k])
            }),
        ensures
            spec_brigade_replaced(
                old(self).fives@,
                final(self).fives@,
                old(self).field_players@,
                spec_ids(old(self).penalty_players@),
                fives@,
                brigades@,
                *brigade_number,
                penalty_player_id@,
            ),
            *final(self) == (Team { fives: final(self).fives, ..*old(self) }),
    {
        let i = find_five(&self.fives, *brigade_number).unwrap();
        proof { lemma_first_five_unique(self.fives@, *brigade_number, i as int); }
        let pos = self.fives[i].field_players.find(penalty_player_id);
        match pos {
            None => {},
            Some(position) => {
                let available_players = self.get_available_players(brigades, fives);
                proof {
                    assert forall|k: int| 0 <= k < available_players.len() implies
                        self.has_player(#[trigger] available_players@[k]@) by {
                        assert(spec_ids(available_players@)[k] == available_players@[k]@);
                    }
                }
                let player_id = if brigade_number.is_penalty_kill_unit() {
                    self.get_player_id_with_max_defence(&available_players)
                } else {
                    self.get_player_id_with_max_iq(&available_players)
                };
                let ghost before = self.fives@;
                let mut five = self.fives.remove(i);
                five.field_players.insert(position, player_id);
                self.fives.insert(i, five);
                proof {
                    assert(self.fives@ =~= before.update(i as int, self.fives@[i as int]));
                }
            },
        }
    }

    /// Lets each of `brigades`, one after the other, replace the penalized player by an
    /// available player of the four lines.
    pub fn replace_penalty_player_in_brigades(
        &mut self,
        fives: &Vec<FiveNumber>,
        brigades: &Vec<FiveNumber>,
        penalty_player_id: &String,
    )
        requires
            fives@ == spec_lines(),
            forall|k: int| 0 <= k < brigades.len() ==> !(#[trigger] brigades@[k]).is_line(),
            spec_units_complete(old(self).fives@),
            spec_all_fives(old(self).fives@, brigades@),
            spec_lines_known(old(self).fives@, old(self).field_players@),
        ensures
            spec_brigades_chain(
                old(self).fives@,
                final(self).fives@,
                old(self).field_players@,
                spec_ids(old(self).penalty_players@),
                fives@,
                brigades@,
                brigades@,
                penalty_player_id@,
            ),
            spec_units_complete(final(self).fives@),
            spec_lines_known(final(self).fives@, final(self).field_players@),
            *final(self) == (Team { fives: final(self).fives, ..*old(self) }),
    {
        let mut i: usize = 0;
        while i < brigades.len()
            invariant
                i <= brigades.len(),
                fives@ == spec_lines(),
                forall|k: int| 0 <= k < brigades.len() ==> !(#[trigger] brigades@[k]).is_line(),
                spec_units_complete(self.fives@),
                spec_all_fives(self.fives@, brigades@),
                spec_lines_known(self.fives@, self.field_players@),
                spec_brigades_chain(
                    old(self).fives@,
                    self.fives@,
                    old(self).field_players@,
                    spec_ids(old(self).penalty_players@),
                    fives@,
                    brigades@,
                    brigades@.take(i as int),
                    penalty_player_id@,
                ),
                *self == (Team { fives: self.fives, ..*old(self) }),
            decreases brigades.len() - i,
        {
            let n = brigades[i];
            let ghost mid = self.fives@;
            assert(spec_has_five(self.fives@, brigades@[i as int]));
            proof {
                let avail = spec_available(self.fives@, spec_ids(self.penalty_players@), brigades@, fives@);
                lemma_filter_available_subset(
                    spec_players_in_fives(self.fives@, fives@),
                    spec_players_in_fives(self.fives@, brigades@),
                    spec_ids(self.penalty_players@),
                );
                assert forall|k: int| 0 <= k < avail.len() implies self.has_player(#[trigger] avail[k]) by {
                    let ids = spec_players_in_fives(self.fives@, spec_lines());
                    assert(ids.contains(avail[k]));
                    let j = choose|j: int| 0 <= j < ids.len() && ids[j] == avail[k];
                    assert(spec_has_player(self.field_players@, ids[j]));
                }
            }
            self.replace_penalty_player_in_brigade(fives, brigades, &n, penalty_player_id);
            proof {
                let after = self.fives@;
                assert(brigades@.take(i + 1).drop_last() =~= brigades@.take(i as int));
                assert(brigades@.take(i + 1).last() == n);
                assert(spec_brigade_replaced(mid, after, old(self).field_players@, spec_ids(old(self).penalty_players@),
                    fives@, brigades@, n, penalty_player_id@));
                match spec_five(mid, n).field_players.spec_find(penalty_player_id@) {
                    None => {},
                    Some(p) => {
                        lemma_slot_set_keeps_lines(mid, after, n, p,
                            Some(spec_best(old(self).field_players@, spec_available(mid, spec_ids(old(self).penalty_players@), brigades@, fives@), n.is_penalty_kill())),
                            self.field_players@);
                        assert forall|k: int| 0 <= k < brigades.len() implies spec_has_five(after, #[trigger] brigades@[k]) by {
                            assert(spec_has_five(mid, brigades@[k]));
                        }
                    },
                }
            }
            i = i + 1;
        }
        assert(brigades@.take(brigades.len() as int) =~= brigades@);
    }

    /// Empties the position `p` of the unit numbered `n`.
    fn clear_position(&mut self, n: FiveNumber, p: PlayerPosition)
        requires
            old(self).has_five(n),
            !n.is_line(),
            spec_units_complete(old(self).fives@),
            spec_lines_known(old(self).fives@, old(self).field_players@),
        ensures
            spec_slot_set(old(self).fives@, final(self).fives@, n, p, None),
            spec_units_complete(final(self).fives@),
            spec_lines_known(final(self).fives@, final(self).field_players@),
            *final(self) == (Team { fives: final(self).fives, ..*old(self) }),
    {
        let i = find_five(&self.fives, n).unwrap();
        proof { lemma_first_five_unique(self.fives@, n, i as int); }
        let ghost before = self.fives@;
        let mut five = self.fives.remove(i);
        five.field_players.remove(&p);
        self.fives.insert(i, five);
        proof {
            assert(self.fives@ =~= before.update(i as int, self.fives@[i as int]));
            lemma_slot_set_keeps_lines(before, self.fives@, n, p, None, self.field_players@);
        }
    }

    /// Takes the right wing out of the penalty-kill units and the left wing out of the
    /// power-play units.
    pub fn remove_extra_players(&mut self)
        requires
            spec_units_complete(old(self).fives@),
            spec_lines_known(old(self).fives@, old(self).field_players@),
        ensures
            spec_extra_removed(old(self).fives@, final(self).fives@),
            spec_units_complete(final(self).fives@),
            spec_lines_known(final(self).fives@, final(self).field_players@),
            *final(self) == (Team { fives: final(self).fives, ..*old(self) }),
    {
        assert(spec_has_five(self.fives@, spec_penalty_kills()[0]));
        self.clear_position(FiveNumber::PenaltyKill1, PlayerPosition::RightWing);
        let ghost f1 = self.fives@;
        assert(spec_has_five(self.fives@, spec_penalty_kills()[1]));
        self.clear_position(FiveNumber::PenaltyKill2, PlayerPosition::RightWing);
        let ghost f2 = self.fives@;
        assert(spec_has_five(self.fives@, spec_power_plays()[0]));
        self.clear_position(FiveNumber::PowerPlay1, PlayerPosition::LeftWing);
        let ghost f3 = self.fives@;
        assert(spec_has_five(self.fives@, spec_power_plays()[1]));
        self.clear_position(FiveNumber::PowerPlay2, PlayerPosition::LeftWing);
        assert(spec_slot_set(f3, self.fives@, FiveNumber::PowerPlay2, PlayerPosition::LeftWing, None));
    }

    /// Puts back at `vacated_position` of each of `brigades`, one after the other, the
    /// available player of the four lines with the best IQ.
    pub fn release_removed_players(
        &mut self,
        fives: &Vec<FiveNumber>,
        brigades: &Vec<FiveNumber>,
        vacated_position: &PlayerPosition,
    )
        requires
            fives@ == spec_lines(),
            forall|k: int| 0 <= k < brigades.len() ==> !(#[trigger] brigades@[k]).is_line(),
            spec_units_complete(old(self).fives@),
            spec_all_fives(old(self).fives@, brigades@),
            spec_lines_known(old(self).fives@, old(self).field_players@),
        ensures
            spec_release_chain(
                old(self).fives@,
                final(self).fives@,
                old(self).field_players@,
                spec_ids(old(self).penalty_players@),
                brigades@,
                brigades@,
                *vacated_position,
            ),
            spec_units_complete(final(self).fives@),
            spec_all_fives(final(self).fives@, brigades@),
            spec_lines_known(final(self).fives@, final(self).field_players@),
            *final(self) == (Team { fives: final(self).fives, ..*old(self) }),
    {
        let mut i: usize = 0;
        while i < brigades.len()
            invariant
                i <= brigades.len(),
                fives@ == spec_lines(),
                forall|k: int| 0 <= k < brigades.len() ==> !(#[trigger] brigades@[k]).is_line(),
                spec_units_complete(self.fives@),
                spec_all_fives(self.fives@, brigades@),
                spec_lines_known(self.fives@, self.field_players@),
                spec_release_chain(
                    old(self).fives@,
                    self.fives@,
                    old(self).field_players@,
                    spec_ids(old(self).penalty_players@),
                    brigades@,
                    brigades@.take(i as int),
                    *vacated_position,
                ),
                *self == (Team { fives: self.fives, ..*old(self) }),
            decreases brigades.len() - i,
        {
            let n = brigades[i];
            let ghost mid = self.fives@;
            assert(spec_has_five(self.fives@, brigades@[i as int]));
            let available_players = self.get_available_players(brigades, fives);
            proof {
                let avail = spec_available(self.fives@, spec_ids(self.penalty_players@), brigades@, fives@);
                lemma_filter_available_subset(
                    spec_players_in_fives(self.fives@, fives@),
                    spec_players_in_fives(self.fives@, brigades@),
                    spec_ids(self.penalty_players@),
                );
                assert forall|k: int| 0 <= k < available_players.len() implies
                    self.has_player(#[trigger] available_players@[k]@) by {
                    assert(spec_ids(available_players@)[k] == available_players@[k]@);
                    let ids = spec_players_in_fives(self.fives@, spec_lines());
                    assert(ids.contains(avail[k]));
                    let j = choose|j: int| 0 <= j < ids.len() && ids[j] == avail[k];
                    assert(spec_has_player(self.field_players@, ids[j]));
                }
            }
            let player_id = self.get_player_id_with_max_iq(&available_players);
            let idx = find_five(&self.fives, n).unwrap();
            proof { lemma_first_five_unique(self.fives@, n, idx as int); }
            let mut five = self.fives.remove(idx);
            five.field_players.insert(*vacated_position, player_id);
            self.fives.insert(idx, five);
            proof {
                let after = self.fives@;
                assert(after =~= mid.update(idx as int, after[idx as int]));
                let best = spec_best_iq_available(mid, old(self).field_players@, spec_ids(old(self).penalty_players@), brigades@);
                assert(spec_slot_set(mid, after, n, *vacated_position, Some(best)));
                assert(spec_release_step(mid, after, old(self).field_players@, spec_ids(old(self).penalty_players@), brigades@, n, *vacated_position));
                lemma_slot_set_keeps_lines(mid, after, n, *vacated_position, Some(best), self.field_players@);
                assert forall|k: int| 0 <= k < brigades.len() implies spec_has_five(after, #[trigger] brigades@[k]) by {
                    assert(spec_has_five(mid, brigades@[k]));
                }
                assert(brigades@.take(i + 1).drop_last() =~= brigades@.take(i as int));
                assert(brigades@.take(i + 1).last() == n);
            }
            i = i + 1;
        }
        assert(brigades@.take(brigades.len() as int) =~= brigades@);
    }

    /// Lets the penalty-kill units, then the power-play units, replace the penalized
    /// player by available players of the four lines.
    pub fn replace_penalty_player(&mut self, penalty_player_id: &String)
        requires
            spec_units_complete(old(self).fives@),
            spec_lines_known(old(self).fives@, old(self).field_players@),
        ensures
            spec_penalty_replaced(old(self).fives@, final(self).fives@, old(self).field_players@,
                spec_ids(old(self).penalty_players@), penalty_player_id@),
            spec_units_complete(final(self).fives@),
            spec_lines_known(final(self).fives@, final(self).field_players@),
            *final(self) == (Team { fives: final(self).fives, ..*old(self) }),
    {
        let fives = vec![FiveNumber::First, FiveNumber::Second, FiveNumber::Third, FiveNumber::Fourth];
        let pks = vec![FiveNumber::PenaltyKill1, FiveNumber::PenaltyKill2];
        let pps = vec![FiveNumber::PowerPlay1, FiveNumber::PowerPlay2];
        assert(fives@ =~= spec_lines());
        assert(pks@ =~= spec_penalty_kills());
        assert(pps@ =~= spec_power_plays());
        self.replace_penalty_player_in_brigades(&fives, &pks, penalty_player_id);
        let ghost mid = self.fives@;
        self.replace_penalty_player_in_brigades(&fives, &pps, penalty_player_id);
        assert(spec_brigades_chain(mid, self.fives@, old(self).field_players@, spec_ids(old(self).penalty_players@),
            spec_lines(), spec_power_plays(), spec_power_plays(), penalty_player_id@));
    }

    /// The unit on the ice, as the team keeps it, and how many players it has.
    pub fn get_number_players_count_active_five(&self) -> (r: (FiveNumber, usize))
        requires
            self.has_five(self.active_five.current_number),
        ensures
            r.0 == self.five(self.active_five.current_number).number,
            r.0 == self.active_five.current_number,
            r.1 == self.five(self.active_five.current_number).field_players.spec_filled_count(),
    {
        let i = find_five(&self.fives, self.active_five.current_number).unwrap();
        proof { lemma_first_five_unique(self.fives@, self.active_five.current_number, i as int); }
        let five = &self.fives[i];
        (five.number, five.field_players.count_filled())
    }

    /// Replaces the penalized player of a penalty-kill unit; a unit that had more than
    /// three players also loses its extra player, as do the power-play units.
    pub fn do_penalty_for_pk(&mut self, penalty_player_id: &String, count_players_in_five: usize)
        requires
            spec_units_complete(old(self).fives@),
            spec_lines_known(old(self).fives@, old(self).field_players@),
        ensures
            count_players_in_five == 3 ==> spec_penalty_replaced(old(self).fives@, final(self).fives@,
                old(self).field_players@, spec_ids(old(self).penalty_players@), penalty_player_id@),
            count_players_in_five != 3 ==> exists|mid: Seq<FiveIds>|
                spec_penalty_replaced(old(self).fives@, mid, old(self).field_players@,
                    spec_ids(old(self).penalty_players@), penalty_player_id@)
                && #[trigger] spec_extra_removed(mid, final(self).fives@),
            spec_units_complete(final(self).fives@),
            spec_lines_known(final(self).fives@, final(self).field_players@),
            *final(self) == (Team { fives: final(self).fives, ..*old(self) }),
    {
        self.replace_penalty_player(penalty_player_id);
        if count_players_in_five != 3 {
            let ghost mid = self.fives@;
            self.remove_extra_players();
            assert(spec_extra_removed(mid, self.fives@));
        }
    }

    /// Sends off the player `penalty_player_id`: the units replace him; a team on a
    /// penalty kill may lose its extra players, any other team goes back to its first line.
    pub fn do_penalty(&mut self, penalty_player_id: &String)
        requires
            spec_units_complete(old(self).fives@),
            spec_lines_known(old(self).fives@, old(self).field_players@),
            old(self).has_five(old(self).active_five.current_number),
        ensures
            spec_team_penalty_done(*old(self), *final(self), penalty_player_id@),
            spec_units_complete(final(self).fives@),
            spec_lines_known(final(self).fives@, final(self).field_players@),
    {
        let (five_number, count_players_in_five) = self.get_number_players_count_active_five();
        if five_number.is_penalty_kill_unit() {
            self.do_penalty_for_pk(penalty_player_id, count_players_in_five);
        } else {
            self.replace_penalty_player(penalty_player_id);
            self.active_five.current_number = FiveNumber::First;
        }
    }

    /// Puts the player of the unit `current_number` at `player_position` on the ice
    /// there and marks the position taken over.
    pub fn insert_player_to_active_five(&mut self, player_position: &PlayerPosition)
        requires
            old(self).has_five(old(self).active_five.current_number),
            old(self).five(old(self).active_five.current_number).field_players.slot(*player_position) is Some,
        ensures
            final(self).active_five == (ActiveFive {
                field_players: old(self).active_five.field_players.with_slot(
                    *player_position,
                    old(self).five(old(self).active_five.current_number).field_players.slot(*player_position),
                ),
                replaced_position: final(self).active_five.replaced_position,
                ..old(self).active_five
            }),
            final(self).active_five.replaced_position@ == old(self).active_five.replaced_position@.push(*player_position),
            *final(self) == (Team { active_five: final(self).active_five, ..*old(self) }),
    {
        let current = self.active_five.current_number;
        let id = self.get_five(&current).field_players.get(player_position).unwrap();
        self.active_five.field_players.insert(*player_position, id);
        self.active_five.replaced_position.push(*player_position);
        proof {
            lemma_with_slot(old(self).active_five.field_players, *player_position,
                old(self).five(old(self).active_five.current_number).field_players.slot(*player_position));
            lemma_lineup_ext(self.active_five.field_players, old(self).active_five.field_players.with_slot(
                *player_position, old(self).five(old(self).active_five.current_number).field_players.slot(*player_position)));
        }
    }

    /// Brings back the players that penalties took out of the units: the power-play
    /// units get a left wing and the penalty-kill units a right wing, each the available
    /// player of the four lines with the best IQ; the unit on the ice gets its player
    /// back at that position.
    pub fn release_removed_players_in_brigades(&mut self)
        requires
            spec_units_complete(old(self).fives@),
            spec_lines_known(old(self).fives@, old(self).field_players@),
        ensures
            spec_brigades_released(*old(self), *final(self)),
            spec_units_complete(final(self).fives@),
            spec_lines_known(final(self).fives@, final(self).field_players@),
    {
        let fives = vec![FiveNumber::First, FiveNumber::Second, FiveNumber::Third, FiveNumber::Fourth];
        let pps = vec![FiveNumber::PowerPlay1, FiveNumber::PowerPlay2];
        let pks = vec![FiveNumber::PenaltyKill1, FiveNumber::PenaltyKill2];
        assert(fives@ =~= spec_lines());
        assert(pks@ =~= spec_penalty_kills());
        assert(pps@ =~= spec_power_plays());
        self.release_removed_players(&fives, &pps, &PlayerPosition::LeftWing);
        let ghost mid = self.fives@;
        self.release_removed_players(&fives, &pks, &PlayerPosition::RightWing);
        assert(spec_release_chain(mid, self.fives@, old(self).field_players@, spec_ids(old(self).penalty_players@),
            spec_penalty_kills(), spec_penalty_kills(), PlayerPosition::RightWing));
        let current = self.active_five.current_number;
        if current.is_power_play_unit() {
            assert(spec_has_five(self.fives@, spec_power_plays()[0]));
            assert(spec_has_five(self.fives@, spec_power_plays()[1]));
            proof {
                lemma_release_chain_frame(old(self).fives@, mid, old(self).field_players@, spec_ids(old(self).penalty_players@),
                    spec_power_plays(), spec_power_plays(), PlayerPosition::LeftWing, current);
                lemma_release_chain_frame(mid, self.fives@, old(self).field_players@, spec_ids(old(self).penalty_players@),
                    spec_penalty_kills(), spec_penalty_kills(), PlayerPosition::RightWing, current);
            }
            self.insert_player_to_active_five(&PlayerPosition::LeftWing);
        } else if current.is_penalty_kill_unit() {
            assert(spec_has_five(self.fives@, spec_penalty_kills()[0]));
            assert(spec_has_five(self.fives@, spec_penalty_kills()[1]));
            proof {
                lemma_release_chain_frame(old(self).fives@, mid, old(self).field_players@, spec_ids(old(self).penalty_players@),
                    spec_power_plays(), spec_power_plays(), PlayerPosition::LeftWing, current);
                lemma_release_chain_frame(mid, self.fives@, old(self).field_players@, spec_ids(old(self).penalty_players@),
                    spec_penalty_kills(), spec_penalty_kills(), PlayerPosition::RightWing, current);
            }
            self.insert_player_to_active_five(&PlayerPosition::RightWing);
        }
    }
}

} // verus!

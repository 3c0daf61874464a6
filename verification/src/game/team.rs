use vstd::prelude::*;
use crate::game::field_player::FieldPlayer;
use crate::game::five::{ActiveFive, FiveIds};
use crate::game::goalie::Goalie;
use crate::game::lineup::{Lineup, lemma_lineup_ext, lemma_with_slot, spec_all_positions, position_at, contains_position};
use crate::game::numbers::{FiveNumber, GoalieNumber};
use crate::game::player::{GoalieSubstitution, PlayerPosition};
use crate::game::tactics::IceTimePriority;

verus! {

/// Ice time, in turns, after which a unit of each priority leaves the ice.
pub const SUPER_LOW_PRIORITY: u8 = 3;
pub const LOW_PRIORITY: u8 = 5;
pub const NORMAL: u8 = 7;
pub const HIGH_PRIORITY: u8 = 10;
pub const SUPER_HIGH_PRIORITY: u8 = 12;

/// The skaters that replace a pulled goalie, one for each substitution slot.
pub struct GoalieSubstitutes {
    pub substitution1: Option<String>,
    pub substitution2: Option<String>,
}

impl GoalieSubstitutes {
    pub open spec fn slot(self, s: GoalieSubstitution) -> Option<String> {
        match s {
            GoalieSubstitution::GoalieSubstitution1 => self.substitution1,
            GoalieSubstitution::GoalieSubstitution2 => self.substitution2,
        }
    }

    /// The token id of the skater in slot `s`.
    pub fn get(&self, s: &GoalieSubstitution) -> (r: Option<String>)
        ensures
            r == self.slot(*s),
    {
        let slot = match s {
            GoalieSubstitution::GoalieSubstitution1 => &self.substitution1,
            GoalieSubstitution::GoalieSubstitution2 => &self.substitution2,
        };
        match slot {
            Some(id) => Some(id.clone()),
            None => None,
        }
    }
}

/// The two goalies of a team in a match.
pub struct Goalies {
    pub main_goalkeeper: Option<Goalie>,
    pub substitute_goalkeeper: Option<Goalie>,
}

impl Goalies {
    pub open spec fn slot(self, n: GoalieNumber) -> Option<Goalie> {
        match n {
            GoalieNumber::MainGoalkeeper => self.main_goalkeeper,
            GoalieNumber::SubstituteGoalkeeper => self.substitute_goalkeeper,
        }
    }

    /// The goalie with the number `n`.
    pub fn get(&self, n: &GoalieNumber) -> (r: &Goalie)
        requires
            self.slot(*n) is Some,
        ensures
            *r == self.slot(*n)->0,
    {
        match n {
            GoalieNumber::MainGoalkeeper => self.main_goalkeeper.as_ref().unwrap(),
            GoalieNumber::SubstituteGoalkeeper => self.substitute_goalkeeper.as_ref().unwrap(),
        }
    }
}

/// A team in a match: its units, the unit on the ice, its players by token id, its
/// penalties, goalies and score.
pub struct Team {
    pub fives: Vec<FiveIds>,
    pub active_five: ActiveFive,
    pub field_players: Vec<FieldPlayer>,
    pub penalty_players: Vec<String>,
    pub players_to_big_penalty: Vec<String>,
    pub players_to_small_penalty: Vec<String>,
    pub goalie_substitutions: GoalieSubstitutes,
    pub active_goalie_substitution: GoalieSubstitution,
    pub goalies: Goalies,
    pub active_goalie: GoalieNumber,
    pub score: u8,
}

/// The unit that follows `n` when a unit leaves the ice: the four lines take turns, and
/// so do the two power-play units and the two penalty-kill units.
pub open spec fn spec_next_five(n: FiveNumber) -> FiveNumber {
    match n {
        FiveNumber::First => FiveNumber::Second,
        FiveNumber::Second => FiveNumber::Third,
        FiveNumber::Third => FiveNumber::Fourth,
        FiveNumber::Fourth => FiveNumber::First,
        FiveNumber::PowerPlay1 => FiveNumber::PowerPlay2,
        FiveNumber::PowerPlay2 => FiveNumber::PowerPlay1,
        FiveNumber::PenaltyKill1 => FiveNumber::PenaltyKill2,
        FiveNumber::PenaltyKill2 => FiveNumber::PenaltyKill1,
    }
}

/// `after` is the team `before` once the next unit goes on the ice.
pub open spec fn spec_five_changed(before: Team, after: Team) -> bool {
    &&& after.active_five == (ActiveFive {
        current_number: spec_next_five(before.active_five.current_number),
        replaced_position: after.active_five.replaced_position,
        time_field: Some(0u8),
        ..before.active_five
    })
    &&& after.active_five.replaced_position@.len() == 0
    &&& after == (Team { active_five: after.active_five, ..before })
}

/// The ice time, in turns, after which a unit of the given priority leaves the ice.
pub open spec fn spec_shift_length(priority: IceTimePriority) -> u8 {
    match priority {
        IceTimePriority::SuperLowPriority => SUPER_LOW_PRIORITY,
        IceTimePriority::LowPriority => LOW_PRIORITY,
        IceTimePriority::Normal => NORMAL,
        IceTimePriority::HighPriority => HIGH_PRIORITY,
        IceTimePriority::SuperHighPriority => SUPER_HIGH_PRIORITY,
    }
}

/// Whether the unit numbered `n` is among `fives`.
pub open spec fn spec_has_five(fives: Seq<FiveIds>, n: FiveNumber) -> bool {
    exists|i: int| 0 <= i < fives.len() && #[trigger] fives[i].number == n
}

/// Whether `i` is the first place of the unit numbered `n` in `fives`.
pub open spec fn spec_first_five(fives: Seq<FiveIds>, n: FiveNumber, i: int) -> bool {
    &&& 0 <= i < fives.len()
    &&& fives[i].number == n
    &&& forall|k: int| 0 <= k < i ==> #[trigger] fives[k].number != n
}

/// The place of the unit numbered `n` (the first such, in the order the team keeps them).
pub open spec fn spec_five_index(fives: Seq<FiveIds>, n: FiveNumber) -> int {
    choose|i: int| spec_first_five(fives, n, i)
}

/// The unit numbered `n` (the first such, in the order the team keeps them).
pub open spec fn spec_five(fives: Seq<FiveIds>, n: FiveNumber) -> FiveIds {
    fives[spec_five_index(fives, n)]
}

pub proof fn lemma_first_five_unique(fives: Seq<FiveIds>, n: FiveNumber, i: int)
    requires
        spec_first_five(fives, n, i),
    ensures
        spec_five_index(fives, n) == i,
        spec_five(fives, n) == fives[i],
{
    let j = choose|j: int| spec_first_five(fives, n, j);
    assert(spec_first_five(fives, n, j));
    if j < i {
        assert(fives[j].number != n);
    } else if i < j {
        assert(fives[i].number != n);
    }
}

/// Whether the player carries the token id `id`.
pub open spec fn spec_id_is(p: FieldPlayer, id: Seq<char>) -> bool {
    p.id matches Some(x) && x@ == id
}

/// Whether `i` is the first place of the player with token id `id` in `players`.
pub open spec fn spec_first_player(players: Seq<FieldPlayer>, id: Seq<char>, i: int) -> bool {
    &&& 0 <= i < players.len()
    &&& spec_id_is(players[i], id)
    &&& forall|k: int| 0 <= k < i ==> !spec_id_is(#[trigger] players[k], id)
}

/// Whether a player with the token id `id` is among `players`.
pub open spec fn spec_has_player(players: Seq<FieldPlayer>, id: Seq<char>) -> bool {
    exists|i: int| 0 <= i < players.len() && spec_id_is(#[trigger] players[i], id)
}

/// The index of the player with token id `id`.
pub open spec fn spec_player_index(players: Seq<FieldPlayer>, id: Seq<char>) -> int {
    choose|i: int| spec_first_player(players, id, i)
}

/// The player with token id `id`.
pub open spec fn spec_player(players: Seq<FieldPlayer>, id: Seq<char>) -> FieldPlayer {
    players[spec_player_index(players, id)]
}

pub proof fn lemma_first_player_unique(players: Seq<FieldPlayer>, id: Seq<char>, i: int)
    requires
        spec_first_player(players, id, i),
    ensures
        spec_player_index(players, id) == i,
        spec_player(players, id) == players[i],
{
    let j = choose|j: int| spec_first_player(players, id, j);
    assert(spec_first_player(players, id, j));
    if j < i {
        assert(!spec_id_is(players[j], id));
    } else if i < j {
        assert(!spec_id_is(players[i], id));
    }
}

/// A player that is among `players` has a first place there, and carries the id.
pub proof fn lemma_player_found(players: Seq<FieldPlayer>, id: Seq<char>)
    requires
        spec_has_player(players, id),
    ensures
        spec_first_player(players, id, spec_player_index(players, id)),
        spec_id_is(spec_player(players, id), id),
{
    let i = choose|i: int| 0 <= i < players.len() && spec_id_is(#[trigger] players[i], id);
    lemma_first_player_exists(players, id, i);
}

proof fn lemma_first_player_exists(players: Seq<FieldPlayer>, id: Seq<char>, i: int)
    requires
        0 <= i < players.len(),
        spec_id_is(players[i], id),
    ensures
        spec_first_player(players, id, spec_player_index(players, id)),
    decreases i,
{
    if exists|k: int| 0 <= k < i && spec_id_is(#[trigger] players[k], id) {
        let k = choose|k: int| 0 <= k < i && spec_id_is(#[trigger] players[k], id);
        lemma_first_player_exists(players, id, k);
    } else {
        assert(spec_first_player(players, id, i));
    }
}

/// Changing a player but not his token id keeps where each player is found.
pub proof fn lemma_same_ids_update(players: Seq<FieldPlayer>, i: int, p: FieldPlayer, x: Seq<char>)
    requires
        0 <= i < players.len(),
        p.id == players[i].id,
        spec_has_player(players, x),
    ensures
        spec_has_player(players.update(i, p), x),
        spec_player_index(players.update(i, p), x) == spec_player_index(players, x),
        spec_player(players.update(i, p), x) == if spec_player_index(players, x) == i { p } else { spec_player(players, x) },
{
    let after = players.update(i, p);
    lemma_player_found(players, x);
    let j = spec_player_index(players, x);
    assert(spec_first_player(after, x, j)) by {
        assert forall|k: int| 0 <= k < j implies !spec_id_is(#[trigger] after[k], x) by {
            assert(!spec_id_is(players[k], x));
        }
    }
    lemma_first_player_unique(after, x, j);
}

/// The place of the unit numbered `n` in `fives`.
pub fn find_five(fives: &Vec<FiveIds>, n: FiveNumber) -> (r: Option<usize>)
    ensures
        r matches Some(i) ==> spec_first_five(fives@, n, i as int),
        r is None ==> !spec_has_five(fives@, n),
{
    let mut i: usize = 0;
    while i < fives.len()
        invariant
            i <= fives.len(),
            forall|k: int| 0 <= k < i ==> #[trigger] fives@[k].number != n,
        decreases fives.len() - i,
    {
        if fives[i].number == n {
            return Some(i);
        }
        i = i + 1;
    }
    None
}

/// The place of the player with token id `id` in `players`.
pub fn find_player(players: &Vec<FieldPlayer>, id: &String) -> (r: Option<usize>)
    ensures
        r matches Some(i) ==> spec_first_player(players@, id@, i as int),
        r is None ==> !spec_has_player(players@, id@),
{
    let mut i: usize = 0;
    while i < players.len()
        invariant
            i <= players.len(),
            forall|k: int| 0 <= k < i ==> !spec_id_is(#[trigger] players@[k], id@),
        decreases players.len() - i,
    {
        match &players[i].id {
            Some(x) => {
                if *x == *id {
                    return Some(i);
                }
            },
            None => {},
        }
        i = i + 1;
    }
    None
}

/// `after` is `before` once the whole unit `current_number` is on the ice: every position
/// of it is taken over, and the substitute skater comes back on if the goalie is pulled.
pub open spec fn spec_swapped_all(before: Team, after: Team) -> bool {
    let five = before.five(before.active_five.current_number);
    &&& after.active_five == (ActiveFive {
        field_players: if before.active_five.is_goalie_out {
            spec_goalie_out_lineup(
                five.field_players,
                before.goalie_substitutions.slot(before.active_goalie_substitution)->0,
            )
        } else {
            five.field_players
        },
        replaced_position: after.active_five.replaced_position,
        ..before.active_five
    })
    &&& after.active_five.replaced_position@ == five.field_players.present_positions()
    &&& after == (Team { active_five: after.active_five, ..before })
}

/// The unit on the ice after the skater `sub` replaces the goalie: he takes the extra
/// position when five skaters are on the ice, the left wing when four are, and the right
/// wing otherwise.
pub open spec fn spec_goalie_out_lineup(l: Lineup, sub: String) -> Lineup {
    let n = l.spec_filled_count();
    if n == 5 {
        Lineup { additional_position: Some(sub), ..l }
    } else if n == 4 {
        Lineup { left_wing: Some(sub), ..l }
    } else {
        Lineup { right_wing: Some(sub), ..l }
    }
}

/// The unit on the ice after the goalie comes back: the right wing leaves when four
/// skaters are on the ice, the left wing when five are, the extra skater when six are.
pub open spec fn spec_goalie_back_lineup(l: Lineup) -> Lineup {
    let n = l.spec_filled_count();
    if n == 4 {
        Lineup { right_wing: None, ..l }
    } else if n == 5 {
        Lineup { left_wing: None, ..l }
    } else if n == 6 {
        Lineup { additional_position: None, ..l }
    } else {
        l
    }
}

/// Four changes bring a line back on the ice, two changes a power-play or a penalty-kill
/// unit; a change never leaves the group (lines, power play, penalty kill) of the unit.
pub proof fn lemma_unit_rotation(n: FiveNumber)
    ensures
        n.is_line() ==> spec_next_five(spec_next_five(spec_next_five(spec_next_five(n)))) == n,
        !n.is_line() ==> spec_next_five(spec_next_five(n)) == n,
        spec_next_five(n).is_line() == n.is_line(),
        spec_next_five(n).is_power_play() == n.is_power_play(),
        spec_next_five(n).is_penalty_kill() == n.is_penalty_kill(),
        spec_next_five(n) != n,
{
}

/// Pulling the goalie and bringing him back leaves the skaters on the ice as they were,
/// when three to five skaters were on the ice, the substitute is a real token id and the
/// position he takes was free.
pub proof fn lemma_goalie_back_undoes_goalie_out(l: Lineup, sub: String)
    requires
        3 <= l.spec_filled_count() <= 5,
        sub@.len() > 0,
        l.spec_filled_count() == 5 ==> l.additional_position is None,
        l.spec_filled_count() == 4 ==> l.left_wing is None,
        l.spec_filled_count() == 3 ==> l.right_wing is None,
    ensures
        spec_goalie_back_lineup(spec_goalie_out_lineup(l, sub)) == l,
        spec_goalie_out_lineup(l, sub).spec_filled_count() == l.spec_filled_count() + 1,
{
}

/// A team that pulls its goalie and brings him back has the same skaters on the ice, and
/// its goalie back in net, when three to five skaters were on the ice, the substitute of
/// the active slot is a real token id and the position he takes was free.
pub proof fn lemma_goalie_out_then_back(t0: Team, t1: Team, t2: Team)
    requires
        t0.goalie_substitutions.slot(t0.active_goalie_substitution) matches Some(sub) && sub@.len() > 0,
        3 <= t0.active_five.field_players.spec_filled_count() <= 5,
        t0.active_five.field_players.spec_filled_count() == 5 ==> t0.active_five.field_players.additional_position is None,
        t0.active_five.field_players.spec_filled_count() == 4 ==> t0.active_five.field_players.left_wing is None,
        t0.active_five.field_players.spec_filled_count() == 3 ==> t0.active_five.field_players.right_wing is None,
        t1.active_five == (ActiveFive {
            is_goalie_out: true,
            field_players: spec_goalie_out_lineup(
                t0.active_five.field_players,
                t0.goalie_substitutions.slot(t0.active_goalie_substitution)->0,
            ),
            ..t0.active_five
        }),
        t1 == (Team { active_five: t1.active_five, ..t0 }),
        t2.active_five == (ActiveFive {
            is_goalie_out: false,
            field_players: spec_goalie_back_lineup(t1.active_five.field_players),
            ..t1.active_five
        }),
        t2 == (Team { active_five: t2.active_five, ..t1 }),
    ensures
        t2.active_five.field_players == t0.active_five.field_players,
        !t2.active_five.is_goalie_out,
        t2 == (Team { active_five: ActiveFive { is_goalie_out: false, ..t0.active_five }, ..t0 }),
{
    lemma_goalie_back_undoes_goalie_out(
        t0.active_five.field_players,
        t0.goalie_substitutions.slot(t0.active_goalie_substitution)->0,
    );
}

/// Whether the player `id` may take a position: not the player with the puck, and not a
/// player listed both for a small and for a big penalty.
pub open spec fn spec_is_player_available(
    id: Seq<char>,
    player_with_puck: Option<Seq<char>>,
    big: Seq<Seq<char>>,
    small: Seq<Seq<char>>,
) -> bool {
    !(player_with_puck == Some(id)) && !(small.contains(id) && big.contains(id))
}

/// The text of an optional token id.
pub open spec fn spec_opt_view(o: Option<String>) -> Option<Seq<char>> {
    match o {
        Some(s) => Some(s@),
        None => None,
    }
}

/// The texts of a list of token ids.
pub open spec fn spec_ids(ids: Seq<String>) -> Seq<Seq<char>> {
    ids.map_values(|s: String| s@)
}

/// Whether `id` is among `ids`.
pub fn contains_id(ids: &Vec<String>, id: &String) -> (b: bool)
    ensures
        b == spec_ids(ids@).contains(id@),
{
    let mut i: usize = 0;
    while i < ids.len()
        invariant
            i <= ids.len(),
            forall|k: int| 0 <= k < i ==> #[trigger] ids@[k]@ != id@,
        decreases ids.len() - i,
    {
        if ids[i] == *id {
            proof {
                assert(spec_ids(ids@)[i as int] == id@);
            }
            return true;
        }
        i = i + 1;
    }
    proof {
        if spec_ids(ids@).contains(id@) {
            let k = choose|k: int| 0 <= k < ids@.len() && #[trigger] spec_ids(ids@)[k] == id@;
            assert(ids@[k]@ == id@);
        }
    }
    false
}

/// Whether the player `player_id` may take a position when the active unit is swapped.
pub fn is_player_available(
    player_id: &String,
    player_with_puck: &Option<String>,
    players_to_big_penalty: &Vec<String>,
    players_to_small_penalty: &Vec<String>,
) -> (b: bool)
    ensures
        b == spec_is_player_available(
            player_id@,
            spec_opt_view(*player_with_puck),
            spec_ids(players_to_big_penalty@),
            spec_ids(players_to_small_penalty@),
        ),
{
    match player_with_puck {
        Some(p) => {
            if *player_id == *p {
                return false;
            }
        },
        None => {},
    }
    if contains_id(players_to_small_penalty, player_id) && contains_id(players_to_big_penalty, player_id) {
        return false;
    }
    true
}

/// The swap of the players on the ice after visiting the first `i` positions of the unit
/// `five`: the unit built so far, the positions taken over so far, how many players came
/// on, and whether every position kept so far had a player on the ice. At most two
/// available players come on per swap, each at a position not taken over yet; every other
/// position of the unit keeps the player who was on the ice there.
pub open spec fn spec_swap_upto(
    five: Lineup,
    on_ice: Lineup,
    replaced: Seq<PlayerPosition>,
    player_with_puck: Option<Seq<char>>,
    big: Seq<Seq<char>>,
    small: Seq<Seq<char>>,
    i: int,
) -> (Lineup, Seq<PlayerPosition>, int, bool)
    decreases i,
{
    if i <= 0 {
        (Lineup {
            center: None,
            left_wing: None,
            right_wing: None,
            left_defender: None,
            right_defender: None,
            additional_position: None,
            goalie_pos: None,
        }, replaced, 0, true)
    } else {
        let prev = spec_swap_upto(five, on_ice, replaced, player_with_puck, big, small, i - 1);
        let p = spec_all_positions()[i - 1];
        match five.slot(p) {
            None => prev,
            Some(id) => {
                if spec_is_player_available(id@, player_with_puck, big, small) && !prev.1.contains(p)
                    && prev.2 < 2 {
                    (prev.0.with_slot(p, Some(id)), prev.1.push(p), prev.2 + 1, prev.3)
                } else {
                    (prev.0.with_slot(p, on_ice.slot(p)), prev.1, prev.2, prev.3 && on_ice.slot(p) is Some)
                }
            },
        }
    }
}

/// The token id at a position that holds one.
pub open spec fn id_of(l: Lineup, p: PlayerPosition) -> String {
    l.slot(p)->0
}

/// Once a position fails to find its player on the ice, the swap stays failed.
pub proof fn lemma_swap_ok_monotone(
    five: Lineup,
    on_ice: Lineup,
    replaced: Seq<PlayerPosition>,
    player_with_puck: Option<Seq<char>>,
    big: Seq<Seq<char>>,
    small: Seq<Seq<char>>,
    i: int,
    j: int,
)
    requires
        0 <= i <= j,
        spec_swap_upto(five, on_ice, replaced, player_with_puck, big, small, j).3,
    ensures
        spec_swap_upto(five, on_ice, replaced, player_with_puck, big, small, i).3,
    decreases j - i,
{
    if i < j {
        lemma_swap_ok_monotone(five, on_ice, replaced, player_with_puck, big, small, i, j - 1);
    }
}

impl Team {
    pub open spec fn five(self, n: FiveNumber) -> FiveIds {
        spec_five(self.fives@, n)
    }

    pub open spec fn has_five(self, n: FiveNumber) -> bool {
        spec_has_five(self.fives@, n)
    }

    pub open spec fn player(self, id: Seq<char>) -> FieldPlayer {
        spec_player(self.field_players@, id)
    }

    pub open spec fn has_player(self, id: Seq<char>) -> bool {
        spec_has_player(self.field_players@, id)
    }

    /// The players sent off or waiting to be sent off.
    pub fn get_number_of_penalty_players(&self) -> (n: usize)
        requires
            self.players_to_big_penalty.len() + self.players_to_small_penalty.len()
                + self.penalty_players.len() <= usize::MAX,
        ensures
            n == self.players_to_big_penalty.len() + self.players_to_small_penalty.len()
                + self.penalty_players.len(),
    {
        let number_of_players_to_penalty = self.players_to_big_penalty.len() + self.players_to_small_penalty.len();
        number_of_players_to_penalty + self.penalty_players.len()
    }

    /// Whether the unit on the ice has played its shift.
    pub fn need_change(&self) -> (b: bool)
        requires
            self.active_five.time_field is Some,
        ensures
            b == (self.active_five.time_field->0 >= spec_shift_length(self.active_five.ice_time_priority)),
    {
        let time_field = self.active_five.time_field.unwrap();
        match self.active_five.ice_time_priority {
            IceTimePriority::SuperLowPriority => time_field >= SUPER_LOW_PRIORITY,
            IceTimePriority::LowPriority => time_field >= LOW_PRIORITY,
            IceTimePriority::Normal => time_field >= NORMAL,
            IceTimePriority::HighPriority => time_field >= HIGH_PRIORITY,
            IceTimePriority::SuperHighPriority => time_field >= SUPER_HIGH_PRIORITY,
        }
    }

    /// Sends the next unit on the ice: no position is taken over yet and its ice time
    /// starts at zero. The players on the ice stay until they are swapped.
    pub fn change_active_five(&mut self)
        ensures
            spec_five_changed(*old(self), *final(self)),
            final(self).active_five == (ActiveFive {
                current_number: spec_next_five(old(self).active_five.current_number),
                replaced_position: final(self).active_five.replaced_position,
                time_field: Some(0u8),
                ..old(self).active_five
            }),
            final(self).active_five.replaced_position@.len() == 0,
            final(self).fives == old(self).fives,
            final(self).field_players == old(self).field_players,
            final(self).penalty_players == old(self).penalty_players,
            final(self).players_to_big_penalty == old(self).players_to_big_penalty,
            final(self).players_to_small_penalty == old(self).players_to_small_penalty,
            final(self).goalie_substitutions == old(self).goalie_substitutions,
            final(self).active_goalie_substitution == old(self).active_goalie_substitution,
            final(self).goalies == old(self).goalies,
            final(self).active_goalie == old(self).active_goalie,
            final(self).score == old(self).score,
    {
        let current_number = match self.active_five.current_number {
            FiveNumber::First => FiveNumber::Second,
            FiveNumber::Second => FiveNumber::Third,
            FiveNumber::Third => FiveNumber::Fourth,
            FiveNumber::Fourth => FiveNumber::First,
            FiveNumber::PowerPlay1 => FiveNumber::PowerPlay2,
            FiveNumber::PowerPlay2 => FiveNumber::PowerPlay1,
            FiveNumber::PenaltyKill1 => FiveNumber::PenaltyKill2,
            FiveNumber::PenaltyKill2 => FiveNumber::PenaltyKill1,
        };
        self.active_five.current_number = current_number;
        self.active_five.replaced_position.clear();
        self.active_five.time_field = Some(0u8);
    }

    /// The unit numbered `n`.
    pub fn get_five(&self, n: &FiveNumber) -> (r: &FiveIds)
        requires
            self.has_five(*n),
        ensures
            *r == self.five(*n),
    {
        let i = find_five(&self.fives, *n).unwrap();
        proof { lemma_first_five_unique(self.fives@, *n, i as int); }
        &self.fives[i]
    }

    /// The players of the unit numbered `n` (positions holding a real token id).
    pub fn get_five_number_of_players(&self, n: &FiveNumber) -> (c: usize)
        requires
            self.has_five(*n),
        ensures
            c == self.five(*n).field_players.spec_filled_count(),
    {
        let five = self.get_five(n);
        five.field_players.count_filled()
    }

    /// The players on the ice.
    pub fn get_active_five_number_of_player(&self) -> (c: usize)
        ensures
            c == self.active_five.field_players.spec_filled_count(),
    {
        self.active_five.field_players.count_filled()
    }

    /// The player with token id `id`.
    pub fn get_field_player(&self, id: &String) -> (r: &FieldPlayer)
        requires
            self.has_player(id@),
        ensures
            *r == self.player(id@),
            spec_id_is(*r, id@),
    {
        let i = find_player(&self.field_players, id).unwrap();
        proof { lemma_first_player_unique(self.field_players@, id@, i as int); }
        &self.field_players[i]
    }

    /// Pulls the goalie: the substitute of the active substitution slot joins the skaters.
    pub fn goalie_out(&mut self)
        requires
            old(self).goalie_substitutions.slot(old(self).active_goalie_substitution) is Some,
        ensures
            final(self).active_five == (ActiveFive {
                is_goalie_out: true,
                field_players: spec_goalie_out_lineup(
                    old(self).active_five.field_players,
                    old(self).goalie_substitutions.slot(old(self).active_goalie_substitution)->0,
                ),
                ..old(self).active_five
            }),
            *final(self) == (Team { active_five: final(self).active_five, ..*old(self) }),
    {
        let goalie_substitute_id = self.goalie_substitutions.get(&self.active_goalie_substitution).unwrap();
        self.active_five.is_goalie_out = true;
        let number_of_players = self.active_five.get_number_of_players();
        if number_of_players == 5 {
            self.active_five.field_players.insert(PlayerPosition::AdditionalPosition, goalie_substitute_id);
        } else if number_of_players == 4 {
            self.active_five.field_players.insert(PlayerPosition::LeftWing, goalie_substitute_id);
        } else {
            self.active_five.field_players.insert(PlayerPosition::RightWing, goalie_substitute_id);
        }
        proof {
            lemma_lineup_ext(self.active_five.field_players, spec_goalie_out_lineup(
                old(self).active_five.field_players,
                old(self).goalie_substitutions.slot(old(self).active_goalie_substitution)->0,
            ));
        }
    }

    /// Puts the goalie back in net: the skater who replaced him leaves.
    pub fn goalie_back(&mut self)
        ensures
            final(self).active_five == (ActiveFive {
                is_goalie_out: false,
                field_players: spec_goalie_back_lineup(old(self).active_five.field_players),
                ..old(self).active_five
            }),
            *final(self) == (Team { active_five: final(self).active_five, ..*old(self) }),
    {
        self.active_five.is_goalie_out = false;
        let number_of_players = self.active_five.get_number_of_players();
        if number_of_players == 4 {
            self.active_five.field_players.remove(&PlayerPosition::RightWing);
        } else if number_of_players == 5 {
            self.active_five.field_players.remove(&PlayerPosition::LeftWing);
        } else if number_of_players == 6 {
            self.active_five.field_players.remove(&PlayerPosition::AdditionalPosition);
        }
        proof {
            lemma_lineup_ext(self.active_five.field_players, spec_goalie_back_lineup(old(self).active_five.field_players));
        }
    }

    /// Sends the whole unit `current_number` on the ice: every position of it is taken
    /// over, and the substitute skater comes back on if the goalie is pulled.
    pub fn swap_all_players_in_active_five(&mut self)
        requires
            old(self).has_five(old(self).active_five.current_number),
            old(self).active_five.is_goalie_out ==>
                old(self).goalie_substitutions.slot(old(self).active_goalie_substitution) is Some,
        ensures
            spec_swapped_all(*old(self), *final(self)),
    {
        let current_five_number = self.active_five.current_number;
        let players = self.get_five(&current_five_number).field_players.duplicate();
        let positions = players.positions();
        self.active_five.field_players = players;
        self.active_five.replaced_position = positions;
        if self.active_five.is_goalie_out {
            self.goalie_out();
        }
    }

    /// Whether one of the two goalie substitutes is on the ice.
    pub fn is_goalie_substitutions_in_active_five(&self) -> (b: bool)
        requires
            self.goalie_substitutions.substitution1 is Some,
            self.goalie_substitutions.substitution2 is Some,
        ensures
            b == exists|p: PlayerPosition| #![auto]
                self.active_five.field_players.at(p) == Some(self.goalie_substitutions.substitution1->0@)
                || self.active_five.field_players.at(p) == Some(self.goalie_substitutions.substitution2->0@),
    {
        let sub1 = self.goalie_substitutions.get(&GoalieSubstitution::GoalieSubstitution1).unwrap();
        let sub2 = self.goalie_substitutions.get(&GoalieSubstitution::GoalieSubstitution2).unwrap();
        let a = self.active_five.field_players.find(&sub1);
        let b = self.active_five.field_players.find(&sub2);
        a.is_some() || b.is_some()
    }

    /// Whether `self` is the team `before` once at most two players of the unit
    /// `current_number` have come on the ice (see `swap_players_in_active_five`).
    pub open spec fn swap_result_of(self, before: Team, player_with_puck: Option<String>) -> bool {
        let after = self;
        let five = before.five(before.active_five.current_number);
        let swapped = spec_swap_upto(
            five.field_players,
            before.active_five.field_players,
            before.active_five.replaced_position@,
            spec_opt_view(player_with_puck),
            spec_ids(before.players_to_big_penalty@),
            spec_ids(before.players_to_small_penalty@),
            7,
        );
        let sub1 = before.goalie_substitutions.substitution1->0@;
        let sub2 = before.goalie_substitutions.substitution2->0@;
        if before.active_five.field_players.spec_filled_count() == five.field_players.spec_blank_count() {
            after == before
        } else {
            &&& after.active_five.replaced_position@ == swapped.1
            &&& after.active_five.field_players == if before.active_five.is_goalie_out
                && exists|p: PlayerPosition| #![auto] swapped.0.at(p) == Some(sub1) || swapped.0.at(p) == Some(sub2) {
                spec_goalie_out_lineup(swapped.0, before.goalie_substitutions.slot(before.active_goalie_substitution)->0)
            } else {
                swapped.0
            }
            &&& after == (Team {
                active_five: ActiveFive {
                    field_players: after.active_five.field_players,
                    replaced_position: after.active_five.replaced_position,
                    is_goalie_out: after.active_five.is_goalie_out,
                    ..before.active_five
                },
                ..before
            })
            &&& after.active_five.is_goalie_out == before.active_five.is_goalie_out
        }
    }

    /// Brings at most two players of the unit `current_number` on the ice, at positions
    /// not taken over yet, if the unit is not complete on the ice; the other positions
    /// of the unit keep their players. The player with the puck does not leave.
    pub fn swap_players_in_active_five(&mut self, player_with_puck: Option<String>)
        requires
            old(self).has_five(old(self).active_five.current_number),
            ({
                let five = old(self).five(old(self).active_five.current_number);
                old(self).active_five.field_players.spec_filled_count() != five.field_players.spec_blank_count() ==>
                spec_swap_upto(
                    five.field_players,
                    old(self).active_five.field_players,
                    old(self).active_five.replaced_position@,
                    spec_opt_view(player_with_puck),
                    spec_ids(old(self).players_to_big_penalty@),
                    spec_ids(old(self).players_to_small_penalty@),
                    7,
                ).3
            }),
            old(self).active_five.is_goalie_out
                && old(self).active_five.field_players.spec_filled_count()
                    != old(self).five(old(self).active_five.current_number).field_players.spec_blank_count()
                ==> old(self).goalie_substitutions.substitution1 is Some
                    && old(self).goalie_substitutions.substitution2 is Some
                    && old(self).goalie_substitutions.slot(old(self).active_goalie_substitution) is Some,
        ensures
            final(self).swap_result_of(*old(self), player_with_puck),
    {
        let current_five_number = self.active_five.current_number;
        let five_players = self.get_five(&current_five_number).field_players.duplicate();
        let number_of_players_in_current_five = self.get_five(&current_five_number).get_number_of_players();
        let number_of_players_in_active_five = self.active_five.get_number_of_players();
        if number_of_players_in_active_five == number_of_players_in_current_five {
            return;
        }
        let ghost puck = spec_opt_view(player_with_puck);
        let ghost big = spec_ids(self.players_to_big_penalty@);
        let ghost small = spec_ids(self.players_to_small_penalty@);
        let ghost replaced0 = self.active_five.replaced_position@;
        let players_in_active_five = self.active_five.field_players.duplicate();
        self.active_five.field_players.clear();
        proof {
            lemma_lineup_ext(self.active_five.field_players, spec_swap_upto(five_players, players_in_active_five,
                replaced0, puck, big, small, 0).0);
        }
        let mut number_of_replaced_players: usize = 0;
        let mut i: usize = 0;
        while i < 7
            invariant
                i <= 7,
                ({
                    let st = spec_swap_upto(five_players, players_in_active_five, replaced0, puck, big, small, i as int);
                    &&& self.active_five.field_players == st.0
                    &&& self.active_five.replaced_position@ == st.1
                    &&& number_of_replaced_players == st.2
                    &&& st.2 <= 2
                }),
                spec_swap_upto(five_players, players_in_active_five, replaced0, puck, big, small, 7).3,
                old(self).active_five.field_players.spec_filled_count()
                    != old(self).five(old(self).active_five.current_number).field_players.spec_blank_count(),
                *self == (Team {
                    active_five: ActiveFive {
                        field_players: self.active_five.field_players,
                        replaced_position: self.active_five.replaced_position,
                        ..old(self).active_five
                    },
                    ..*old(self)
                }),
                five_players == old(self).five(old(self).active_five.current_number).field_players,
                players_in_active_five == old(self).active_five.field_players,
                replaced0 == old(self).active_five.replaced_position@,
                puck == spec_opt_view(player_with_puck),
                big == spec_ids(self.players_to_big_penalty@),
                small == spec_ids(self.players_to_small_penalty@),
            decreases 7 - i,
        {
            let p = position_at(i);
            let ghost prev = spec_swap_upto(five_players, players_in_active_five, replaced0, puck, big, small, i as int);
            proof {
                lemma_swap_ok_monotone(five_players, players_in_active_five, replaced0, puck, big, small, i + 1, 7);
            }
            assert(spec_swap_upto(five_players, players_in_active_five, replaced0, puck, big, small, i + 1)
                == spec_swap_upto(five_players, players_in_active_five, replaced0, puck, big, small, i as int + 1));
            match five_players.get(&p) {
                None => {},
                Some(id) => {
                    let is_replaced_position = contains_position(&self.active_five.replaced_position, p);
                    let available = is_player_available(&id, &player_with_puck,
                        &self.players_to_big_penalty, &self.players_to_small_penalty);
                    if available && !is_replaced_position && number_of_replaced_players < 2 {
                        self.active_five.field_players.insert(p, id);
                        self.active_five.replaced_position.push(p);
                        number_of_replaced_players = number_of_replaced_players + 1;
                    } else {
                        let kept = players_in_active_five.get(&p).unwrap();
                        self.active_five.field_players.insert(p, kept);
                    }
                },
            }
            proof {
                let next = spec_swap_upto(five_players, players_in_active_five, replaced0, puck, big, small, i + 1);
                lemma_with_slot(prev.0, p, Some(id_of(five_players, p)));
                lemma_with_slot(prev.0, p, players_in_active_five.slot(p));
                lemma_lineup_ext(self.active_five.field_players, next.0);
            }
            i = i + 1;
        }
        if self.active_five.is_goalie_out && self.is_goalie_substitutions_in_active_five() {
            self.goalie_out();
        }
    }

    /// Where the player with token id `id` stands on the ice.
    pub fn get_field_player_pos(&self, id: &String) -> (r: PlayerPosition)
        requires
            exists|p: PlayerPosition| #[trigger] self.active_five.field_players.at(p) == Some(id@),
        ensures
            self.active_five.field_players.at(r) == Some(id@),
            self.active_five.field_players.spec_find(id@) == Some(r),
    {
        match self.active_five.field_players.find(id) {
            Some(p) => p,
            None => PlayerPosition::Center,
        }
    }
}

} // verus!

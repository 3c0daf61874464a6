use vstd::prelude::*;
use crate::game::engine::{Game, UserInfo};
use crate::game::field_player::FieldPlayer;
use crate::game::five::FiveIds;
use crate::game::goalie::Goalie;
use crate::game::numbers::FiveNumber;
use crate::game::player::PlayerPosition;
use crate::game::stats::{FieldPlayerStats, GoalieStats};
use crate::game::tactics::{IceTimePriority, Tactics};
use crate::game::lineup::{Lineup, lemma_lineup_ext};
use crate::game::team::{Goalies, Team, find_five, lemma_first_five_unique, spec_first_five, spec_five_index, spec_has_player};

verus! {

/// How many positions of the units `fives` hold the token id `id`.
pub open spec fn spec_units_count(fives: Seq<FiveIds>, id: Seq<char>) -> int
    decreases fives.len(),
{
    if fives.len() == 0 {
        0
    } else {
        spec_units_count(fives.drop_last(), id) + fives.last().field_players.spec_count_id(id)
    }
}

/// How many positions of the team's units the player holds.
pub open spec fn spec_unit_count(t: Team, p: FieldPlayer) -> int {
    match p.id {
        Some(id) => spec_units_count(t.fives@, id@),
        None => 0,
    }
}

/// Whether every token id in the team's units is a player of the team.
pub open spec fn spec_units_known(t: Team) -> bool {
    forall|k: int, pos: PlayerPosition| 0 <= k < t.fives.len() ==>
        ((#[trigger] t.fives@[k].field_players.slot(pos)) matches Some(x) ==> spec_has_player(t.field_players@, x@))
}

/// The ratings with `strength` more on each strength rating, `iq` more on each IQ rating
/// and `morale` more on morale.
pub open spec fn spec_boosted(s: FieldPlayerStats, strength: int, iq: int, morale: int) -> FieldPlayerStats {
    FieldPlayerStats {
        aggressiveness: (s.aggressiveness + strength) as u8,
        body_checking: (s.body_checking + strength) as u8,
        durability: (s.durability + strength) as u8,
        fighting_skill: (s.fighting_skill + strength) as u8,
        strength: (s.strength + strength) as u8,
        discipline: (s.discipline + iq) as u8,
        offensive: (s.offensive + iq) as u8,
        poise: (s.poise + iq) as u8,
        morale: (s.morale + iq + morale) as u8,
        ..s
    }
}

/// Whether the boosted ratings stay within 255.
pub open spec fn spec_boost_fits(s: FieldPlayerStats, strength: int, iq: int, morale: int) -> bool {
    &&& s.aggressiveness + strength <= 255
    &&& s.body_checking + strength <= 255
    &&& s.durability + strength <= 255
    &&& s.fighting_skill + strength <= 255
    &&& s.strength + strength <= 255
    &&& s.discipline + iq <= 255
    &&& s.offensive + iq <= 255
    &&& s.poise + iq <= 255
    &&& s.morale + iq + morale <= 255
}

/// Whether every player of the team can gain, for each position he holds in the units,
/// `strength`, `iq` and `morale`.
pub open spec fn spec_team_boost_fits(t: Team, strength: int, iq: int, morale: int) -> bool {
    forall|i: int| 0 <= i < t.field_players.len() ==> {
        let c = spec_unit_count(t, #[trigger] t.field_players@[i]);
        spec_boost_fits(t.field_players@[i].stats, strength * c, iq * c, morale * c)
    }
}

/// `after` is the team `before` once every player gained, for each position he holds in
/// the units, `strength`, `iq` and `morale`.
pub open spec fn spec_team_boosted(before: Team, after: Team, strength: int, iq: int, morale: int) -> bool {
    &&& after.field_players.len() == before.field_players.len()
    &&& forall|i: int| 0 <= i < before.field_players.len() ==> {
        let p = #[trigger] before.field_players@[i];
        let c = spec_unit_count(before, p);
        after.field_players@[i] == (FieldPlayer { stats: spec_boosted(p.stats, strength * c, iq * c, morale * c), ..p })
    }
    &&& after == (Team { field_players: after.field_players, ..before })
}

/// The goalie with `value` more on each strength rating.
pub open spec fn spec_goalie_boosted(g: Option<Goalie>, value: int) -> Option<Goalie> {
    match g {
        Some(g) => Some(Goalie {
            stats: GoalieStats {
                aggressiveness: (g.stats.aggressiveness + value) as u8,
                agility: (g.stats.agility + value) as u8,
                durability: (g.stats.durability + value) as u8,
                endurance: (g.stats.endurance + value) as u8,
                speed: (g.stats.speed + value) as u8,
                vision: (g.stats.vision + value) as u8,
                morale: (g.stats.morale + value) as u8,
                ..g.stats
            },
            ..g
        }),
        None => None,
    }
}

/// Whether the goalie's strength ratings can gain `value` and stay within 255.
pub open spec fn spec_goalie_boost_fits(g: Option<Goalie>, value: int) -> bool {
    g matches Some(g) ==> {
        &&& g.stats.aggressiveness + value <= 255
        &&& g.stats.agility + value <= 255
        &&& g.stats.durability + value <= 255
        &&& g.stats.endurance + value <= 255
        &&& g.stats.speed + value <= 255
        &&& g.stats.vision + value <= 255
        &&& g.stats.morale + value <= 255
    }
}

/// How many positions of the units `fives` hold `id`.
fn units_count(fives: &Vec<FiveIds>, id: &String) -> (n: u128)
    ensures
        n == spec_units_count(fives@, id@),
{
    let mut n: u128 = 0;
    let mut k: usize = 0;
    while k < fives.len()
        invariant
            k <= fives.len(),
            n == spec_units_count(fives@.take(k as int), id@),
            n <= 7 * k,
        decreases fives.len() - k,
    {
        assert(fives@.take(k + 1).drop_last() =~= fives@.take(k as int));
        n = n + fives[k].field_players.count_id(id) as u128;
        k = k + 1;
    }
    assert(fives@.take(fives.len() as int) =~= fives@);
    n
}

/// Gives `value` more strength to a goalie.
fn boost_goalie(g: &mut Option<Goalie>, value: u8)
    requires
        spec_goalie_boost_fits(*old(g), value as int),
    ensures
        *final(g) == spec_goalie_boosted(*old(g), value as int),
{
    match g {
        Some(goalie) => goalie.stats.increase_strength(value),
        None => {},
    }
}

impl Team {
    /// Every player gains, for each position he holds in the units, `strength` on each
    /// strength rating, `iq` on each IQ rating and `morale` on morale.
    pub fn boost_players(&mut self, strength: u8, iq: u8, morale: u8)
        requires
            spec_team_boost_fits(*old(self), strength as int, iq as int, morale as int),
        ensures
            spec_team_boosted(*old(self), *final(self), strength as int, iq as int, morale as int),
    {
        let mut i: usize = 0;
        while i < self.field_players.len()
            invariant
                i <= self.field_players.len(),
                self.field_players.len() == old(self).field_players.len(),
                spec_team_boost_fits(*old(self), strength as int, iq as int, morale as int),
                forall|k: int| 0 <= k < i ==> {
                    let p = #[trigger] old(self).field_players@[k];
                    let c = spec_unit_count(*old(self), p);
                    self.field_players@[k] == (FieldPlayer {
                        stats: spec_boosted(p.stats, strength * c, iq * c, morale * c),
                        ..p
                    })
                },
                forall|k: int| i <= k < self.field_players.len() ==> #[trigger] self.field_players@[k] == old(self).field_players@[k],
                *self == (Team { field_players: self.field_players, ..*old(self) }),
            decreases self.field_players.len() - i,
        {
            let count: u128 = match &self.field_players[i].id {
                Some(id) => units_count(&self.fives, id),
                None => 0,
            };
            let ghost p = old(self).field_players@[i as int];
            let ghost c = spec_unit_count(*old(self), p);
            assert(count == c);
            assert(spec_boost_fits(p.stats, strength * c, iq * c, morale * c));
            let s: u8 = (strength as u128 * count) as u8;
            let q: u8 = (iq as u128 * count) as u8;
            let m: u8 = (morale as u128 * count) as u8;
            let ghost before = self.field_players@;
            let mut player = self.field_players.remove(i);
            player.stats.increase_strength(s);
            player.stats.increase_iq(q);
            player.stats.morale = player.stats.morale + m;
            self.field_players.insert(i, player);
            assert(self.field_players@ =~= before.update(i as int, self.field_players@[i as int]));
            i = i + 1;
        }
    }

    /// Both goalies gain `value` on each strength rating.
    pub fn boost_goalies(&mut self, value: u8)
        requires
            spec_goalie_boost_fits(old(self).goalies.main_goalkeeper, value as int),
            spec_goalie_boost_fits(old(self).goalies.substitute_goalkeeper, value as int),
        ensures
            *final(self) == (Team {
                goalies: Goalies {
                    main_goalkeeper: spec_goalie_boosted(old(self).goalies.main_goalkeeper, value as int),
                    substitute_goalkeeper: spec_goalie_boosted(old(self).goalies.substitute_goalkeeper, value as int),
                },
                ..*old(self)
            }),
    {
        boost_goalie(&mut self.goalies.main_goalkeeper, value);
        boost_goalie(&mut self.goalies.substitute_goalkeeper, value);
    }
}

/// Why a request of a user during a match was refused.
#[derive(PartialEq, Eq, Structural, Clone, Copy, Debug)]
pub enum ManageError {
    /// The side has already taken its time-out.
    AlreadyUsedTimeout,
    /// The account plays neither side of the match.
    AccountNotFound,
    /// The side has no such unit.
    FiveNotFound,
    /// The unit has no player at one of the positions.
    PositionNotFound,
}

/// Whether a side can take its time-out against `other`: its players gain 5 strength and
/// 3 IQ, the other side's 3 strength and 3 morale, for each position they hold in their
/// units; its goalies gain 5 and then 3 strength.
pub open spec fn spec_timeout_fits(user: UserInfo, other: UserInfo) -> bool {
    &&& spec_units_known(user.team)
    &&& spec_units_known(other.team)
    &&& spec_team_boost_fits(user.team, 5, 3, 0)
    &&& spec_team_boost_fits(other.team, 3, 0, 3)
    &&& spec_goalie_boost_fits(user.team.goalies.main_goalkeeper, 8)
    &&& spec_goalie_boost_fits(user.team.goalies.substitute_goalkeeper, 8)
}

/// `u1` and `o1` are the sides `u0` and `o0` once `u0` took its time-out.
pub open spec fn spec_timeout_taken(u0: UserInfo, o0: UserInfo, u1: UserInfo, o1: UserInfo) -> bool {
    exists|t: Team| {
        &&& #[trigger] spec_team_boosted(u0.team, t, 5, 3, 0)
        &&& u1 == (UserInfo {
            take_to_called: true,
            team: Team {
                goalies: Goalies {
                    main_goalkeeper: spec_goalie_boosted(spec_goalie_boosted(t.goalies.main_goalkeeper, 5), 3),
                    substitute_goalkeeper: spec_goalie_boosted(spec_goalie_boosted(t.goalies.substitute_goalkeeper, 5), 3),
                },
                ..t
            },
            ..u0
        })
    }
    && o1 == (UserInfo { team: o1.team, ..o0 }) && spec_team_boosted(o0.team, o1.team, 3, 0, 3)
}

/// The side `user` takes its time-out against `other` (see `spec_timeout_fits`).
fn change_stats_take_to(user: &mut UserInfo, other: &mut UserInfo)
    requires
        spec_timeout_fits(*old(user), *old(other)),
    ensures
        spec_timeout_taken(*old(user), *old(other), *final(user), *final(other)),
{
    user.team.boost_players(5, 3, 0);
    let ghost t = user.team;
    proof {
        assert(spec_goalie_boost_fits(t.goalies.main_goalkeeper, 5));
        assert(spec_goalie_boost_fits(t.goalies.substitute_goalkeeper, 5));
    }
    user.team.boost_goalies(5);
    other.team.boost_players(3, 0, 3);
    user.team.boost_goalies(3);
    user.take_to_called = true;
}

/// `u1` is the side `u0` once its coach spoke: its players gain 5 strength for each
/// position they hold in the units, and its goalies 5 strength.
pub open spec fn spec_speech_given(u0: UserInfo, u1: UserInfo) -> bool {
    exists|t: Team| {
        &&& #[trigger] spec_team_boosted(u0.team, t, 5, 0, 0)
        &&& u1 == (UserInfo {
            coach_speech_called: true,
            team: Team {
                goalies: Goalies {
                    main_goalkeeper: spec_goalie_boosted(t.goalies.main_goalkeeper, 5),
                    substitute_goalkeeper: spec_goalie_boosted(t.goalies.substitute_goalkeeper, 5),
                },
                ..t
            },
            ..u0
        })
    }
}

/// Whether the coach of the side can speak.
pub open spec fn spec_speech_fits(user: UserInfo) -> bool {
    &&& spec_units_known(user.team)
    &&& spec_team_boost_fits(user.team, 5, 0, 0)
    &&& spec_goalie_boost_fits(user.team.goalies.main_goalkeeper, 5)
    &&& spec_goalie_boost_fits(user.team.goalies.substitute_goalkeeper, 5)
}

/// The coach of the side `user` speaks (see `spec_speech_given`).
fn change_stats_coach_speech(user: &mut UserInfo)
    requires
        spec_speech_fits(*old(user)),
    ensures
        spec_speech_given(*old(user), *final(user)),
{
    user.team.boost_players(5, 0, 0);
    user.team.boost_goalies(5);
    user.coach_speech_called = true;
}

/// `after` is the team `before` with the unit `number` changed to `five`.
pub open spec fn spec_five_set(before: Team, after: Team, number: FiveNumber, five: FiveIds) -> bool {
    &&& after.fives@ == before.fives@.update(spec_five_index(before.fives@, number), five)
    &&& after == (Team { fives: after.fives, ..before })
}

/// The lineup `l` with the players at `position1` and `position2` exchanged.
pub open spec fn spec_lineup_swapped(l: Lineup, position1: PlayerPosition, position2: PlayerPosition) -> Lineup {
    l.with_slot(position1, l.slot(position2)).with_slot(position2, l.slot(position1))
}

impl Team {
    /// Replaces the unit `number` by `five`; whether the team has such a unit.
    fn set_five(&mut self, number: FiveNumber, five: FiveIds) -> (found: bool)
        ensures
            found == old(self).has_five(number),
            found ==> spec_five_set(*old(self), *final(self), number, five),
            !found ==> *final(self) == *old(self),
    {
        match find_five(&self.fives, number) {
            Some(i) => {
                proof { lemma_first_five_unique(self.fives@, number, i as int); }
                self.fives.set(i, five);
                true
            },
            None => false,
        }
    }

    /// Sets how the unit `number` plays; whether the team has such a unit.
    pub fn set_five_tactic(&mut self, number: FiveNumber, tactic: Tactics) -> (found: bool)
        ensures
            found == old(self).has_five(number),
            found ==> spec_five_set(*old(self), *final(self), number, FiveIds { tactic, ..old(self).five(number) }),
            !found ==> *final(self) == *old(self),
    {
        match find_five(&self.fives, number) {
            Some(i) => {
                proof { lemma_first_five_unique(self.fives@, number, i as int); }
                let f = &self.fives[i];
                let five = FiveIds {
                    field_players: f.field_players.duplicate(),
                    number: f.number,
                    ice_time_priority: f.ice_time_priority,
                    tactic,
                    time_field: f.time_field,
                };
                self.set_five(number, five)
            },
            None => false,
        }
    }

    /// Sets how long the unit `number` stays on the ice; whether the team has such a unit.
    pub fn set_five_ice_time_priority(&mut self, number: FiveNumber, ice_time_priority: IceTimePriority) -> (found: bool)
        ensures
            found == old(self).has_five(number),
            found ==> spec_five_set(*old(self), *final(self), number, FiveIds { ice_time_priority, ..old(self).five(number) }),
            !found ==> *final(self) == *old(self),
    {
        match find_five(&self.fives, number) {
            Some(i) => {
                proof { lemma_first_five_unique(self.fives@, number, i as int); }
                let f = &self.fives[i];
                let five = FiveIds {
                    field_players: f.field_players.duplicate(),
                    number: f.number,
                    ice_time_priority,
                    tactic: f.tactic,
                    time_field: f.time_field,
                };
                self.set_five(number, five)
            },
            None => false,
        }
    }

    /// Exchanges the players at `position1` and `position2` of the unit `number`; refused
    /// when there is no such unit or no player at either position.
    pub fn swap_positions(&mut self, number: FiveNumber, position1: PlayerPosition, position2: PlayerPosition) -> (r: Result<(), ManageError>)
        ensures
            !old(self).has_five(number) ==> r == Err::<(), ManageError>(ManageError::FiveNotFound),
            old(self).has_five(number) && (old(self).five(number).field_players.slot(position1) is None
                || old(self).five(number).field_players.slot(position2) is None) ==>
                r == Err::<(), ManageError>(ManageError::PositionNotFound),
            old(self).has_five(number) && old(self).five(number).field_players.slot(position1) is Some
                && old(self).five(number).field_players.slot(position2) is Some ==> r is Ok,
            r is Err ==> *final(self) == *old(self),
            r is Ok ==> spec_five_set(*old(self), *final(self), number, FiveIds {
                field_players: spec_lineup_swapped(old(self).five(number).field_players, position1, position2),
                ..old(self).five(number)
            }),
    {
        match find_five(&self.fives, number) {
            Some(i) => {
                proof { lemma_first_five_unique(self.fives@, number, i as int); }
                let f = &self.fives[i];
                let first = match f.field_players.get(&position1) {
                    Some(id) => id,
                    None => return Err(ManageError::PositionNotFound),
                };
                let second = match f.field_players.get(&position2) {
                    Some(id) => id,
                    None => return Err(ManageError::PositionNotFound),
                };
                let mut lineup = f.field_players.duplicate();
                lineup.insert(position1, second);
                lineup.insert(position2, first);
                proof {
                    lemma_lineup_ext(lineup, spec_lineup_swapped(self.fives@[i as int].field_players, position1, position2));
                }
                let five = FiveIds {
                    field_players: lineup,
                    number: f.number,
                    ice_time_priority: f.ice_time_priority,
                    tactic: f.tactic,
                    time_field: f.time_field,
                };
                self.set_five(number, five);
                Ok(())
            },
            None => Err(ManageError::FiveNotFound),
        }
    }
}

/// The unit `number` of `t` with the players at `position1` and `position2` exchanged.
pub open spec fn spec_five_swapped(t: Team, number: FiveNumber, position1: PlayerPosition, position2: PlayerPosition) -> FiveIds {
    FiveIds {
        field_players: spec_lineup_swapped(t.five(number).field_players, position1, position2),
        ..t.five(number)
    }
}

/// Exchanging the same two positions of a unit twice leaves the team's units as they were.
pub proof fn lemma_swap_positions_twice(
    t0: Team,
    t1: Team,
    t2: Team,
    number: FiveNumber,
    position1: PlayerPosition,
    position2: PlayerPosition,
)
    requires
        t0.has_five(number),
        spec_five_set(t0, t1, number, spec_five_swapped(t0, number, position1, position2)),
        spec_five_set(t1, t2, number, spec_five_swapped(t1, number, position1, position2)),
    ensures
        t2.fives@ == t0.fives@,
        t2 == (Team { fives: t2.fives, ..t0 }),
{
    let i = choose|i: int| 0 <= i < t0.fives@.len() && #[trigger] t0.fives@[i].number == number;
    crate::game::brigades::lemma_first_index_exists(t0.fives@, number, i);
    let k = spec_five_index(t0.fives@, number);
    assert(spec_first_five(t1.fives@, number, k));
    lemma_first_five_unique(t1.fives@, number, k);
    let l = t0.fives@[k].field_players;
    lemma_lineup_ext(
        spec_lineup_swapped(spec_lineup_swapped(l, position1, position2), position1, position2),
        l,
    );
    assert(t2.fives@ =~= t0.fives@);
}

impl Game {
    /// The side of the account `account_id`: 1, 2, or none.
    pub open spec fn side_of(self, account_id: Seq<char>) -> Option<usize> {
        if self.user1.account_id@ == account_id {
            Some(1)
        } else if self.user2.account_id@ == account_id {
            Some(2)
        } else {
            None
        }
    }

    /// Whether the side of `account_id` can take its time-out.
    pub open spec fn take_to_ready(self, account_id: Seq<char>) -> bool {
        match self.side_of(account_id) {
            Some(1) => !self.user1.take_to_called ==> spec_timeout_fits(self.user1, self.user2),
            Some(_) => !self.user2.take_to_called ==> spec_timeout_fits(self.user2, self.user1),
            None => true,
        }
    }

    /// The side of `account_id` takes its time-out, once a match; refused when it already
    /// did or the account plays neither side.
    pub fn take_to(&mut self, account_id: &String) -> (r: Result<(), ManageError>)
        requires
            old(self).take_to_ready(account_id@),
        ensures
            match old(self).side_of(account_id@) {
                Some(1) => if old(self).user1.take_to_called {
                    r == Err::<(), ManageError>(ManageError::AlreadyUsedTimeout) && *final(self) == *old(self)
                } else {
                    r is Ok && spec_timeout_taken(old(self).user1, old(self).user2, final(self).user1, final(self).user2)
                        && *final(self) == (Game { user1: final(self).user1, user2: final(self).user2, ..*old(self) })
                },
                Some(_) => if old(self).user2.take_to_called {
                    r == Err::<(), ManageError>(ManageError::AlreadyUsedTimeout) && *final(self) == *old(self)
                } else {
                    r is Ok && spec_timeout_taken(old(self).user2, old(self).user1, final(self).user2, final(self).user1)
                        && *final(self) == (Game { user1: final(self).user1, user2: final(self).user2, ..*old(self) })
                },
                None => r == Err::<(), ManageError>(ManageError::AccountNotFound) && *final(self) == *old(self),
            },
    {
        if self.user1.account_id == *account_id {
            if self.user1.take_to_called {
                return Err(ManageError::AlreadyUsedTimeout);
            }
            change_stats_take_to(&mut self.user1, &mut self.user2);
            Ok(())
        } else if self.user2.account_id == *account_id {
            if self.user2.take_to_called {
                return Err(ManageError::AlreadyUsedTimeout);
            }
            change_stats_take_to(&mut self.user2, &mut self.user1);
            Ok(())
        } else {
            Err(ManageError::AccountNotFound)
        }
    }

    /// Whether the coach of the side of `account_id` can speak.
    pub open spec fn coach_speech_ready(self, account_id: Seq<char>) -> bool {
        match self.side_of(account_id) {
            Some(1) => !self.user1.coach_speech_called ==> spec_speech_fits(self.user1),
            Some(_) => !self.user2.coach_speech_called ==> spec_speech_fits(self.user2),
            None => true,
        }
    }

    /// The coach of the side of `account_id` speaks, once a match; whether he did.
    pub fn coach_speech(&mut self, account_id: &String) -> (spoke: bool)
        requires
            old(self).coach_speech_ready(account_id@),
        ensures
            match old(self).side_of(account_id@) {
                Some(1) => spoke == !old(self).user1.coach_speech_called,
                Some(_) => spoke == !old(self).user2.coach_speech_called,
                None => !spoke,
            },
            !spoke ==> *final(self) == *old(self),
            spoke && old(self).side_of(account_id@) == Some(1usize) ==> spec_speech_given(old(self).user1, final(self).user1)
                && *final(self) == (Game { user1: final(self).user1, ..*old(self) }),
            spoke && old(self).side_of(account_id@) == Some(2usize) ==> spec_speech_given(old(self).user2, final(self).user2)
                && *final(self) == (Game { user2: final(self).user2, ..*old(self) }),
    {
        if self.user1.account_id == *account_id {
            if !self.user1.coach_speech_called {
                change_stats_coach_speech(&mut self.user1);
                return true;
            }
            false
        } else if self.user2.account_id == *account_id {
            if !self.user2.coach_speech_called {
                change_stats_coach_speech(&mut self.user2);
                return true;
            }
            false
        } else {
            false
        }
    }

    /// The side of `account_id` pulls its goalie, unless it already did; whether it did.
    pub fn goalie_out(&mut self, account_id: &String) -> (done: bool)
        ensures
            done == (self_pulls(*old(self), account_id@, true)),
            old(self).user1.account_id@ == account_id@ && !old(self).user1.is_goalie_out ==>
                *final(self) == (Game { user1: UserInfo { is_goalie_out: true, ..old(self).user1 }, ..*old(self) }),
            !(old(self).user1.account_id@ == account_id@ && !old(self).user1.is_goalie_out)
                && old(self).user2.account_id@ == account_id@ && !old(self).user2.is_goalie_out ==>
                *final(self) == (Game { user2: UserInfo { is_goalie_out: true, ..old(self).user2 }, ..*old(self) }),
            !done ==> *final(self) == *old(self),
    {
        if self.user1.account_id == *account_id && !self.user1.is_goalie_out {
            self.user1.is_goalie_out = true;
            true
        } else if self.user2.account_id == *account_id && !self.user2.is_goalie_out {
            self.user2.is_goalie_out = true;
            true
        } else {
            false
        }
    }

    /// The side of `account_id` brings its goalie back, if it pulled him; whether it did.
    pub fn goalie_back(&mut self, account_id: &String) -> (done: bool)
        ensures
            done == (self_pulls(*old(self), account_id@, false)),
            old(self).user1.account_id@ == account_id@ && old(self).user1.is_goalie_out ==>
                *final(self) == (Game { user1: UserInfo { is_goalie_out: false, ..old(self).user1 }, ..*old(self) }),
            !(old(self).user1.account_id@ == account_id@ && old(self).user1.is_goalie_out)
                && old(self).user2.account_id@ == account_id@ && old(self).user2.is_goalie_out ==>
                *final(self) == (Game { user2: UserInfo { is_goalie_out: false, ..old(self).user2 }, ..*old(self) }),
            !done ==> *final(self) == *old(self),
    {
        if self.user1.account_id == *account_id && self.user1.is_goalie_out {
            self.user1.is_goalie_out = false;
            true
        } else if self.user2.account_id == *account_id && self.user2.is_goalie_out {
            self.user2.is_goalie_out = false;
            true
        } else {
            false
        }
    }

    /// The side of `account_id` changes how its unit `five_number` plays; refused when the
    /// account plays neither side or the side has no such unit.
    pub fn change_tactic(&mut self, five_number: FiveNumber, tactic: Tactics, account_id: &String) -> (r: Result<(), ManageError>)
        ensures
            match old(self).side_of(account_id@) {
                None => r == Err::<(), ManageError>(ManageError::AccountNotFound),
                Some(u) => if old(self).user(u).team.has_five(five_number) {
                    r is Ok && *final(self) == old(self).with_team(u, final(self).user(u).team)
                        && spec_five_set(old(self).user(u).team, final(self).user(u).team, five_number,
                            FiveIds { tactic, ..old(self).user(u).team.five(five_number) })
                } else {
                    r == Err::<(), ManageError>(ManageError::FiveNotFound)
                },
            },
            r is Err ==> *final(self) == *old(self),
    {
        let found = if self.user1.account_id == *account_id {
            self.user1.team.set_five_tactic(five_number, tactic)
        } else if self.user2.account_id == *account_id {
            self.user2.team.set_five_tactic(five_number, tactic)
        } else {
            return Err(ManageError::AccountNotFound);
        };
        if found { Ok(()) } else { Err(ManageError::FiveNotFound) }
    }

    /// The side of `account_id` changes how long its unit `five` stays on the ice; refused
    /// when the side has no such unit. Nothing changes for an account that plays neither
    /// side.
    pub fn change_ice_priority(&mut self, ice_time_priority: IceTimePriority, five: FiveNumber, account_id: &String) -> (r: Result<(), ManageError>)
        ensures
            match old(self).side_of(account_id@) {
                None => r is Ok && *final(self) == *old(self),
                Some(u) => if old(self).user(u).team.has_five(five) {
                    r is Ok && *final(self) == old(self).with_team(u, final(self).user(u).team)
                        && spec_five_set(old(self).user(u).team, final(self).user(u).team, five,
                            FiveIds { ice_time_priority, ..old(self).user(u).team.five(five) })
                } else {
                    r == Err::<(), ManageError>(ManageError::FiveNotFound)
                },
            },
            r is Err ==> *final(self) == *old(self),
    {
        let found = if self.user1.account_id == *account_id {
            self.user1.team.set_five_ice_time_priority(five, ice_time_priority)
        } else if self.user2.account_id == *account_id {
            self.user2.team.set_five_ice_time_priority(five, ice_time_priority)
        } else {
            true
        };
        if found { Ok(()) } else { Err(ManageError::FiveNotFound) }
    }

    /// The side of `account_id` exchanges the players at two positions of its unit
    /// `number_five`; refused when there is no such unit or no player at either position.
    /// Nothing changes for an account that plays neither side.
    pub fn change_positions(&mut self, number_five: FiveNumber, account_id: &String, position1: PlayerPosition, position2: PlayerPosition) -> (r: Result<(), ManageError>)
        ensures
            match old(self).side_of(account_id@) {
                None => r is Ok && *final(self) == *old(self),
                Some(u) => {
                    let t = old(self).user(u).team;
                    &&& !t.has_five(number_five) ==> r == Err::<(), ManageError>(ManageError::FiveNotFound)
                    &&& t.has_five(number_five) && (t.five(number_five).field_players.slot(position1) is None
                        || t.five(number_five).field_players.slot(position2) is None) ==>
                        r == Err::<(), ManageError>(ManageError::PositionNotFound)
                    &&& t.has_five(number_five) && t.five(number_five).field_players.slot(position1) is Some
                        && t.five(number_five).field_players.slot(position2) is Some ==> r is Ok
                    &&& r is Ok ==> *final(self) == old(self).with_team(u, final(self).user(u).team)
                        && spec_five_set(t, final(self).user(u).team, number_five, FiveIds {
                            field_players: spec_lineup_swapped(t.five(number_five).field_players, position1, position2),
                            ..t.five(number_five)
                        })
                },
            },
            r is Err ==> *final(self) == *old(self),
    {
        if self.user1.account_id == *account_id {
            self.user1.team.swap_positions(number_five, position1, position2)
        } else if self.user2.account_id == *account_id {
            self.user2.team.swap_positions(number_five, position1, position2)
        } else {
            Ok(())
        }
    }
}

/// Whether `g`'s side of `account_id` changes its goalie's place to out (`out`) or back.
pub open spec fn self_pulls(g: Game, account_id: Seq<char>, out: bool) -> bool {
    (g.user1.account_id@ == account_id && g.user1.is_goalie_out != out)
        || (g.user2.account_id@ == account_id && g.user2.is_goalie_out != out)
}

} // verus!

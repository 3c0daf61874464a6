use vstd::prelude::*;
use crate::game::field_player::FieldPlayer;
use crate::game::five::FiveIds;
use crate::game::goalie::Goalie;
use crate::game::player::PlayerPosition;
use crate::game::stats::{FieldPlayerStats, GoalieStats};
use crate::game::team::{Goalies, Team, spec_has_player, spec_id_is, spec_first_player, spec_player_index, lemma_player_found, lemma_first_player_unique};

verus! {

/// How many positions of the units `fives` hold the token id `id`.
pub open spec fn spec_occurrences(fives: Seq<FiveIds>, id: Seq<char>) -> int
    decreases fives.len(),
{
    if fives.len() == 0 {
        0
    } else {
        spec_occurrences(fives.drop_last(), id) + fives.last().field_players.spec_count_id(id)
    }
}

pub proof fn lemma_occurrences_nonneg(fives: Seq<FiveIds>, id: Seq<char>)
    ensures
        spec_occurrences(fives, id) >= 0,
    decreases fives.len(),
{
    if fives.len() > 0 {
        lemma_occurrences_nonneg(fives.drop_last(), id);
    }
}

/// How many positions of the units `fives` hold the player `p`.
pub open spec fn spec_player_occurrences(fives: Seq<FiveIds>, p: FieldPlayer) -> int {
    match p.id {
        Some(id) => spec_occurrences(fives, id@),
        None => 0,
    }
}

/// Whether every token id of the units `fives` is a player of `players`.
pub open spec fn spec_unit_ids_known(fives: Seq<FiveIds>, players: Seq<FieldPlayer>) -> bool {
    forall|k: int, pos: PlayerPosition| 0 <= k < fives.len() ==>
        (#[trigger] fives[k].field_players.slot(pos) matches Some(x) ==> spec_has_player(players, x@))
}

/// The player with his morale set to `morale`.
pub open spec fn spec_with_morale(p: FieldPlayer, morale: int) -> FieldPlayer {
    FieldPlayer { stats: FieldPlayerStats { morale: morale as u8, ..p.stats }, ..p }
}

/// The goalie, if any, with his morale changed by `delta`.
pub open spec fn spec_goalie_morale(g: Option<Goalie>, delta: int) -> Option<Goalie> {
    match g {
        Some(g) => Some(Goalie { stats: GoalieStats { morale: (g.stats.morale + delta) as u8, ..g.stats }, ..g }),
        None => None,
    }
}

/// The morale a goalie can lose or gain without leaving 0..=255.
pub open spec fn spec_goalie_morale_fits(g: Option<Goalie>, delta: int) -> bool {
    match g {
        Some(g) => 0 <= g.stats.morale + delta <= 255,
        None => true,
    }
}

/// Whether the morale of the team `t` can change by `delta` for every position each
/// player holds in the units, and by `delta` for each goalie, staying in 0..=255: the
/// team has at most eight units, all holding its players.
pub open spec fn spec_morale_fits(t: Team, delta: int) -> bool {
    &&& t.fives.len() <= 8
    &&& spec_unit_ids_known(t.fives@, t.field_players@)
    &&& forall|i: int| 0 <= i < t.field_players.len() ==>
        0 <= (#[trigger] t.field_players@[i]).stats.morale + delta * spec_player_occurrences(t.fives@, t.field_players@[i]) <= 255
    &&& spec_goalie_morale_fits(t.goalies.main_goalkeeper, delta)
    &&& spec_goalie_morale_fits(t.goalies.substitute_goalkeeper, delta)
}

/// `after` is the team `before` with the morale of each player changed by `delta` for
/// every position he holds in the units, and that of each goalie by `delta`.
pub open spec fn spec_morale_changed(before: Team, after: Team, delta: int) -> bool {
    &&& after.field_players.len() == before.field_players.len()
    &&& forall|i: int| 0 <= i < before.field_players.len() ==> #[trigger] after.field_players@[i]
        == spec_with_morale(before.field_players@[i], before.field_players@[i].stats.morale
            + delta * spec_player_occurrences(before.fives@, before.field_players@[i]))
    &&& after.goalies == (Goalies {
        main_goalkeeper: spec_goalie_morale(before.goalies.main_goalkeeper, delta),
        substitute_goalkeeper: spec_goalie_morale(before.goalies.substitute_goalkeeper, delta),
    })
    &&& after == (Team { field_players: after.field_players, goalies: after.goalies, ..before })
}

/// A change of morale keeps who is in the team, and each player but for his morale.
pub proof fn lemma_morale_keeps_players(before: Team, after: Team, delta: int)
    requires
        spec_morale_changed(before, after, delta),
    ensures
        forall|x: Seq<char>| #[trigger] spec_has_player(after.field_players@, x) == spec_has_player(before.field_players@, x),
        forall|x: Seq<char>| spec_has_player(before.field_players@, x) ==>
            (#[trigger] after.player(x)).id == before.player(x).id
            && after.player(x).name == before.player(x).name
            && after.player(x).img == before.player(x).img
            && after.player(x).number == before.player(x).number
            && after.player(x).user_id == before.player(x).user_id,
{
    assert forall|x: Seq<char>| #[trigger] spec_has_player(after.field_players@, x) == spec_has_player(before.field_players@, x) by {
        if spec_has_player(before.field_players@, x) {
            let k = choose|k: int| 0 <= k < before.field_players@.len() && spec_id_is(#[trigger] before.field_players@[k], x);
            assert(spec_id_is(after.field_players@[k], x));
        }
        if spec_has_player(after.field_players@, x) {
            let k = choose|k: int| 0 <= k < after.field_players@.len() && spec_id_is(#[trigger] after.field_players@[k], x);
            assert(spec_id_is(before.field_players@[k], x));
        }
    }
    assert forall|x: Seq<char>| spec_has_player(before.field_players@, x) implies
        (#[trigger] after.player(x)).id == before.player(x).id
        && after.player(x).name == before.player(x).name
        && after.player(x).img == before.player(x).img
        && after.player(x).number == before.player(x).number
        && after.player(x).user_id == before.player(x).user_id by {
        lemma_player_found(before.field_players@, x);
        let i = spec_player_index(before.field_players@, x);
        assert(spec_first_player(after.field_players@, x, i)) by {
            assert forall|k: int| 0 <= k < i implies !spec_id_is(#[trigger] after.field_players@[k], x) by {
                assert(!spec_id_is(before.field_players@[k], x));
            }
        }
        lemma_first_player_unique(after.field_players@, x, i);
    }
}

/// How many positions of the units `fives` hold the token id `id`.
pub fn count_occurrences(fives: &Vec<FiveIds>, id: &String) -> (n: usize)
    requires
        fives.len() <= 1000,
    ensures
        n == spec_occurrences(fives@, id@),
        n <= 7 * fives.len(),
{
    let mut n: usize = 0;
    let mut i: usize = 0;
    while i < fives.len()
        invariant
            i <= fives.len() <= 1000,
            n == spec_occurrences(fives@.take(i as int), id@),
            n <= 7 * i,
        decreases fives.len() - i,
    {
        let c = fives[i].field_players.count_id(id);
        assert(fives@.take(i + 1).drop_last() =~= fives@.take(i as int));
        n = n + c;
        i = i + 1;
    }
    assert(fives@.take(fives.len() as int) =~= fives@);
    n
}

impl Team {
    proof fn lemma_occurrences_of_players(&self)
        ensures
            forall|i: int| 0 <= i < self.field_players.len() ==>
                spec_player_occurrences(self.fives@, #[trigger] self.field_players@[i]) >= 0,
    {
        assert forall|i: int| 0 <= i < self.field_players.len() implies
            spec_player_occurrences(self.fives@, #[trigger] self.field_players@[i]) >= 0 by {
            match self.field_players@[i].id {
                Some(id) => lemma_occurrences_nonneg(self.fives@, id@),
                None => {},
            }
        }
    }

    /// Changes the morale of each player by `per_position` for every position of the
    /// units that he holds.
    fn change_players_morale(&mut self, per_position: i32)
        requires
            per_position == -3 || per_position == 2,
            old(self).fives.len() <= 8,
            forall|i: int| 0 <= i < old(self).field_players.len() ==>
                0 <= (#[trigger] old(self).field_players@[i]).stats.morale
                    + per_position * spec_player_occurrences(old(self).fives@, old(self).field_players@[i]) <= 255,
        ensures
            final(self).field_players.len() == old(self).field_players.len(),
            forall|i: int| 0 <= i < old(self).field_players.len() ==> #[trigger] final(self).field_players@[i]
                == spec_with_morale(old(self).field_players@[i], old(self).field_players@[i].stats.morale
                    + per_position * spec_player_occurrences(old(self).fives@, old(self).field_players@[i])),
            *final(self) == (Team { field_players: final(self).field_players, ..*old(self) }),
    {
        let mut i: usize = 0;
        while i < self.field_players.len()
            invariant
                per_position == -3 || per_position == 2,
                self.fives.len() <= 8,
                i <= self.field_players.len(),
                self.field_players.len() == old(self).field_players.len(),
                forall|k: int| 0 <= k < old(self).field_players.len() ==>
                    0 <= (#[trigger] old(self).field_players@[k]).stats.morale
                        + per_position * spec_player_occurrences(old(self).fives@, old(self).field_players@[k]) <= 255,
                forall|k: int| 0 <= k < i ==> #[trigger] self.field_players@[k]
                    == spec_with_morale(old(self).field_players@[k], old(self).field_players@[k].stats.morale
                        + per_position * spec_player_occurrences(old(self).fives@, old(self).field_players@[k])),
                forall|k: int| i <= k < self.field_players.len() ==> #[trigger] self.field_players@[k] == old(self).field_players@[k],
                *self == (Team { field_players: self.field_players, ..*old(self) }),
            decreases self.field_players.len() - i,
        {
            let occ: usize = match &self.field_players[i].id {
                Some(id) => count_occurrences(&self.fives, id),
                None => 0,
            };
            let ghost before = self.field_players@;
            let mut player = self.field_players.remove(i);
            assert(player == old(self).field_players@[i as int]);
            let m: i32 = player.stats.morale as i32 + per_position * occ as i32;
            player.stats.morale = m as u8;
            self.field_players.insert(i, player);
            assert(self.field_players@ =~= before.update(i as int, self.field_players@[i as int]));
            i = i + 1;
        }
    }

    /// Lowers the morale of the team: each player loses 3 for every position of the
    /// units that he holds, each goalie loses 3.
    pub fn reduce_morale(&mut self)
        requires
            old(self).fives.len() <= 8,
            spec_unit_ids_known(old(self).fives@, old(self).field_players@),
            forall|i: int| 0 <= i < old(self).field_players.len() ==>
                (#[trigger] old(self).field_players@[i]).stats.morale
                    >= 3 * spec_player_occurrences(old(self).fives@, old(self).field_players@[i]),
            spec_goalie_morale_fits(old(self).goalies.main_goalkeeper, -3),
            spec_goalie_morale_fits(old(self).goalies.substitute_goalkeeper, -3),
        ensures
            final(self).field_players.len() == old(self).field_players.len(),
            forall|i: int| 0 <= i < old(self).field_players.len() ==> #[trigger] final(self).field_players@[i]
                == spec_with_morale(old(self).field_players@[i], old(self).field_players@[i].stats.morale
                    - 3 * spec_player_occurrences(old(self).fives@, old(self).field_players@[i])),
            final(self).goalies == (Goalies {
                main_goalkeeper: spec_goalie_morale(old(self).goalies.main_goalkeeper, -3),
                substitute_goalkeeper: spec_goalie_morale(old(self).goalies.substitute_goalkeeper, -3),
            }),
            *final(self) == (Team { field_players: final(self).field_players, goalies: final(self).goalies, ..*old(self) }),
            spec_morale_changed(*old(self), *final(self), -3),
    {
        proof { self.lemma_occurrences_of_players(); }
        self.change_players_morale(-3);
        self.change_goalies_morale(-3);
    }

    /// Raises the morale of the team: each player gains 2 for every position of the
    /// units that he holds, each goalie gains 2.
    pub fn increase_morale(&mut self)
        requires
            old(self).fives.len() <= 8,
            spec_unit_ids_known(old(self).fives@, old(self).field_players@),
            forall|i: int| 0 <= i < old(self).field_players.len() ==>
                (#[trigger] old(self).field_players@[i]).stats.morale
                    + 2 * spec_player_occurrences(old(self).fives@, old(self).field_players@[i]) <= 255,
            spec_goalie_morale_fits(old(self).goalies.main_goalkeeper, 2),
            spec_goalie_morale_fits(old(self).goalies.substitute_goalkeeper, 2),
        ensures
            final(self).field_players.len() == old(self).field_players.len(),
            forall|i: int| 0 <= i < old(self).field_players.len() ==> #[trigger] final(self).field_players@[i]
                == spec_with_morale(old(self).field_players@[i], old(self).field_players@[i].stats.morale
                    + 2 * spec_player_occurrences(old(self).fives@, old(self).field_players@[i])),
            final(self).goalies == (Goalies {
                main_goalkeeper: spec_goalie_morale(old(self).goalies.main_goalkeeper, 2),
                substitute_goalkeeper: spec_goalie_morale(old(self).goalies.substitute_goalkeeper, 2),
            }),
            *final(self) == (Team { field_players: final(self).field_players, goalies: final(self).goalies, ..*old(self) }),
            spec_morale_changed(*old(self), *final(self), 2),
    {
        proof { self.lemma_occurrences_of_players(); }
        self.change_players_morale(2);
        self.change_goalies_morale(2);
    }

    fn change_goalies_morale(&mut self, delta: i32)
        requires
            delta == -3 || delta == 2,
            spec_goalie_morale_fits(old(self).goalies.main_goalkeeper, delta as int),
            spec_goalie_morale_fits(old(self).goalies.substitute_goalkeeper, delta as int),
        ensures
            final(self).goalies == (Goalies {
                main_goalkeeper: spec_goalie_morale(old(self).goalies.main_goalkeeper, delta as int),
                substitute_goalkeeper: spec_goalie_morale(old(self).goalies.substitute_goalkeeper, delta as int),
            }),
            *final(self) == (Team { goalies: final(self).goalies, ..*old(self) }),
    {
        match self.goalies.main_goalkeeper.take() {
            Some(mut g) => {
                g.stats.morale = (g.stats.morale as i32 + delta) as u8;
                self.goalies.main_goalkeeper = Some(g);
            },
            None => {},
        }
        match self.goalies.substitute_goalkeeper.take() {
            Some(mut g) => {
                g.stats.morale = (g.stats.morale as i32 + delta) as u8;
                self.goalies.substitute_goalkeeper = Some(g);
            },
            None => {},
        }
    }
}

} // verus!

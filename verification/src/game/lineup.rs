use vstd::prelude::*;
use crate::game::player::PlayerPosition;

verus! {

/// The order in which the positions of a unit are visited.
pub open spec fn spec_all_positions() -> Seq<PlayerPosition> {
    seq![
        PlayerPosition::Center,
        PlayerPosition::LeftWing,
        PlayerPosition::RightWing,
        PlayerPosition::LeftDefender,
        PlayerPosition::RightDefender,
        PlayerPosition::AdditionalPosition,
        PlayerPosition::GoaliePos,
    ]
}

/// The position visited at step `i` (0 to 6).
pub fn position_at(i: usize) -> (p: PlayerPosition)
    requires
        i < 7,
    ensures
        p == spec_all_positions()[i as int],
{
    match i {
        0 => PlayerPosition::Center,
        1 => PlayerPosition::LeftWing,
        2 => PlayerPosition::RightWing,
        3 => PlayerPosition::LeftDefender,
        4 => PlayerPosition::RightDefender,
        5 => PlayerPosition::AdditionalPosition,
        _ => PlayerPosition::GoaliePos,
    }
}

pub proof fn lemma_all_positions()
    ensures
        spec_all_positions().len() == 7,
        forall|p: PlayerPosition| #[trigger] spec_all_positions().contains(p),
        forall|i: int, j: int| 0 <= i < 7 && 0 <= j < 7 && i != j ==>
            #[trigger] spec_all_positions()[i] != #[trigger] spec_all_positions()[j],
{
    assert forall|p: PlayerPosition| #[trigger] spec_all_positions().contains(p) by {
        match p {
            PlayerPosition::Center => assert(spec_all_positions()[0] == p),
            PlayerPosition::LeftWing => assert(spec_all_positions()[1] == p),
            PlayerPosition::RightWing => assert(spec_all_positions()[2] == p),
            PlayerPosition::LeftDefender => assert(spec_all_positions()[3] == p),
            PlayerPosition::RightDefender => assert(spec_all_positions()[4] == p),
            PlayerPosition::AdditionalPosition => assert(spec_all_positions()[5] == p),
            PlayerPosition::GoaliePos => assert(spec_all_positions()[6] == p),
        }
    }
}

/// Whether a slot holds a real player: a token id that is not empty.
pub open spec fn spec_filled(slot: Option<String>) -> bool {
    slot matches Some(id) && id@.len() > 0
}

/// Two units with the same token id at each position are equal.
pub proof fn lemma_lineup_ext(a: Lineup, b: Lineup)
    requires
        forall|p: PlayerPosition| #[trigger] a.slot(p) == b.slot(p),
    ensures
        a == b,
{
    assert(a.slot(PlayerPosition::Center) == b.slot(PlayerPosition::Center));
    assert(a.slot(PlayerPosition::LeftWing) == b.slot(PlayerPosition::LeftWing));
    assert(a.slot(PlayerPosition::RightWing) == b.slot(PlayerPosition::RightWing));
    assert(a.slot(PlayerPosition::LeftDefender) == b.slot(PlayerPosition::LeftDefender));
    assert(a.slot(PlayerPosition::RightDefender) == b.slot(PlayerPosition::RightDefender));
    assert(a.slot(PlayerPosition::AdditionalPosition) == b.slot(PlayerPosition::AdditionalPosition));
    assert(a.slot(PlayerPosition::GoaliePos) == b.slot(PlayerPosition::GoaliePos));
}

/// What a unit changed at one position holds at each position.
pub proof fn lemma_with_slot(l: Lineup, pos: PlayerPosition, v: Option<String>)
    ensures
        forall|q: PlayerPosition| #[trigger] l.with_slot(pos, v).slot(q) == (if q == pos { v } else { l.slot(q) }),
{
    assert forall|q: PlayerPosition| #[trigger] l.with_slot(pos, v).slot(q) == (if q == pos { v } else { l.slot(q) }) by {
        match pos {
            PlayerPosition::Center => {},
            PlayerPosition::LeftWing => {},
            PlayerPosition::RightWing => {},
            PlayerPosition::LeftDefender => {},
            PlayerPosition::RightDefender => {},
            PlayerPosition::AdditionalPosition => {},
            PlayerPosition::GoaliePos => {},
        }
    }
}

/// Whether `p` is among `positions`.
pub fn contains_position(positions: &Vec<PlayerPosition>, p: PlayerPosition) -> (b: bool)
    ensures
        b == positions@.contains(p),
{
    let mut i: usize = 0;
    while i < positions.len()
        invariant
            i <= positions.len(),
            forall|k: int| 0 <= k < i ==> #[trigger] positions@[k] != p,
        decreases positions.len() - i,
    {
        if positions[i] == p {
            return true;
        }
        i = i + 1;
    }
    false
}

/// Whether a slot holds the token id `id`.
pub fn same_id(slot: &Option<String>, id: &String) -> (b: bool)
    ensures
        b == (slot matches Some(x) && x@ == id@),
{
    match slot {
        Some(x) => *x == *id,
        None => false,
    }
}

/// A copy of a slot.
pub fn copy_slot(slot: &Option<String>) -> (r: Option<String>)
    ensures
        r == *slot,
{
    match slot {
        Some(id) => Some(id.clone()),
        None => None,
    }
}

/// Whether a slot holds the empty token id, the mark of a missing player.
pub open spec fn spec_blank(slot: Option<String>) -> bool {
    slot matches Some(id) && id@.len() == 0
}

pub open spec fn spec_indicator(b: bool) -> int {
    if b { 1 } else { 0 }
}

/// The players of a unit by position: the token id of the card at each position, if any.
pub struct Lineup {
    pub center: Option<String>,
    pub left_wing: Option<String>,
    pub right_wing: Option<String>,
    pub left_defender: Option<String>,
    pub right_defender: Option<String>,
    pub additional_position: Option<String>,
    pub goalie_pos: Option<String>,
}

impl Lineup {
    /// The token id at a position.
    pub open spec fn slot(self, pos: PlayerPosition) -> Option<String> {
        match pos {
            PlayerPosition::Center => self.center,
            PlayerPosition::LeftWing => self.left_wing,
            PlayerPosition::RightWing => self.right_wing,
            PlayerPosition::LeftDefender => self.left_defender,
            PlayerPosition::RightDefender => self.right_defender,
            PlayerPosition::AdditionalPosition => self.additional_position,
            PlayerPosition::GoaliePos => self.goalie_pos,
        }
    }

    /// The unit with `v` at `pos` and the other positions unchanged.
    pub open spec fn with_slot(self, pos: PlayerPosition, v: Option<String>) -> Lineup {
        match pos {
            PlayerPosition::Center => Lineup { center: v, ..self },
            PlayerPosition::LeftWing => Lineup { left_wing: v, ..self },
            PlayerPosition::RightWing => Lineup { right_wing: v, ..self },
            PlayerPosition::LeftDefender => Lineup { left_defender: v, ..self },
            PlayerPosition::RightDefender => Lineup { right_defender: v, ..self },
            PlayerPosition::AdditionalPosition => Lineup { additional_position: v, ..self },
            PlayerPosition::GoaliePos => Lineup { goalie_pos: v, ..self },
        }
    }

    /// The text of the token id at a position.
    pub open spec fn at(self, pos: PlayerPosition) -> Option<Seq<char>> {
        match self.slot(pos) {
            Some(id) => Some(id@),
            None => None,
        }
    }

    /// The positions and token ids, as a map.
    pub open spec fn view_map(self) -> Map<PlayerPosition, Seq<char>> {
        Map::new(|p: PlayerPosition| self.slot(p) is Some, |p: PlayerPosition| self.slot(p)->0@)
    }

    /// How many positions hold a token id.
    pub open spec fn spec_len(self) -> int {
        spec_indicator(self.center is Some) + spec_indicator(self.left_wing is Some)
            + spec_indicator(self.right_wing is Some) + spec_indicator(self.left_defender is Some)
            + spec_indicator(self.right_defender is Some) + spec_indicator(self.additional_position is Some)
            + spec_indicator(self.goalie_pos is Some)
    }

    /// How many positions hold a real player.
    pub open spec fn spec_filled_count(self) -> int {
        spec_indicator(spec_filled(self.center)) + spec_indicator(spec_filled(self.left_wing))
            + spec_indicator(spec_filled(self.right_wing)) + spec_indicator(spec_filled(self.left_defender))
            + spec_indicator(spec_filled(self.right_defender))
            + spec_indicator(spec_filled(self.additional_position)) + spec_indicator(spec_filled(self.goalie_pos))
    }

    /// How many positions hold the token id `id`.
    pub open spec fn spec_count_id(self, id: Seq<char>) -> int {
        spec_indicator(self.at(PlayerPosition::Center) == Some(id))
            + spec_indicator(self.at(PlayerPosition::LeftWing) == Some(id))
            + spec_indicator(self.at(PlayerPosition::RightWing) == Some(id))
            + spec_indicator(self.at(PlayerPosition::LeftDefender) == Some(id))
            + spec_indicator(self.at(PlayerPosition::RightDefender) == Some(id))
            + spec_indicator(self.at(PlayerPosition::AdditionalPosition) == Some(id))
            + spec_indicator(self.at(PlayerPosition::GoaliePos) == Some(id))
    }

    /// How many positions hold the empty token id.
    pub open spec fn spec_blank_count(self) -> int {
        spec_indicator(spec_blank(self.center)) + spec_indicator(spec_blank(self.left_wing))
            + spec_indicator(spec_blank(self.right_wing)) + spec_indicator(spec_blank(self.left_defender))
            + spec_indicator(spec_blank(self.right_defender))
            + spec_indicator(spec_blank(self.additional_position)) + spec_indicator(spec_blank(self.goalie_pos))
    }

    /// A unit with no player.
    pub fn new() -> (l: Lineup)
        ensures
            forall|p: PlayerPosition| #[trigger] l.slot(p) is None,
    {
        Lineup {
            center: None,
            left_wing: None,
            right_wing: None,
            left_defender: None,
            right_defender: None,
            additional_position: None,
            goalie_pos: None,
        }
    }

    /// The token id at a position.
    pub fn get(&self, pos: &PlayerPosition) -> (r: Option<String>)
        ensures
            r == self.slot(*pos),
    {
        let slot = match pos {
            PlayerPosition::Center => &self.center,
            PlayerPosition::LeftWing => &self.left_wing,
            PlayerPosition::RightWing => &self.right_wing,
            PlayerPosition::LeftDefender => &self.left_defender,
            PlayerPosition::RightDefender => &self.right_defender,
            PlayerPosition::AdditionalPosition => &self.additional_position,
            PlayerPosition::GoaliePos => &self.goalie_pos,
        };
        match slot {
            Some(id) => Some(id.clone()),
            None => None,
        }
    }

    /// A copy of the unit.
    pub fn duplicate(&self) -> (r: Lineup)
        ensures
            r == *self,
    {
        Lineup {
            center: copy_slot(&self.center),
            left_wing: copy_slot(&self.left_wing),
            right_wing: copy_slot(&self.right_wing),
            left_defender: copy_slot(&self.left_defender),
            right_defender: copy_slot(&self.right_defender),
            additional_position: copy_slot(&self.additional_position),
            goalie_pos: copy_slot(&self.goalie_pos),
        }
    }

    /// The positions that hold a token id, among the first `i` in visiting order.
    pub open spec fn present_upto(self, i: int) -> Seq<PlayerPosition>
        decreases i,
    {
        if i <= 0 {
            Seq::empty()
        } else if self.slot(spec_all_positions()[i - 1]) is Some {
            self.present_upto(i - 1).push(spec_all_positions()[i - 1])
        } else {
            self.present_upto(i - 1)
        }
    }

    /// The token ids held by the first `i` positions, in visiting order.
    pub open spec fn ids_upto(self, i: int) -> Seq<Seq<char>>
        decreases i,
    {
        if i <= 0 {
            Seq::empty()
        } else {
            match self.slot(spec_all_positions()[i - 1]) {
                Some(id) => self.ids_upto(i - 1).push(id@),
                None => self.ids_upto(i - 1),
            }
        }
    }

    /// The token ids of the unit, in visiting order.
    pub open spec fn ids(self) -> Seq<Seq<char>> {
        self.ids_upto(7)
    }

    /// The token ids of the unit, in visiting order.
    pub fn id_list(&self) -> (r: Vec<String>)
        ensures
            r@.map_values(|s: String| s@) == self.ids(),
    {
        let mut r: Vec<String> = Vec::new();
        let mut i: usize = 0;
        while i < 7
            invariant
                i <= 7,
                r@.map_values(|s: String| s@) == self.ids_upto(i as int),
            decreases 7 - i,
        {
            let p = position_at(i);
            match self.get(&p) {
                Some(id) => {
                    r.push(id);
                    assert(r@.map_values(|s: String| s@) =~= self.ids_upto(i as int + 1));
                },
                None => {},
            }
            i = i + 1;
        }
        r
    }

    /// The positions that hold a token id, in visiting order.
    pub open spec fn present_positions(self) -> Seq<PlayerPosition> {
        self.present_upto(7)
    }

    /// The positions that hold a token id, in visiting order.
    pub fn positions(&self) -> (r: Vec<PlayerPosition>)
        ensures
            r@ == self.present_positions(),
    {
        let mut r: Vec<PlayerPosition> = Vec::new();
        let mut i: usize = 0;
        while i < 7
            invariant
                i <= 7,
                r@ == self.present_upto(i as int),
            decreases 7 - i,
        {
            let p = position_at(i);
            if self.get(&p).is_some() {
                r.push(p);
            }
            i = i + 1;
        }
        r
    }

    /// Puts the token id `id` at `pos`, replacing what was there.
    pub fn insert(&mut self, pos: PlayerPosition, id: String)
        ensures
            final(self).slot(pos) == Some(id),
            forall|p: PlayerPosition| p != pos ==> #[trigger] final(self).slot(p) == old(self).slot(p),
    {
        match pos {
            PlayerPosition::Center => self.center = Some(id),
            PlayerPosition::LeftWing => self.left_wing = Some(id),
            PlayerPosition::RightWing => self.right_wing = Some(id),
            PlayerPosition::LeftDefender => self.left_defender = Some(id),
            PlayerPosition::RightDefender => self.right_defender = Some(id),
            PlayerPosition::AdditionalPosition => self.additional_position = Some(id),
            PlayerPosition::GoaliePos => self.goalie_pos = Some(id),
        }
    }

    /// Empties `pos` and returns what was there.
    pub fn remove(&mut self, pos: &PlayerPosition) -> (r: Option<String>)
        ensures
            r == old(self).slot(*pos),
            final(self).slot(*pos) is None,
            forall|p: PlayerPosition| p != *pos ==> #[trigger] final(self).slot(p) == old(self).slot(p),
    {
        match pos {
            PlayerPosition::Center => self.center.take(),
            PlayerPosition::LeftWing => self.left_wing.take(),
            PlayerPosition::RightWing => self.right_wing.take(),
            PlayerPosition::LeftDefender => self.left_defender.take(),
            PlayerPosition::RightDefender => self.right_defender.take(),
            PlayerPosition::AdditionalPosition => self.additional_position.take(),
            PlayerPosition::GoaliePos => self.goalie_pos.take(),
        }
    }

    /// Empties every position.
    pub fn clear(&mut self)
        ensures
            forall|p: PlayerPosition| #[trigger] final(self).slot(p) is None,
    {
        *self = Lineup::new();
    }

    /// How many positions hold the token id `id`.
    #[verifier::spinoff_prover]
    #[verifier::rlimit(50)]
    pub fn count_id(&self, id: &String) -> (n: usize)
        ensures
            n == self.spec_count_id(id@),
            n <= 7,
    {
        let c1: usize = if same_id(&self.center, id) { 1 } else { 0 };
        let c2: usize = if same_id(&self.left_wing, id) { 1 } else { 0 };
        let c3: usize = if same_id(&self.right_wing, id) { 1 } else { 0 };
        let c4: usize = if same_id(&self.left_defender, id) { 1 } else { 0 };
        let c5: usize = if same_id(&self.right_defender, id) { 1 } else { 0 };
        let c6: usize = if same_id(&self.additional_position, id) { 1 } else { 0 };
        let c7: usize = if same_id(&self.goalie_pos, id) { 1 } else { 0 };
        c1 + c2 + c3 + c4 + c5 + c6 + c7
    }

    /// How many positions hold a token id.
    pub fn len(&self) -> (n: usize)
        ensures
            n == self.spec_len(),
    {
        let mut n: usize = 0;
        if self.center.is_some() { n = n + 1; }
        if self.left_wing.is_some() { n = n + 1; }
        if self.right_wing.is_some() { n = n + 1; }
        if self.left_defender.is_some() { n = n + 1; }
        if self.right_defender.is_some() { n = n + 1; }
        if self.additional_position.is_some() { n = n + 1; }
        if self.goalie_pos.is_some() { n = n + 1; }
        n
    }

    /// How many positions hold a real player (a token id that is not empty).
    pub fn count_filled(&self) -> (n: usize)
        ensures
            n == self.spec_filled_count(),
    {
        let mut n: usize = 0;
        let mut i: usize = 0;
        while i < 7
            invariant
                i <= 7,
                n <= i,
                n == self.count_filled_upto(i as int),
            decreases 7 - i,
        {
            let p = position_at(i);
            match self.get(&p) {
                Some(id) => {
                    if !id.as_str().is_empty() {
                        n = n + 1;
                    }
                },
                None => {},
            }
            i = i + 1;
        }
        proof { reveal_with_fuel(Lineup::count_filled_upto, 8); }
        n
    }

    pub open spec fn count_filled_upto(self, i: int) -> int
        decreases i,
    {
        if i <= 0 {
            0
        } else {
            self.count_filled_upto(i - 1) + spec_indicator(spec_filled(self.slot(spec_all_positions()[i - 1])))
        }
    }

    pub open spec fn count_blank_upto(self, i: int) -> int
        decreases i,
    {
        if i <= 0 {
            0
        } else {
            self.count_blank_upto(i - 1) + spec_indicator(spec_blank(self.slot(spec_all_positions()[i - 1])))
        }
    }

    /// How many positions hold the empty token id.
    pub fn count_blank(&self) -> (n: usize)
        ensures
            n == self.spec_blank_count(),
    {
        let mut n: usize = 0;
        let mut i: usize = 0;
        while i < 7
            invariant
                i <= 7,
                n <= i,
                n == self.count_blank_upto(i as int),
            decreases 7 - i,
        {
            let p = position_at(i);
            match self.get(&p) {
                Some(id) => {
                    if id.as_str().is_empty() {
                        n = n + 1;
                    }
                },
                None => {},
            }
            i = i + 1;
        }
        proof { reveal_with_fuel(Lineup::count_blank_upto, 8); }
        n
    }

    /// The first of the first `i` positions, in visiting order, that holds the token id `id`.
    pub open spec fn find_upto(self, id: Seq<char>, i: int) -> Option<PlayerPosition>
        decreases i,
    {
        if i <= 0 {
            None
        } else {
            let prev = self.find_upto(id, i - 1);
            if prev is Some {
                prev
            } else if self.at(spec_all_positions()[i - 1]) == Some(id) {
                Some(spec_all_positions()[i - 1])
            } else {
                None
            }
        }
    }

    /// The first position, in visiting order, that holds the token id `id`.
    pub open spec fn spec_find(self, id: Seq<char>) -> Option<PlayerPosition> {
        self.find_upto(id, 7)
    }

    pub proof fn lemma_find_upto_stable(self, id: Seq<char>, i: int, j: int)
        requires
            0 <= i <= j,
            self.find_upto(id, i) is Some,
        ensures
            self.find_upto(id, j) == self.find_upto(id, i),
        decreases j - i,
    {
        if i < j {
            self.lemma_find_upto_stable(id, i, j - 1);
        }
    }

    pub proof fn lemma_find_upto_none(self, id: Seq<char>, i: int)
        requires
            0 <= i <= 7,
            self.find_upto(id, i) is None,
        ensures
            forall|k: int| 0 <= k < i ==> self.at(#[trigger] spec_all_positions()[k]) != Some(id),
        decreases i,
    {
        if i > 0 {
            self.lemma_find_upto_none(id, i - 1);
        }
    }

    pub proof fn lemma_find_upto_some(self, id: Seq<char>, i: int)
        requires
            0 <= i <= 7,
            self.find_upto(id, i) is Some,
        ensures
            self.at(self.find_upto(id, i)->0) == Some(id),
        decreases i,
    {
        if i > 0 && self.find_upto(id, i - 1) is Some {
            self.lemma_find_upto_some(id, i - 1);
        }
    }

    /// The first position, in visiting order, that holds the token id `id`.
    pub fn find(&self, id: &String) -> (r: Option<PlayerPosition>)
        ensures
            r == self.spec_find(id@),
            r matches Some(p) ==> self.at(p) == Some(id@),
            r is None ==> forall|p: PlayerPosition| #[trigger] self.at(p) != Some(id@),
    {
        let mut i: usize = 0;
        while i < 7
            invariant
                i <= 7,
                self.find_upto(id@, i as int) is None,
            decreases 7 - i,
        {
            let p = position_at(i);
            match self.get(&p) {
                Some(other) => {
                    if other == *id {
                        proof {
                            assert(self.find_upto(id@, i + 1) == Some(p));
                            self.lemma_find_upto_stable(id@, i + 1, 7);
                        }
                        return Some(p);
                    }
                },
                None => {},
            }
            assert(self.find_upto(id@, i + 1) is None);
            i = i + 1;
        }
        proof {
            self.lemma_find_upto_none(id@, 7);
            lemma_all_positions();
            assert forall|p: PlayerPosition| #[trigger] self.at(p) != Some(id@) by {
                assert(spec_all_positions().contains(p));
                let k = choose|k: int| 0 <= k < 7 && spec_all_positions()[k] == p;
            }
        }
        None
    }
}

} // verus!

use vstd::prelude::*;
use crate::game::player::{GoalieSubstitution, PlayerPosition};
use crate::game::tactics::{IceTimePriority, Tactics};

verus! {

/// The number of units on a team sheet.
pub const NUMBER_OF_FIVES: usize = 8;

/// The units of a team sheet: four lines, two power-play and two penalty-kill units.
#[derive(PartialEq, Eq, Structural, Clone, Copy, Debug)]
pub enum NumberFive {
    First,
    Second,
    Third,
    Fourth,
    PowerPlay1,
    PowerPlay2,
    PenaltyKill1,
    PenaltyKill2,
}

/// The two goalies of a team sheet.
#[derive(PartialEq, Eq, Structural, Clone, Copy, Debug)]
pub enum NumberGoalie {
    MainGoalkeeper,
    SubstituteGoalkeeper,
}

/// A unit of a team sheet: the cards at each position, and how it plays.
pub struct FiveIds {
    pub field_players: Vec<(PlayerPosition, String)>,
    pub number: NumberFive,
    pub ice_time_priority: IceTimePriority,
    pub tactic: Tactics,
}

/// A team sheet: its units, its goalies, and the skaters who replace a pulled goalie.
pub struct TeamIds {
    pub fives: Vec<FiveIds>,
    pub goalies: Vec<(NumberGoalie, String)>,
    pub goalie_substitutions: Vec<(GoalieSubstitution, String)>,
}

/// Why a team sheet was refused.
#[derive(PartialEq, Eq, Structural, Clone, Copy, Debug)]
pub enum TeamError {
    WrongNumberOfFives,
    /// A unit has this many players where a penalty kill needs four and others five.
    WrongNumberOfFieldPlayers(usize),
    WrongNumberOfGoalkeepers,
    WrongNumberOfGoalieSubstitutions,
    /// The owner has no cards at all.
    NoTokens,
    /// A card of the sheet is not the owner's.
    NotOwner,
}

/// The number of players that a unit needs: four to kill a penalty, five otherwise.
pub open spec fn spec_required_players(number: NumberFive) -> usize {
    if number == NumberFive::PenaltyKill1 || number == NumberFive::PenaltyKill2 { 4 } else { 5 }
}

/// The ids of the cards `cards`.
pub open spec fn spec_card_views(cards: Seq<String>) -> Seq<Seq<char>> {
    cards.map_values(|s: String| s@)
}

/// The cards `ids`, checked one after the other against the cards `owned` of the owner.
pub open spec fn spec_owned_list(ids: Seq<String>, owned: Option<Seq<String>>) -> Result<Seq<String>, TeamError>
    decreases ids.len(),
{
    if ids.len() == 0 {
        Ok(Seq::empty())
    } else {
        match spec_owned_list(ids.drop_last(), owned) {
            Err(e) => Err(e),
            Ok(checked) => match owned {
                None => Err(TeamError::NoTokens),
                Some(o) => if spec_card_views(o).contains(ids.last()@) {
                    Ok(checked.push(ids.last()))
                } else {
                    Err(TeamError::NotOwner)
                },
            },
        }
    }
}

/// The cards of entries keyed by anything.
pub open spec fn spec_cards<K>(entries: Seq<(K, String)>) -> Seq<String> {
    entries.map_values(|e: (K, String)| e.1)
}

/// The cards of a unit once its number of players is checked.
pub open spec fn spec_five_checked(five: FiveIds, owned: Option<Seq<String>>) -> Result<Seq<String>, TeamError> {
    let n = five.field_players.len();
    if n != spec_required_players(five.number) {
        Err(TeamError::WrongNumberOfFieldPlayers(n))
    } else {
        spec_owned_list(spec_cards(five.field_players@), owned)
    }
}

/// The cards of the units `fives`, checked one unit after the other.
pub open spec fn spec_fives_checked(fives: Seq<FiveIds>, owned: Option<Seq<String>>) -> Result<Seq<String>, TeamError>
    decreases fives.len(),
{
    if fives.len() == 0 {
        Ok(Seq::empty())
    } else {
        match spec_fives_checked(fives.drop_last(), owned) {
            Err(e) => Err(e),
            Ok(checked) => match spec_five_checked(fives.last(), owned) {
                Err(e) => Err(e),
                Ok(more) => Ok(checked + more),
            },
        }
    }
}

/// What checking a team sheet against the cards `owned` of its owner gives: the cards of
/// the units, the goalies and the substitutes, in that order; or the first fault found,
/// checking first that there are eight units, then each unit's players, then that there
/// are two goalies, then their cards, then that there are two substitutes, then theirs.
pub open spec fn spec_team_checked(team: TeamIds, owned: Option<Seq<String>>) -> Result<Seq<String>, TeamError> {
    if team.fives.len() != NUMBER_OF_FIVES {
        Err(TeamError::WrongNumberOfFives)
    } else {
        match spec_fives_checked(team.fives@, owned) {
            Err(e) => Err(e),
            Ok(a) => if team.goalies.len() != 2 {
                Err(TeamError::WrongNumberOfGoalkeepers)
            } else {
                match spec_owned_list(spec_cards(team.goalies@), owned) {
                    Err(e) => Err(e),
                    Ok(b) => if team.goalie_substitutions.len() != 2 {
                        Err(TeamError::WrongNumberOfGoalieSubstitutions)
                    } else {
                        match spec_owned_list(spec_cards(team.goalie_substitutions@), owned) {
                            Err(e) => Err(e),
                            Ok(c) => Ok(a + b + c),
                        }
                    },
                }
            },
        }
    }
}

/// Whether `owned` holds the card `id`.
fn owns(owned: &Vec<String>, id: &String) -> (b: bool)
    ensures
        b == spec_card_views(owned@).contains(id@),
{
    let mut i: usize = 0;
    while i < owned.len()
        invariant
            i <= owned.len(),
            forall|k: int| 0 <= k < i ==> (#[trigger] owned@[k])@ != id@,
        decreases owned.len() - i,
    {
        if owned[i] == *id {
            assert(spec_card_views(owned@)[i as int] == id@);
            return true;
        }
        i = i + 1;
    }
    proof {
        if spec_card_views(owned@).contains(id@) {
            let k = choose|k: int| 0 <= k < owned@.len() && #[trigger] spec_card_views(owned@)[k] == id@;
            assert(owned@[k]@ == id@);
        }
    }
    false
}

/// Checks the cards of `entries` against the cards `owned` of the owner, one after the
/// other; the cards when all are his.
fn check_owned<K>(entries: &Vec<(K, String)>, owned: &Option<Vec<String>>) -> (r: Result<Vec<String>, TeamError>)
    ensures
        match spec_owned_list(spec_cards(entries@), match owned { Some(o) => Some(o@), None => None }) {
            Ok(ids) => r matches Ok(v) && v@ == ids,
            Err(e) => r == Err::<Vec<String>, TeamError>(e),
        },
{
    let ghost o = match owned { Some(o) => Some(o@), None => None };
    let mut result: Vec<String> = Vec::new();
    let mut i: usize = 0;
    while i < entries.len()
        invariant
            i <= entries.len(),
            o == match owned { Some(o) => Some(o@), None => None::<Seq<String>> },
            spec_owned_list(spec_cards(entries@).take(i as int), o) == Ok::<Seq<String>, TeamError>(result@),
        decreases entries.len() - i,
    {
        assert(spec_cards(entries@).take(i + 1).drop_last() =~= spec_cards(entries@).take(i as int));
        let id = &entries[i].1;
        match owned {
            None => {
                assert(spec_owned_list(spec_cards(entries@), o) == Err::<Seq<String>, TeamError>(TeamError::NoTokens)) by {
                    lemma_owned_list_err(spec_cards(entries@), o, i as int + 1);
                }
                return Err(TeamError::NoTokens);
            },
            Some(v) => {
                if !owns(v, id) {
                    assert(spec_owned_list(spec_cards(entries@), o) == Err::<Seq<String>, TeamError>(TeamError::NotOwner)) by {
                        lemma_owned_list_err(spec_cards(entries@), o, i as int + 1);
                    }
                    return Err(TeamError::NotOwner);
                }
            },
        }
        result.push(id.clone());
        i = i + 1;
    }
    assert(spec_cards(entries@).take(entries.len() as int) =~= spec_cards(entries@));
    Ok(result)
}

/// A fault in the first `k` cards is the fault of the whole list.
proof fn lemma_owned_list_err(ids: Seq<String>, owned: Option<Seq<String>>, k: int)
    requires
        0 <= k <= ids.len(),
        spec_owned_list(ids.take(k), owned) is Err,
    ensures
        spec_owned_list(ids, owned) == spec_owned_list(ids.take(k), owned),
    decreases ids.len() - k,
{
    if k < ids.len() {
        assert(ids.take(k + 1).drop_last() =~= ids.take(k));
        lemma_owned_list_err(ids, owned, k + 1);
    } else {
        assert(ids.take(k) =~= ids);
    }
}

/// A fault in the first `k` units is the fault of all of them.
proof fn lemma_fives_err(fives: Seq<FiveIds>, owned: Option<Seq<String>>, k: int)
    requires
        0 <= k <= fives.len(),
        spec_fives_checked(fives.take(k), owned) is Err,
    ensures
        spec_fives_checked(fives, owned) == spec_fives_checked(fives.take(k), owned),
    decreases fives.len() - k,
{
    if k < fives.len() {
        assert(fives.take(k + 1).drop_last() =~= fives.take(k));
        lemma_fives_err(fives, owned, k + 1);
    } else {
        assert(fives.take(k) =~= fives);
    }
}

/// Checks a team sheet against the cards `owned` of its owner (see `spec_team_checked`);
/// the cards of the sheet when it is in order.
pub fn check_team_ids(team_ids: &TeamIds, owned: &Option<Vec<String>>) -> (r: Result<Vec<String>, TeamError>)
    ensures
        match spec_team_checked(*team_ids, match owned { Some(o) => Some(o@), None => None }) {
            Ok(ids) => r matches Ok(v) && v@ == ids,
            Err(e) => r == Err::<Vec<String>, TeamError>(e),
        },
{
    let ghost o = match owned { Some(o) => Some(o@), None => None };
    if team_ids.fives.len() != NUMBER_OF_FIVES {
        return Err(TeamError::WrongNumberOfFives);
    }
    let mut result: Vec<String> = Vec::new();
    let mut i: usize = 0;
    while i < team_ids.fives.len()
        invariant
            i <= team_ids.fives.len(),
            team_ids.fives.len() == NUMBER_OF_FIVES,
            o == match owned { Some(o) => Some(o@), None => None::<Seq<String>> },
            spec_fives_checked(team_ids.fives@.take(i as int), o) == Ok::<Seq<String>, TeamError>(result@),
        decreases team_ids.fives.len() - i,
    {
        assert(team_ids.fives@.take(i + 1).drop_last() =~= team_ids.fives@.take(i as int));
        assert(team_ids.fives@.take(i + 1).last() == team_ids.fives@[i as int]);
        let five = &team_ids.fives[i];
        let n = five.field_players.len();
        let required: usize = match five.number {
            NumberFive::PenaltyKill1 | NumberFive::PenaltyKill2 => 4,
            _ => 5,
        };
        if n != required {
            proof {
                assert(spec_five_checked(team_ids.fives@[i as int], o) == Err::<Seq<String>, TeamError>(TeamError::WrongNumberOfFieldPlayers(n)));
                lemma_fives_err(team_ids.fives@, o, i as int + 1);
            }
            return Err(TeamError::WrongNumberOfFieldPlayers(n));
        }
        match check_owned(&five.field_players, owned) {
            Err(e) => {
                proof { lemma_fives_err(team_ids.fives@, o, i as int + 1); }
                return Err(e);
            },
            Ok(mut ids) => {
                result.append(&mut ids);
            },
        }
        i = i + 1;
    }
    assert(team_ids.fives@.take(team_ids.fives.len() as int) =~= team_ids.fives@);
    if team_ids.goalies.len() != 2 {
        return Err(TeamError::WrongNumberOfGoalkeepers);
    }
    match check_owned(&team_ids.goalies, owned) {
        Err(e) => return Err(e),
        Ok(mut ids) => result.append(&mut ids),
    }
    if team_ids.goalie_substitutions.len() != 2 {
        return Err(TeamError::WrongNumberOfGoalieSubstitutions);
    }
    match check_owned(&team_ids.goalie_substitutions, owned) {
        Err(e) => return Err(e),
        Ok(mut ids) => result.append(&mut ids),
    }
    Ok(result)
}

/// The entries of `entries` whose card is not `id`, in their order.
pub open spec fn spec_without<K>(entries: Seq<(K, String)>, id: Seq<char>) -> Seq<(K, String)>
    decreases entries.len(),
{
    if entries.len() == 0 {
        Seq::empty()
    } else if entries.last().1@ == id {
        spec_without(entries.drop_last(), id)
    } else {
        spec_without(entries.drop_last(), id).push(entries.last())
    }
}

/// The entries of `entries` whose card is not `id`.
fn without<K: Copy>(entries: &Vec<(K, String)>, id: &String) -> (r: Vec<(K, String)>)
    ensures
        r@ == spec_without(entries@, id@),
{
    let mut result: Vec<(K, String)> = Vec::new();
    let mut i: usize = 0;
    while i < entries.len()
        invariant
            i <= entries.len(),
            result@ == spec_without(entries@.take(i as int), id@),
        decreases entries.len() - i,
    {
        assert(entries@.take(i + 1).drop_last() =~= entries@.take(i as int));
        assert(entries@.take(i + 1).last() == entries@[i as int]);
        if entries[i].1 != *id {
            result.push((entries[i].0, entries[i].1.clone()));
        }
        i = i + 1;
    }
    assert(entries@.take(entries.len() as int) =~= entries@);
    result
}

/// The sheet `team` with the card `id` taken off every unit, goalie and substitute.
pub open spec fn spec_token_removed(team: TeamIds, after: TeamIds, id: Seq<char>) -> bool {
    &&& after.fives.len() == team.fives.len()
    &&& forall|i: int| 0 <= i < team.fives.len() ==> {
        let f = #[trigger] after.fives@[i];
        &&& f.field_players@ == spec_without(team.fives@[i].field_players@, id)
        &&& f.number == team.fives@[i].number
        &&& f.ice_time_priority == team.fives@[i].ice_time_priority
        &&& f.tactic == team.fives@[i].tactic
    }
    &&& after.goalies@ == spec_without(team.goalies@, id)
    &&& after.goalie_substitutions@ == spec_without(team.goalie_substitutions@, id)
}

/// Takes the card `token_id` off the sheet, wherever it stands.
pub fn remove_token_from_team(team: &mut TeamIds, token_id: &String)
    ensures
        spec_token_removed(*old(team), *final(team), token_id@),
{
    let mut fives: Vec<FiveIds> = Vec::new();
    let mut i: usize = 0;
    while i < team.fives.len()
        invariant
            i <= team.fives.len(),
            *team == *old(team),
            fives.len() == i,
            forall|k: int| 0 <= k < i ==> {
                let f = #[trigger] fives@[k];
                &&& f.field_players@ == spec_without(team.fives@[k].field_players@, token_id@)
                &&& f.number == team.fives@[k].number
                &&& f.ice_time_priority == team.fives@[k].ice_time_priority
                &&& f.tactic == team.fives@[k].tactic
            },
        decreases team.fives.len() - i,
    {
        let five = &team.fives[i];
        fives.push(FiveIds {
            field_players: without(&five.field_players, token_id),
            number: five.number,
            ice_time_priority: five.ice_time_priority,
            tactic: five.tactic,
        });
        i = i + 1;
    }
    let goalies = without(&team.goalies, token_id);
    let goalie_substitutions = without(&team.goalie_substitutions, token_id);
    team.fives = fives;
    team.goalies = goalies;
    team.goalie_substitutions = goalie_substitutions;
}

} // verus!

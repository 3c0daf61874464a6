use vstd::prelude::*;
use crate::classic::player::{PlayerPosition, PlayerRole};
use crate::game::player::PlayerType;
use crate::game::tactics::IceTimePriority;

verus! {

/// The four lines of a team of the first card market.
#[derive(PartialEq, Eq, Structural, Clone, Copy, Debug)]
pub enum Fives {
    First,
    Second,
    Third,
    Fourth,
}

/// The two goalies of a team of the first card market.
#[derive(PartialEq, Eq, Structural, Clone, Copy, Debug)]
pub enum Goalies {
    MainGoalkeeper,
    SubstituteGoalkeeper,
}

/// What a card of the first market tells of its player: his number, role, position and
/// kind, and five ratings (a field player's strength, IQ, skating, shooting and morale; a
/// goalie's glove and blocker, pads, stand, stretch and morale).
pub struct Extra {
    pub number: u8,
    pub player_role: PlayerRole,
    pub player_position: PlayerPosition,
    pub player_type: PlayerType,
    pub stats: Vec<u128>,
}

/// A card handed out with a free team: its title and what it tells of its player.
pub struct FreeCard {
    pub title: Option<String>,
    pub extra: Extra,
}

/// A line of a free team: its cards by position.
pub struct FiveMetadata {
    pub field_players: Vec<(PlayerPosition, FreeCard)>,
    pub number: Fives,
    pub ice_time_priority: IceTimePriority,
}

/// The team that a player gets for free: four lines and two goalies.
pub struct FreeTeam {
    pub fives: Vec<FiveMetadata>,
    pub goalies: Vec<(Goalies, FreeCard)>,
}

/// A line of an owner's team of cards: the token at each position.
pub struct NftFive {
    pub field_players: Vec<(PlayerPosition, String)>,
    pub number: Fives,
    pub ice_time_priority: IceTimePriority,
}

/// An owner's team of cards.
pub struct NftTeam {
    pub fives: Vec<NftFive>,
    pub goalies: Vec<(Goalies, String)>,
}

/// Whether `card` is titled `name` and tells of a player with the number, role, position,
/// kind and ratings given.
pub open spec fn spec_card(
    card: FreeCard,
    name: Seq<char>,
    number: u8,
    role: PlayerRole,
    position: PlayerPosition,
    player_type: PlayerType,
    stats: Seq<u128>,
) -> bool {
    &&& card.title matches Some(t) && t@ == name
    &&& card.extra.number == number
    &&& card.extra.player_role == role
    &&& card.extra.player_position == position
    &&& card.extra.player_type == player_type
    &&& card.extra.stats@ == stats
}

/// The card of a free field player.
pub fn create_field_player(
    name: String,
    number: u8,
    role: PlayerRole,
    position: PlayerPosition,
    strength: u128,
    iq: u128,
    morale: u128,
    skating: u128,
    shooting: u128,
) -> (card: FreeCard)
    ensures
        spec_card(card, name@, number, role, position, PlayerType::FieldPlayer,
            seq![strength, iq, skating, shooting, morale]),
{
    let mut stats: Vec<u128> = Vec::new();
    stats.push(strength);
    stats.push(iq);
    stats.push(skating);
    stats.push(shooting);
    stats.push(morale);
    assert(stats@ =~= seq![strength, iq, skating, shooting, morale]);
    FreeCard {
        title: Some(name),
        extra: Extra { number, player_role: role, player_position: position, player_type: PlayerType::FieldPlayer, stats },
    }
}

/// The card of a free goalie.
pub fn create_goalie(
    name: String,
    number: u8,
    role: PlayerRole,
    glove_and_blocker: u128,
    pads: u128,
    stand: u128,
    stretch: u128,
    morale: u128,
) -> (card: FreeCard)
    ensures
        spec_card(card, name@, number, role, PlayerPosition::GoaliePos, PlayerType::Goalie,
            seq![glove_and_blocker, pads, stand, stretch, morale]),
{
    let mut stats: Vec<u128> = Vec::new();
    stats.push(glove_and_blocker);
    stats.push(pads);
    stats.push(stand);
    stats.push(stretch);
    stats.push(morale);
    assert(stats@ =~= seq![glove_and_blocker, pads, stand, stretch, morale]);
    FreeCard {
        title: Some(name),
        extra: Extra {
            number,
            player_role: role,
            player_position: PlayerPosition::GoaliePos,
            player_type: PlayerType::Goalie,
            stats,
        },
    }
}

/// Whether `five` is a free line numbered `number` with ice time `priority` whose five
/// players all have the ratings given: Schukin (10, shooter) at center, Antipov (77, try
/// harder) on the right wing, Kislyak (99, dangler) on the left wing, Ponomarev (27,
/// goon) on the right and Tsarev (31, professor) on the left of the defense.
pub open spec fn spec_free_five(
    five: FiveMetadata,
    number: Fives,
    priority: IceTimePriority,
    strength: u128,
    iq: u128,
    morale: u128,
    skating: u128,
    shooting: u128,
) -> bool {
    let stats = seq![strength, iq, skating, shooting, morale];
    let p = five.field_players@;
    &&& five.number == number
    &&& five.ice_time_priority == priority
    &&& p.len() == 5
    &&& p[0].0 == PlayerPosition::Center
    &&& spec_card(p[0].1, "Schukin"@, 10, PlayerRole::Shooter, PlayerPosition::Center, PlayerType::FieldPlayer, stats)
    &&& p[1].0 == PlayerPosition::RightWing
    &&& spec_card(p[1].1, "Antipov"@, 77, PlayerRole::TryHarder, PlayerPosition::RightWing, PlayerType::FieldPlayer, stats)
    &&& p[2].0 == PlayerPosition::LeftWing
    &&& spec_card(p[2].1, "Kislyak"@, 99, PlayerRole::Dangler, PlayerPosition::LeftWing, PlayerType::FieldPlayer, stats)
    &&& p[3].0 == PlayerPosition::RightDefender
    &&& spec_card(p[3].1, "Ponomarev"@, 27, PlayerRole::Goon, PlayerPosition::RightDefender, PlayerType::FieldPlayer, stats)
    &&& p[4].0 == PlayerPosition::LeftDefender
    &&& spec_card(p[4].1, "Tsarev"@, 31, PlayerRole::Professor, PlayerPosition::LeftDefender, PlayerType::FieldPlayer, stats)
}

/// A free line (see `spec_free_five`).
pub fn create_five(
    number: Fives,
    ice_time_priority: IceTimePriority,
    strength: u128,
    iq: u128,
    morale: u128,
    skating: u128,
    shooting: u128,
) -> (five: FiveMetadata)
    ensures
        spec_free_five(five, number, ice_time_priority, strength, iq, morale, skating, shooting),
{
    let mut field_players: Vec<(PlayerPosition, FreeCard)> = Vec::new();
    field_players.push((PlayerPosition::Center, create_field_player("Schukin".to_string(), 10,
        PlayerRole::Shooter, PlayerPosition::Center, strength, iq, morale, skating, shooting)));
    field_players.push((PlayerPosition::RightWing, create_field_player("Antipov".to_string(), 77,
        PlayerRole::TryHarder, PlayerPosition::RightWing, strength, iq, morale, skating, shooting)));
    field_players.push((PlayerPosition::LeftWing, create_field_player("Kislyak".to_string(), 99,
        PlayerRole::Dangler, PlayerPosition::LeftWing, strength, iq, morale, skating, shooting)));
    field_players.push((PlayerPosition::RightDefender, create_field_player("Ponomarev".to_string(), 27,
        PlayerRole::Goon, PlayerPosition::RightDefender, strength, iq, morale, skating, shooting)));
    field_players.push((PlayerPosition::LeftDefender, create_field_player("Tsarev".to_string(), 31,
        PlayerRole::Professor, PlayerPosition::LeftDefender, strength, iq, morale, skating, shooting)));
    FiveMetadata { field_players, number, ice_time_priority }
}

/// The team a player gets for free: four lines with their ice times and ratings, Bakin
/// (1, wall) in net and Noname (2, post to post) behind him.
pub fn create_free_team() -> (team: FreeTeam)
    ensures
        team.fives.len() == 4,
        spec_free_five(team.fives@[0], Fives::First, IceTimePriority::SuperHighPriority, 65, 75, 88, 76, 69),
        spec_free_five(team.fives@[1], Fives::Second, IceTimePriority::HighPriority, 71, 73, 68, 90, 72),
        spec_free_five(team.fives@[2], Fives::Third, IceTimePriority::Normal, 66, 81, 84, 67, 69),
        spec_free_five(team.fives@[3], Fives::Fourth, IceTimePriority::LowPriority, 87, 75, 89, 65, 81),
        team.goalies.len() == 2,
        team.goalies@[0].0 == Goalies::MainGoalkeeper,
        spec_card(team.goalies@[0].1, "Bakin"@, 1, PlayerRole::Wall, PlayerPosition::GoaliePos,
            PlayerType::Goalie, seq![67u128, 76, 86, 81, 90]),
        team.goalies@[1].0 == Goalies::SubstituteGoalkeeper,
        spec_card(team.goalies@[1].1, "Noname"@, 2, PlayerRole::Post2Post, PlayerPosition::GoaliePos,
            PlayerType::Goalie, seq![83u128, 75, 88, 75, 67]),
{
    let mut fives: Vec<FiveMetadata> = Vec::new();
    fives.push(create_five(Fives::First, IceTimePriority::SuperHighPriority, 65, 75, 88, 76, 69));
    fives.push(create_five(Fives::Second, IceTimePriority::HighPriority, 71, 73, 68, 90, 72));
    fives.push(create_five(Fives::Third, IceTimePriority::Normal, 66, 81, 84, 67, 69));
    fives.push(create_five(Fives::Fourth, IceTimePriority::LowPriority, 87, 75, 89, 65, 81));
    let mut goalies: Vec<(Goalies, FreeCard)> = Vec::new();
    goalies.push((Goalies::MainGoalkeeper, create_goalie("Bakin".to_string(), 1, PlayerRole::Wall, 67, 76, 86, 81, 90)));
    goalies.push((Goalies::SubstituteGoalkeeper,
        create_goalie("Noname".to_string(), 2, PlayerRole::Post2Post, 83, 75, 88, 75, 67)));
    FreeTeam { fives, goalies }
}

/// Why a card could not join an owner's team.
#[derive(PartialEq, Eq, Structural, Clone, Copy, Debug)]
pub enum NftTeamError {
    FiveNotFound,
}

/// Puts the card `token_id` at `player_position` of the line `five` of `team`; refused when
/// the team has no such line. The first such line changes.
pub fn insert_nft_field_player_to_nft_team(
    team: &mut NftTeam,
    five: Fives,
    player_position: PlayerPosition,
    token_id: String,
) -> (r: Result<(), NftTeamError>)
    ensures
        (forall|k: int| 0 <= k < old(team).fives.len() ==> (#[trigger] old(team).fives@[k]).number != five) ==>
            r == Err::<(), NftTeamError>(NftTeamError::FiveNotFound) && *final(team) == *old(team),
        forall|k: int| 0 <= k < old(team).fives.len() && old(team).fives@[k].number == five
            && (forall|j: int| 0 <= j < k ==> (#[trigger] old(team).fives@[j]).number != five) ==> {
            &&& r is Ok
            &&& final(team).fives.len() == old(team).fives.len()
            &&& final(team).fives@[k].number == five
            &&& final(team).fives@[k].ice_time_priority == old(team).fives@[k].ice_time_priority
            &&& spec_placed(old(team).fives@[k].field_players@, final(team).fives@[k].field_players@, player_position, token_id)
            &&& forall|j: int| 0 <= j < old(team).fives.len() && j != k ==> #[trigger] final(team).fives@[j] == old(team).fives@[j]
            &&& final(team).goalies == old(team).goalies
        },
{
    let mut k: usize = 0;
    while k < team.fives.len()
        invariant
            k <= team.fives.len(),
            *team == *old(team),
            forall|j: int| 0 <= j < k ==> (#[trigger] team.fives@[j]).number != five,
        decreases team.fives.len() - k,
    {
        if team.fives[k].number == five {
            let old_five = team.fives.remove(k);
            let ghost before = old_five.field_players@;
            let mut field_players = old_five.field_players;
            place(&mut field_players, player_position, token_id);
            team.fives.insert(k, NftFive {
                field_players,
                number: old_five.number,
                ice_time_priority: old_five.ice_time_priority,
            });
            assert forall|j: int| 0 <= j < old(team).fives.len() && j != k implies
                #[trigger] team.fives@[j] == old(team).fives@[j] by {
                if j < k {
                    assert(team.fives@[j] == old(team).fives@[j]);
                } else {
                    assert(team.fives@[j] == old(team).fives@[j]);
                }
            }
            return Ok(());
        }
        k = k + 1;
    }
    Err(NftTeamError::FiveNotFound)
}

/// `after` is the line `before` with `token_id` at `position`: the entry for the position
/// takes the card, or a new entry is added at the end.
pub open spec fn spec_placed(
    before: Seq<(PlayerPosition, String)>,
    after: Seq<(PlayerPosition, String)>,
    position: PlayerPosition,
    token_id: String,
) -> bool {
    if exists|i: int| 0 <= i < before.len() && (#[trigger] before[i]).0 == position {
        let i = choose|i: int| 0 <= i < before.len() && (#[trigger] before[i]).0 == position
            && forall|j: int| 0 <= j < i ==> (#[trigger] before[j]).0 != position;
        after == before.update(i, (position, token_id))
    } else {
        after == before.push((position, token_id))
    }
}

/// Puts `token_id` at `position` of the line `players` (see `spec_placed`).
fn place(players: &mut Vec<(PlayerPosition, String)>, position: PlayerPosition, token_id: String)
    ensures
        spec_placed(old(players)@, final(players)@, position, token_id),
{
    let mut i: usize = 0;
    while i < players.len()
        invariant
            i <= players.len(),
            *players == *old(players),
            forall|j: int| 0 <= j < i ==> (#[trigger] players@[j]).0 != position,
        decreases players.len() - i,
    {
        if players[i].0 == position {
            let ghost before = players@;
            assert(before[i as int].0 == position && forall|j: int| 0 <= j < i ==> (#[trigger] before[j]).0 != position);
            players.set(i, (position, token_id));
            proof {
                let c = choose|c: int| 0 <= c < before.len() && (#[trigger] before[c]).0 == position
                    && forall|j: int| 0 <= j < c ==> (#[trigger] before[j]).0 != position;
                if c < i {
                    assert(before[c].0 != position);
                } else if c > i {
                    assert(before[i as int].0 != position);
                }
            }
            return;
        }
        i = i + 1;
    }
    players.push((position, token_id));
}

} // verus!

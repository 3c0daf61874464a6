use vstd::prelude::*;
use crate::classic::player::{PlayerPosition, PlayerRole};
use crate::classic::field_player::random_number_in;

verus! {

/// What can happen in a turn of the first-generation engine.
#[derive(PartialEq, Eq, Structural, Clone, Copy, Debug)]
pub enum ActionTypes {
    Pass,
    Shot,
    Move,
    Dangle,
    Battle,
    Goal,
    Save,
    HitThePuck,
    EndOfPeriod,
}

/// Chooses what the player with the puck does.
pub struct Action;

pub struct PassAction;

pub struct ShotAction;

pub struct MoveAction;

pub struct DangleAction;

/// The weights (pass, shot, move, dangle) of the actions of a role.
pub open spec fn spec_probability_of_actions(role: PlayerRole) -> Seq<i32> {
    match role {
        PlayerRole::Passer | PlayerRole::Professor => seq![4i32, 1, 3, 2],
        PlayerRole::Shooter | PlayerRole::ToughGuy => seq![2i32, 4, 1, 3],
        PlayerRole::TryHarder | PlayerRole::Goon => seq![3i32, 2, 4, 1],
        _ => seq![1i32, 3, 2, 4],
    }
}

/// The draw `rnd` (0 to 9) picks the weight `[1, 2, 2, 3, 3, 3, 4, 4, 4, 4][rnd]`.
pub open spec fn spec_drawn_weight(rnd: int) -> i32 {
    if rnd == 0 { 1 } else if rnd <= 2 { 2 } else if rnd <= 5 { 3 } else { 4 }
}

/// Outside the attack zone a dangle, else a move, is made when its weight is drawn; inside
/// it, a shot; any other draw gives a pass.
pub open spec fn spec_random_action(is_attack_zone: bool, role: PlayerRole, rnd: int) -> ActionTypes {
    let actions = spec_probability_of_actions(role);
    let drawn = spec_drawn_weight(rnd);
    if !is_attack_zone && actions[3] == drawn {
        ActionTypes::Dangle
    } else if !is_attack_zone && actions[2] == drawn {
        ActionTypes::Move
    } else if is_attack_zone && actions[1] == drawn {
        ActionTypes::Shot
    } else {
        ActionTypes::Pass
    }
}

impl Action {
    /// The weights of pass, shot, move and dangle of a role; a goalie role has none.
    pub fn get_probability_of_actions(&self, role: PlayerRole) -> (r: Vec<i32>)
        requires
            !role.is_goalie_role(),
        ensures
            r@ == spec_probability_of_actions(role),
    {
        let r: Vec<i32> = match role {
            PlayerRole::Passer => vec![4, 1, 3, 2],
            PlayerRole::Professor => vec![4, 1, 3, 2],
            PlayerRole::Shooter => vec![2, 4, 1, 3],
            PlayerRole::ToughGuy => vec![2, 4, 1, 3],
            PlayerRole::TryHarder => vec![3, 2, 4, 1],
            PlayerRole::Goon => vec![3, 2, 4, 1],
            _ => vec![1, 3, 2, 4],
        };
        assert(r@ =~= spec_probability_of_actions(role));
        r
    }

    /// The action selected by the draw `rnd` (0 to 9).
    pub fn choose_random_action(&self, is_attack_zone: bool, role: PlayerRole, rnd: usize) -> (r: ActionTypes)
        requires
            !role.is_goalie_role(),
            rnd < 10,
        ensures
            r == spec_random_action(is_attack_zone, role, rnd as int),
    {
        let actions = self.get_probability_of_actions(role);
        let probability_distribution: [i32; 10] = [1, 2, 2, 3, 3, 3, 4, 4, 4, 4];
        let drawn = probability_distribution[rnd];
        assert(drawn == spec_drawn_weight(rnd as int));
        if !is_attack_zone && actions[3] == drawn {
            ActionTypes::Dangle
        } else if !is_attack_zone && actions[2] == drawn {
            ActionTypes::Move
        } else if is_attack_zone && actions[1] == drawn {
            ActionTypes::Shot
        } else {
            ActionTypes::Pass
        }
    }

    /// Draws a number in 0..10 and returns the action it selects.
    pub fn get_random_action(&self, is_attack_zone: bool, role: PlayerRole) -> (r: ActionTypes)
        requires
            !role.is_goalie_role(),
        ensures
            exists|rnd: int| 0 <= rnd < 10 && r == spec_random_action(is_attack_zone, role, rnd),
    {
        let rnd = random_number_in(0, 10);
        self.choose_random_action(is_attack_zone, role, rnd as usize)
    }
}

/// The five skater positions in the order the engine lists them.
pub open spec fn spec_skater_positions() -> Seq<PlayerPosition> {
    seq![
        PlayerPosition::RightWing,
        PlayerPosition::LeftWing,
        PlayerPosition::Center,
        PlayerPosition::RightDefender,
        PlayerPosition::LeftDefender,
    ]
}

/// The skater positions without `pos` (its first occurrence).
pub open spec fn spec_other_positions(pos: PlayerPosition) -> Seq<PlayerPosition> {
    let all = spec_skater_positions();
    if all.contains(pos) {
        all.remove(all.index_of(pos))
    } else {
        all
    }
}

/// The skater positions other than `player_pos`.
pub fn get_other_positions(player_pos: PlayerPosition) -> (r: Vec<PlayerPosition>)
    ensures
        r@ == spec_other_positions(player_pos),
        !r@.contains(player_pos),
        player_pos != PlayerPosition::GoaliePos ==> r.len() == 4,
        player_pos == PlayerPosition::GoaliePos ==> r.len() == 5,
{
    let mut player_positions: Vec<PlayerPosition> = vec![
        PlayerPosition::RightWing,
        PlayerPosition::LeftWing,
        PlayerPosition::Center,
        PlayerPosition::RightDefender,
        PlayerPosition::LeftDefender,
    ];
    assert(player_positions@ =~= spec_skater_positions());
    let ghost all = player_positions@;
    let mut num: usize = 0;
    while num < 5
        invariant
            num <= 5,
            player_positions@ == all,
            all == spec_skater_positions(),
            forall|j: int| 0 <= j < num ==> all[j] != player_pos,
        decreases 5 - num,
    {
        if player_pos == player_positions[num] {
            proof {
                assert(all.contains(player_pos));
                assert(all.index_of(player_pos) == num as int) by {
                    all.index_of_first_ensures(player_pos);
                    let k = all.index_of(player_pos);
                    assert(forall|i: int| 0 <= i < 5 && i != num ==> all[i] != all[num as int]);
                }
            }
            player_positions.remove(num);
            assert(player_positions@ =~= all.remove(num as int));
            assert(forall|i: int| 0 <= i < 5 && i != num ==> all[i] != all[num as int]);
            assert(!player_positions@.contains(player_pos)) by {
                if player_positions@.contains(player_pos) {
                    let k = choose|k: int| 0 <= k < player_positions@.len() && player_positions@[k] == player_pos;
                    if k < num { assert(player_positions@[k] == all[k]); } else { assert(player_positions@[k] == all[k + 1]); }
                }
            }
            return player_positions;
        }
        num = num + 1;
    }
    assert(!all.contains(player_pos));
    player_positions
}

/// The position at index `random_pos` among the other positions of `player_pos`.
pub fn get_another_random_position(player_pos: PlayerPosition, random_pos: usize) -> (r: PlayerPosition)
    requires
        random_pos < spec_other_positions(player_pos).len(),
    ensures
        r == spec_other_positions(player_pos)[random_pos as int],
        r != player_pos,
{
    let player_positions = get_other_positions(player_pos);
    player_positions[random_pos]
}

/// The position that picks up a rebound for the draw `rnd` (0 to 9).
pub open spec fn spec_position_after_rebound(rnd: int) -> PlayerPosition {
    if rnd < 2 {
        PlayerPosition::LeftDefender
    } else if rnd < 4 {
        PlayerPosition::RightDefender
    } else if rnd < 8 {
        PlayerPosition::Center
    } else if rnd < 9 {
        PlayerPosition::LeftWing
    } else {
        PlayerPosition::RightWing
    }
}

/// Who picks up a rebound: the draw `rnd` (0 to 9) indexes the distribution
/// `[1, 1, 2, 2, 3, 3, 3, 3, 4, 5]` of left defender, right defender, center, left wing,
/// right wing.
pub fn get_random_position_after_rebound(rnd: usize) -> (r: PlayerPosition)
    requires
        rnd < 10,
    ensures
        r == spec_position_after_rebound(rnd as int),
{
    let probability_distribution: [u8; 10] = [1, 1, 2, 2, 3, 3, 3, 3, 4, 5];
    let num_player_pos = probability_distribution[rnd];
    match num_player_pos {
        1 => PlayerPosition::LeftDefender,
        2 => PlayerPosition::RightDefender,
        3 => PlayerPosition::Center,
        4 => PlayerPosition::LeftWing,
        _ => PlayerPosition::RightWing,
    }
}

} // verus!

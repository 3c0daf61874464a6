use vstd::prelude::*;
use crate::game::five::ActiveFive;
use crate::game::numbers::FiveNumber;
use crate::game::player::{PlayerPosition, PlayerRole};
use crate::game::tactics::{IceTimePriority, Tactics};
use crate::game::utils::{get_random_in_range, spec_random_in_range};

verus! {

/// What can happen during a turn of a match.
#[derive(PartialEq, Eq, Structural, Clone, Copy, Debug)]
pub enum ActionTypes {
    StartGame,
    StartPeriod,
    EndOfPeriod,
    Overtime,
    GameFinished,
    Pass,
    PassCaught,
    Shot,
    ShotBlocked,
    ShotMissed,
    Goal,
    Save,
    Rebound,
    FaceOff,
    FaceOffWin,
    Move,
    Hit,
    Offside,
    Dangle,
    PockCheck,
    DumpIn,
    DumpOut,
    Icing,
    Giveaway,
    Takeaway,
    PuckOut,
    BigPenalty,
    SmallPenalty,
    DelayedPenaltySignal,
    NetOff,
    Fight,
    FightWon,
    Battle,
    BattleWon,
    TakeTO,
    CoachSpeech,
    GoalieOut,
    GoalieBack,
    PenaltyShot,
    EndedPenalty,
}

/// An event of a match as the players see it. Account ids are NEAR account names.
#[allow(inconsistent_fields)]
pub enum ActionData {
    StartGame { action_type: ActionTypes },
    StartPeriod { action_type: ActionTypes, number: u8 },
    EndOfPeriod { action_type: ActionTypes, number: u8 },
    Overtime { action_type: ActionTypes },
    GameFinished { action_type: ActionTypes, winner_account_id: String, reward: u128 },
    Pass {
        action_type: ActionTypes,
        account_id: String,
        from_player_name: String,
        from_player_number: u8,
        from: PlayerPosition,
        to_player_number: u8,
        to: PlayerPosition,
    },
    PassCaught {
        action_type: ActionTypes,
        account_id: String,
        from_player_number: u8,
        from: PlayerPosition,
        to_player_number: u8,
        to: PlayerPosition,
        caught_player_number: u8,
        caught_player_position: PlayerPosition,
    },
    Shot { action_type: ActionTypes, account_id: String, player_number: u8, player_position: PlayerPosition },
    ShotBlocked { action_type: ActionTypes, account_id: String, player_number: u8, player_position: PlayerPosition },
    ShotMissed { action_type: ActionTypes, account_id: String, player_number: u8, player_position: PlayerPosition },
    Goal {
        action_type: ActionTypes,
        account_id: String,
        player_name1: String,
        player_img: String,
        player_number1: u8,
        player_name2: Option<String>,
        player_number2: Option<u8>,
    },
    Save { action_type: ActionTypes, account_id: String, goalie_number: u8 },
    Rebound {
        action_type: ActionTypes,
        account_id: String,
        goalie_number: u8,
        player_number: u8,
        player_position: PlayerPosition,
    },
    FaceOff {
        action_type: ActionTypes,
        zone_number: u8,
        account_id1: String,
        player_number1: u8,
        player_position1: PlayerPosition,
        account_id2: String,
        player_number2: u8,
        player_position2: PlayerPosition,
    },
    FaceOffWin {
        action_type: ActionTypes,
        account_id: String,
        zone_number: u8,
        player_number: u8,
        player_position: PlayerPosition,
    },
    Move {
        action_type: ActionTypes,
        zone_number: u8,
        account_id: String,
        player_number: u8,
        player_position: PlayerPosition,
    },
    Hit {
        action_type: ActionTypes,
        account_id: String,
        player_number: u8,
        player_position: PlayerPosition,
        opponent_number: u8,
    },
    Offside {
        action_type: ActionTypes,
        zone_number: u8,
        account_id: String,
        player_number: u8,
        player_position: PlayerPosition,
    },
    Dangle {
        action_type: ActionTypes,
        account_id: String,
        zone_number: u8,
        player_number: u8,
        player_position: PlayerPosition,
        opponent_number: u8,
    },
    PokeCheck {
        action_type: ActionTypes,
        account_id: String,
        opponent_number: u8,
        player_number: u8,
        player_position: PlayerPosition,
    },
    Dump {
        action_type: ActionTypes,
        account_id: String,
        zone_number: u8,
        from_player_number: u8,
        from: PlayerPosition,
        to_player_number: u8,
        to: PlayerPosition,
    },
    Icing { action_type: ActionTypes, account_id: String, player_number: u8 },
    Giveaway {
        action_type: ActionTypes,
        account_id1: String,
        player_number1: u8,
        player_position1: PlayerPosition,
        account_id2: String,
        player_number2: u8,
        player_position2: PlayerPosition,
    },
    Takeaway {
        action_type: ActionTypes,
        account_id1: String,
        player_number1: u8,
        player_position1: PlayerPosition,
        account_id2: String,
        player_number2: u8,
        player_position2: PlayerPosition,
    },
    PuckOut { action_type: ActionTypes },
    Penalty {
        action_type: ActionTypes,
        account_id: String,
        is_fight: bool,
        player_img: String,
        player_name: String,
        player_number: u8,
    },
    DelayedPenaltySignal { action_type: ActionTypes, type_of_penalty: ActionTypes },
    NetOff { action_type: ActionTypes },
    Fight {
        action_type: ActionTypes,
        account_id1: String,
        player_number1: u8,
        account_id2: String,
        player_number2: u8,
    },
    FightWon {
        action_type: ActionTypes,
        account_id: String,
        player_name: String,
        player_img: String,
        player_number: u8,
    },
    Battle {
        action_type: ActionTypes,
        account_id1: String,
        player_number1: u8,
        player_position1: PlayerPosition,
        account_id2: String,
        player_number2: u8,
        player_position2: PlayerPosition,
    },
    BattleWon { action_type: ActionTypes, account_id: String, player_number: u8, player_position: PlayerPosition },
    TakeTO { action_type: ActionTypes, account_id: String },
    CoachSpeech { action_type: ActionTypes, account_id: String },
    GoalieOut { action_type: ActionTypes, account_id: String },
    GoalieBack { action_type: ActionTypes, account_id: String },
    PenaltyShot {
        action_type: ActionTypes,
        account_id1: String,
        player_name: String,
        player_img: String,
        player_number: u8,
        account_id2: String,
        goalie_name: String,
        goalie_img: String,
        goalie_number: u8,
    },
    EndedPenalty { action_type: ActionTypes, account_id: String, player_number: u8 },
}

/// A copy of an optional text.
pub fn copy_text(t: &Option<String>) -> (r: Option<String>)
    ensures
        r == *t,
{
    match t {
        Some(s) => Some(s.clone()),
        None => None,
    }
}

impl ActionData {
    /// A copy of the event.
    pub fn duplicate(&self) -> (r: ActionData)
        ensures
            r == *self,
    {
        match self {
            ActionData::StartGame { action_type } => ActionData::StartGame { action_type: *action_type },
            ActionData::StartPeriod { action_type, number } => ActionData::StartPeriod { action_type: *action_type, number: *number },
            ActionData::EndOfPeriod { action_type, number } => ActionData::EndOfPeriod { action_type: *action_type, number: *number },
            ActionData::Overtime { action_type } => ActionData::Overtime { action_type: *action_type },
            ActionData::GameFinished { action_type, winner_account_id, reward } => ActionData::GameFinished { action_type: *action_type, winner_account_id: winner_account_id.clone(), reward: *reward },
            ActionData::Pass { action_type, account_id, from_player_name, from_player_number, from, to_player_number, to } => ActionData::Pass { action_type: *action_type, account_id: account_id.clone(), from_player_name: from_player_name.clone(), from_player_number: *from_player_number, from: *from, to_player_number: *to_player_number, to: *to },
            ActionData::PassCaught { action_type, account_id, from_player_number, from, to_player_number, to, caught_player_number, caught_player_position } => ActionData::PassCaught { action_type: *action_type, account_id: account_id.clone(), from_player_number: *from_player_number, from: *from, to_player_number: *to_player_number, to: *to, caught_player_number: *caught_player_number, caught_player_position: *caught_player_position },
            ActionData::Shot { action_type, account_id, player_number, player_position } => ActionData::Shot { action_type: *action_type, account_id: account_id.clone(), player_number: *player_number, player_position: *player_position },
            ActionData::ShotBlocked { action_type, account_id, player_number, player_position } => ActionData::ShotBlocked { action_type: *action_type, account_id: account_id.clone(), player_number: *player_number, player_position: *player_position },
            ActionData::ShotMissed { action_type, account_id, player_number, player_position } => ActionData::ShotMissed { action_type: *action_type, account_id: account_id.clone(), player_number: *player_number, player_position: *player_position },
            ActionData::Goal { action_type, account_id, player_name1, player_img, player_number1, player_name2, player_number2 } => ActionData::Goal { action_type: *action_type, account_id: account_id.clone(), player_name1: player_name1.clone(), player_img: player_img.clone(), player_number1: *player_number1, player_name2: copy_text(player_name2), player_number2: *player_number2 },
            ActionData::Save { action_type, account_id, goalie_number } => ActionData::Save { action_type: *action_type, account_id: account_id.clone(), goalie_number: *goalie_number },
            ActionData::Rebound { action_type, account_id, goalie_number, player_number, player_position } => ActionData::Rebound { action_type: *action_type, account_id: account_id.clone(), goalie_number: *goalie_number, player_number: *player_number, player_position: *player_position },
            ActionData::FaceOff { action_type, zone_number, account_id1, player_number1, player_position1, account_id2, player_number2, player_position2 } => ActionData::FaceOff { action_type: *action_type, zone_number: *zone_number, account_id1: account_id1.clone(), player_number1: *player_number1, player_position1: *player_position1, account_id2: account_id2.clone(), player_number2: *player_number2, player_position2: *player_position2 },
            ActionData::FaceOffWin { action_type, account_id, zone_number, player_number, player_position } => ActionData::FaceOffWin { action_type: *action_type, account_id: account_id.clone(), zone_number: *zone_number, player_number: *player_number, player_position: *player_position },
            ActionData::Move { action_type, zone_number, account_id, player_number, player_position } => ActionData::Move { action_type: *action_type, zone_number: *zone_number, account_id: account_id.clone(), player_number: *player_number, player_position: *player_position },
            ActionData::Hit { action_type, account_id, player_number, player_position, opponent_number } => ActionData::Hit { action_type: *action_type, account_id: account_id.clone(), player_number: *player_number, player_position: *player_position, opponent_number: *opponent_number },
            ActionData::Offside { action_type, zone_number, account_id, player_number, player_position } => ActionData::Offside { action_type: *action_type, zone_number: *zone_number, account_id: account_id.clone(), player_number: *player_number, player_position: *player_position },
            ActionData::Dangle { action_type, account_id, zone_number, player_number, player_position, opponent_number } => ActionData::Dangle { action_type: *action_type, account_id: account_id.clone(), zone_number: *zone_number, player_number: *player_number, player_position: *player_position, opponent_number: *opponent_number },
            ActionData::PokeCheck { action_type, account_id, opponent_number, player_number, player_position } => ActionData::PokeCheck { action_type: *action_type, account_id: account_id.clone(), opponent_number: *opponent_number, player_number: *player_number, player_position: *player_position },
            ActionData::Dump { action_type, account_id, zone_number, from_player_number, from, to_player_number, to } => ActionData::Dump { action_type: *action_type, account_id: account_id.clone(), zone_number: *zone_number, from_player_number: *from_player_number, from: *from, to_player_number: *to_player_number, to: *to },
            ActionData::Icing { action_type, account_id, player_number } => ActionData::Icing { action_type: *action_type, account_id: account_id.clone(), player_number: *player_number },
            ActionData::Giveaway { action_type, account_id1, player_number1, player_position1, account_id2, player_number2, player_position2 } => ActionData::Giveaway { action_type: *action_type, account_id1: account_id1.clone(), player_number1: *player_number1, player_position1: *player_position1, account_id2: account_id2.clone(), player_number2: *player_number2, player_position2: *player_position2 },
            ActionData::Takeaway { action_type, account_id1, player_number1, player_position1, account_id2, player_number2, player_position2 } => ActionData::Takeaway { action_type: *action_type, account_id1: account_id1.clone(), player_number1: *player_number1, player_position1: *player_position1, account_id2: account_id2.clone(), player_number2: *player_number2, player_position2: *player_position2 },
            ActionData::PuckOut { action_type } => ActionData::PuckOut { action_type: *action_type },
            ActionData::Penalty { action_type, account_id, is_fight, player_img, player_name, player_number } => ActionData::Penalty { action_type: *action_type, account_id: account_id.clone(), is_fight: *is_fight, player_img: player_img.clone(), player_name: player_name.clone(), player_number: *player_number },
            ActionData::DelayedPenaltySignal { action_type, type_of_penalty } => ActionData::DelayedPenaltySignal { action_type: *action_type, type_of_penalty: *type_of_penalty },
            ActionData::NetOff { action_type } => ActionData::NetOff { action_type: *action_type },
            ActionData::Fight { action_type, account_id1, player_number1, account_id2, player_number2 } => ActionData::Fight { action_type: *action_type, account_id1: account_id1.clone(), player_number1: *player_number1, account_id2: account_id2.clone(), player_number2: *player_number2 },
            ActionData::FightWon { action_type, account_id, player_name, player_img, player_number } => ActionData::FightWon { action_type: *action_type, account_id: account_id.clone(), player_name: player_name.clone(), player_img: player_img.clone(), player_number: *player_number },
            ActionData::Battle { action_type, account_id1, player_number1, player_position1, account_id2, player_number2, player_position2 } => ActionData::Battle { action_type: *action_type, account_id1: account_id1.clone(), player_number1: *player_number1, player_position1: *player_position1, account_id2: account_id2.clone(), player_number2: *player_number2, player_position2: *player_position2 },
            ActionData::BattleWon { action_type, account_id, player_number, player_position } => ActionData::BattleWon { action_type: *action_type, account_id: account_id.clone(), player_number: *player_number, player_position: *player_position },
            ActionData::TakeTO { action_type, account_id } => ActionData::TakeTO { action_type: *action_type, account_id: account_id.clone() },
            ActionData::CoachSpeech { action_type, account_id } => ActionData::CoachSpeech { action_type: *action_type, account_id: account_id.clone() },
            ActionData::GoalieOut { action_type, account_id } => ActionData::GoalieOut { action_type: *action_type, account_id: account_id.clone() },
            ActionData::GoalieBack { action_type, account_id } => ActionData::GoalieBack { action_type: *action_type, account_id: account_id.clone() },
            ActionData::PenaltyShot { action_type, account_id1, player_name, player_img, player_number, account_id2, goalie_name, goalie_img, goalie_number } => ActionData::PenaltyShot { action_type: *action_type, account_id1: account_id1.clone(), player_name: player_name.clone(), player_img: player_img.clone(), player_number: *player_number, account_id2: account_id2.clone(), goalie_name: goalie_name.clone(), goalie_img: goalie_img.clone(), goalie_number: *goalie_number },
            ActionData::EndedPenalty { action_type, account_id, player_number } => ActionData::EndedPenalty { action_type: *action_type, account_id: account_id.clone(), player_number: *player_number },
        }
    }
}

/// Chooses and plays what the player with the puck does.
pub struct Action;

pub struct DangleAction;

pub struct DumpAction;

pub struct MoveAction;

pub struct PassAction;

pub struct ShotAction;

/// The weights of dump, shot, move, dangle and pass that a role starts from.
pub open spec fn spec_role_weights(role: PlayerRole) -> Seq<i32> {
    match role {
        PlayerRole::Playmaker => seq![1i32, 2, 3, 3, 2],
        PlayerRole::Enforcer => seq![4i32, 2, 1, 1, 3],
        PlayerRole::Shooter => seq![1i32, 4, 3, 2, 1],
        PlayerRole::TryHarder => seq![2i32, 1, 4, 1, 3],
        PlayerRole::DefensiveForward => seq![4i32, 2, 1, 1, 3],
        PlayerRole::Grinder => seq![4i32, 1, 4, 1, 1],
        PlayerRole::DefensiveDefenseman => seq![4i32, 2, 1, 1, 3],
        PlayerRole::OffensiveDefenseman => seq![1i32, 4, 2, 3, 1],
        PlayerRole::TwoWay => seq![1i32, 3, 3, 2, 2],
        _ => seq![3i32, 1, 4, 1, 1],
    }
}

/// The weights after the unit's situation: a power play adds 3 to the dump and 2 to the
/// shot, a penalty kill adds 3 to the pass.
pub open spec fn spec_situation_weights(w: Seq<i32>, number: FiveNumber) -> Seq<i32> {
    if number.is_power_play() {
        w.update(0, (w[0] + 3) as i32).update(1, (w[1] + 2) as i32)
    } else if number.is_penalty_kill() {
        w.update(4, (w[4] + 3) as i32)
    } else {
        w
    }
}

/// The weights after the unit's tactic: safe adds 2 to the pass, defensive 1 to the pass
/// and the dump, offensive 1 to shot, move and dangle, aggressive 2 to each of them.
pub open spec fn spec_tactic_weights(w: Seq<i32>, tactic: Tactics) -> Seq<i32> {
    match tactic {
        Tactics::Safe => w.update(4, (w[4] + 2) as i32),
        Tactics::Defensive => w.update(4, (w[4] + 1) as i32).update(0, (w[0] + 1) as i32),
        Tactics::Neutral => w,
        Tactics::Offensive => w.update(1, (w[1] + 1) as i32).update(2, (w[2] + 1) as i32).update(3, (w[3] + 1) as i32),
        Tactics::Aggressive => w.update(1, (w[1] + 2) as i32).update(2, (w[2] + 2) as i32).update(3, (w[3] + 2) as i32),
    }
}

/// The weights of dump, shot, move, dangle and pass of a player on a unit.
pub open spec fn spec_probability_of_actions(role: PlayerRole, number: FiveNumber, tactic: Tactics) -> Seq<i32> {
    spec_tactic_weights(spec_situation_weights(spec_role_weights(role), number), tactic)
}

/// The sum of the first `k` weights.
pub open spec fn spec_cumulative(w: Seq<i32>, k: int) -> int
    decreases k,
{
    if k <= 0 || k > w.len() {
        0
    } else {
        spec_cumulative(w, k - 1) + w[k - 1]
    }
}

/// The action chosen for the draw `rnd` (1 to 100): with the weights scaled to a total of
/// 100, a dump when the draw is at most the first weight, outside the attack zone; a shot
/// when it is at most the first three weights, in the attack zone; a move when it is at
/// most the first two, outside it; else a pass.
pub open spec fn spec_chosen_action(is_attack_zone: bool, w: Seq<i32>, rnd: int) -> ActionTypes {
    let total = spec_cumulative(w, 5);
    if !is_attack_zone && 100 * spec_cumulative(w, 1) >= rnd * total {
        ActionTypes::DumpIn
    } else if is_attack_zone && 100 * spec_cumulative(w, 3) >= rnd * total {
        ActionTypes::Shot
    } else if !is_attack_zone && 100 * spec_cumulative(w, 2) >= rnd * total {
        ActionTypes::Move
    } else {
        ActionTypes::Pass
    }
}

impl Action {
    /// The weights of dump, shot, move, dangle and pass of a player of `role` on the unit
    /// `active_five`; a goalie role has none.
    pub fn get_probability_of_actions(&self, role: PlayerRole, active_five: &ActiveFive) -> (r: Vec<i32>)
        requires
            !role.is_goalie_role(),
        ensures
            r@ == spec_probability_of_actions(role, active_five.current_number, active_five.tactic),
            r.len() == 5,
            forall|i: int| 0 <= i < 5 ==> 1 <= #[trigger] r@[i] <= 9,
    {
        let mut actions: Vec<i32> = match role {
            PlayerRole::Playmaker => vec![1, 2, 3, 3, 2],
            PlayerRole::Enforcer => vec![4, 2, 1, 1, 3],
            PlayerRole::Shooter => vec![1, 4, 3, 2, 1],
            PlayerRole::TryHarder => vec![2, 1, 4, 1, 3],
            PlayerRole::DefensiveForward => vec![4, 2, 1, 1, 3],
            PlayerRole::Grinder => vec![4, 1, 4, 1, 1],
            PlayerRole::DefensiveDefenseman => vec![4, 2, 1, 1, 3],
            PlayerRole::OffensiveDefenseman => vec![1, 4, 2, 3, 1],
            PlayerRole::TwoWay => vec![1, 3, 3, 2, 2],
            _ => vec![3, 1, 4, 1, 1],
        };
        assert(actions@ =~= spec_role_weights(role));
        let ghost w0 = actions@;
        match active_five.current_number {
            FiveNumber::PowerPlay1 | FiveNumber::PowerPlay2 => {
                let a0 = actions[0] + 3;
                actions.set(0, a0);
                let a1 = actions[1] + 2;
                actions.set(1, a1);
            },
            FiveNumber::PenaltyKill1 | FiveNumber::PenaltyKill2 => {
                let a4 = actions[4] + 3;
                actions.set(4, a4);
            },
            _ => {},
        }
        assert(actions@ =~= spec_situation_weights(w0, active_five.current_number));
        let ghost w1 = actions@;
        match active_five.tactic {
            Tactics::Safe => {
                let a4 = actions[4] + 2;
                actions.set(4, a4);
            },
            Tactics::Defensive => {
                let a4 = actions[4] + 1;
                actions.set(4, a4);
                let a0 = actions[0] + 1;
                actions.set(0, a0);
            },
            Tactics::Neutral => {},
            Tactics::Offensive => {
                let a1 = actions[1] + 1;
                actions.set(1, a1);
                let a2 = actions[2] + 1;
                actions.set(2, a2);
                let a3 = actions[3] + 1;
                actions.set(3, a3);
            },
            Tactics::Aggressive => {
                let a1 = actions[1] + 2;
                actions.set(1, a1);
                let a2 = actions[2] + 2;
                actions.set(2, a2);
                let a3 = actions[3] + 2;
                actions.set(3, a3);
            },
        }
        assert(actions@ =~= spec_tactic_weights(w1, active_five.tactic));
        actions
    }

    /// The action chosen for the draw `rnd` (1 to 100) with the weights `actions`.
    pub fn choose_action(&self, is_attack_zone: bool, actions: &Vec<i32>, rnd: usize) -> (r: ActionTypes)
        requires
            actions.len() == 5,
            forall|i: int| 0 <= i < 5 ==> 1 <= #[trigger] actions@[i] <= 9,
            rnd <= 100,
        ensures
            r == spec_chosen_action(is_attack_zone, actions@, rnd as int),
    {
        let mut percent: i64 = 0;
        let mut action_probability: Vec<i64> = Vec::new();
        let mut i: usize = 0;
        while i < 5
            invariant
                i <= 5,
                actions.len() == 5,
                forall|k: int| 0 <= k < 5 ==> 1 <= #[trigger] actions@[k] <= 9,
                percent == spec_cumulative(actions@, i as int),
                0 <= percent <= 9 * i,
                action_probability.len() == i,
                forall|k: int| 0 <= k < i ==> #[trigger] action_probability@[k] == spec_cumulative(actions@, k + 1),
                forall|k: int| 0 <= k < i ==> 0 <= #[trigger] action_probability@[k] <= percent,
            decreases 5 - i,
        {
            percent = percent + actions[i] as i64;
            action_probability.push(percent);
            i = i + 1;
        }
        let total: i64 = percent;
        let r: i64 = rnd as i64;
        assert(0 <= total <= 45 && 0 <= r <= 100);
        assert(0 <= r * total <= 4500) by (nonlinear_arith)
            requires 0 <= total <= 45 && 0 <= r <= 100;
        if !is_attack_zone && 100 * action_probability[0] >= r * total {
            ActionTypes::DumpIn
        } else if is_attack_zone && 100 * action_probability[2] >= r * total {
            ActionTypes::Shot
        } else if !is_attack_zone && 100 * action_probability[1] >= r * total {
            ActionTypes::Move
        } else {
            ActionTypes::Pass
        }
    }

    /// Draws a number in 1..101 from byte 0 of the seed and chooses the action of a player of
    /// `role` on `active_five`.
    pub fn get_action(&self, seed: &Vec<u8>, is_attack_zone: bool, role: PlayerRole, active_five: &ActiveFive) -> (r: ActionTypes)
        requires
            seed.len() > 0,
            !role.is_goalie_role(),
        ensures
            r == spec_chosen_action(
                is_attack_zone,
                spec_probability_of_actions(role, active_five.current_number, active_five.tactic),
                spec_random_in_range(seed@[0], 1, 101),
            ),
    {
        let actions = self.get_probability_of_actions(role, active_five);
        let rnd = get_random_in_range(seed, 1, 101, 0);
        self.choose_action(is_attack_zone, &actions, rnd)
    }
}

/// The strength a unit loses when it leaves the ice, by its ice time.
pub open spec fn spec_spent_strength(priority: IceTimePriority) -> u8 {
    match priority {
        IceTimePriority::SuperLowPriority => 1,
        IceTimePriority::LowPriority => 2,
        IceTimePriority::Normal => 3,
        IceTimePriority::HighPriority => 4,
        IceTimePriority::SuperHighPriority => 5,
    }
}

/// The strength a unit loses when it leaves the ice: 1 for the lowest ice time up to 5
/// for the highest.
pub fn get_amount_of_spent_strength(ice_time_priority: IceTimePriority) -> (r: u8)
    ensures
        r == spec_spent_strength(ice_time_priority),
        1 <= r <= 5,
{
    match ice_time_priority {
        IceTimePriority::SuperLowPriority => 1,
        IceTimePriority::LowPriority => 2,
        IceTimePriority::Normal => 3,
        IceTimePriority::HighPriority => 4,
        IceTimePriority::SuperHighPriority => 5,
    }
}

/// The tactic of a unit moves the weights of its players' actions away from those of the
/// same player on a neutral unit: a safe one adds 2 to the pass; a defensive one 1 to the
/// dump and 1 to the pass; an offensive one 1 to the shot, the move and the dangle; an
/// aggressive one 2 to each of these three. The other weights stay.
pub proof fn lemma_tactic_shifts_weights(role: PlayerRole, number: FiveNumber)
    requires
        !role.is_goalie_role(),
    ensures
        ({
            let n = spec_probability_of_actions(role, number, Tactics::Neutral);
            let safe = spec_probability_of_actions(role, number, Tactics::Safe);
            let def = spec_probability_of_actions(role, number, Tactics::Defensive);
            let off = spec_probability_of_actions(role, number, Tactics::Offensive);
            let agg = spec_probability_of_actions(role, number, Tactics::Aggressive);
            &&& n.len() == 5 && safe.len() == 5 && def.len() == 5 && off.len() == 5 && agg.len() == 5
            &&& safe[0] == n[0] && safe[1] == n[1] && safe[2] == n[2] && safe[3] == n[3] && safe[4] == n[4] + 2
            &&& def[0] == n[0] + 1 && def[1] == n[1] && def[2] == n[2] && def[3] == n[3] && def[4] == n[4] + 1
            &&& off[0] == n[0] && off[1] == n[1] + 1 && off[2] == n[2] + 1 && off[3] == n[3] + 1 && off[4] == n[4]
            &&& agg[0] == n[0] && agg[1] == n[1] + 2 && agg[2] == n[2] + 2 && agg[3] == n[3] + 2 && agg[4] == n[4]
        }),
{
}

/// The unit moves the weights away from those of the same player on the first line with
/// the same tactic: the four lines weigh alike; a power play adds 3 to the dump and 2 to
/// the shot; a penalty kill adds 3 to the pass.
pub proof fn lemma_unit_shifts_weights(role: PlayerRole, number: FiveNumber, tactic: Tactics)
    requires
        !role.is_goalie_role(),
    ensures
        ({
            let l = spec_probability_of_actions(role, FiveNumber::First, tactic);
            let w = spec_probability_of_actions(role, number, tactic);
            &&& l.len() == 5 && w.len() == 5
            &&& number.is_line() ==> w == l
            &&& number.is_power_play() ==>
                w[0] == l[0] + 3 && w[1] == l[1] + 2 && w[2] == l[2] && w[3] == l[3] && w[4] == l[4]
            &&& number.is_penalty_kill() ==>
                w[0] == l[0] && w[1] == l[1] && w[2] == l[2] && w[3] == l[3] && w[4] == l[4] + 3
        }),
{
    let r = spec_role_weights(role);
    assert(r.len() == 5);
    let s = spec_situation_weights(r, number);
    assert(spec_situation_weights(r, FiveNumber::First) == r);
    assert(s.len() == 5);
    if number.is_power_play() {
        assert(s[0] == r[0] + 3 && s[1] == r[1] + 2 && s[2] == r[2] && s[3] == r[3] && s[4] == r[4]);
    } else if number.is_penalty_kill() {
        assert(s[0] == r[0] && s[1] == r[1] && s[2] == r[2] && s[3] == r[3] && s[4] == r[4] + 3);
    } else {
        assert(s == r);
    }
    match tactic {
        Tactics::Safe => {},
        Tactics::Defensive => {},
        Tactics::Neutral => {},
        Tactics::Offensive => {},
        Tactics::Aggressive => {},
    }
}

/// On a neutral first line, every field player's weights lie between 1 and 4 and add up to
/// 11, but for the tough guy's, which add up to 10.
pub proof fn lemma_role_weights_total(role: PlayerRole)
    requires
        !role.is_goalie_role(),
    ensures
        ({
            let w = spec_probability_of_actions(role, FiveNumber::First, Tactics::Neutral);
            &&& w.len() == 5
            &&& forall|i: int| 0 <= i < 5 ==> 1 <= #[trigger] w[i] <= 4
            &&& w[0] + w[1] + w[2] + w[3] + w[4] == if role == PlayerRole::ToughGuy { 10int } else { 11int }
        }),
{
}

/// The more ice time a unit gets, the more strength it spends: 1 for the lowest ice time,
/// then one more for each step up, to 5 for the highest.
pub proof fn lemma_spent_strength_grows_with_ice_time()
    ensures
        spec_spent_strength(IceTimePriority::SuperLowPriority) == 1,
        spec_spent_strength(IceTimePriority::SuperLowPriority) < spec_spent_strength(IceTimePriority::LowPriority),
        spec_spent_strength(IceTimePriority::LowPriority) < spec_spent_strength(IceTimePriority::Normal),
        spec_spent_strength(IceTimePriority::Normal) < spec_spent_strength(IceTimePriority::HighPriority),
        spec_spent_strength(IceTimePriority::HighPriority) < spec_spent_strength(IceTimePriority::SuperHighPriority),
        spec_spent_strength(IceTimePriority::SuperHighPriority) == 5,
{
}

/// The weights of dump, shot, move, dangle and pass that each field role starts from, on a
/// neutral first line.
pub proof fn lemma_role_weights(role: PlayerRole)
    ensures
        ({
            let w = spec_probability_of_actions(role, FiveNumber::First, Tactics::Neutral);
            &&& role == PlayerRole::Playmaker ==> w == seq![1i32, 2, 3, 3, 2]
            &&& role == PlayerRole::Enforcer ==> w == seq![4i32, 2, 1, 1, 3]
            &&& role == PlayerRole::Shooter ==> w == seq![1i32, 4, 3, 2, 1]
            &&& role == PlayerRole::TryHarder ==> w == seq![2i32, 1, 4, 1, 3]
            &&& role == PlayerRole::DefensiveForward ==> w == seq![4i32, 2, 1, 1, 3]
            &&& role == PlayerRole::Grinder ==> w == seq![4i32, 1, 4, 1, 1]
            &&& role == PlayerRole::DefensiveDefenseman ==> w == seq![4i32, 2, 1, 1, 3]
            &&& role == PlayerRole::OffensiveDefenseman ==> w == seq![1i32, 4, 2, 3, 1]
            &&& role == PlayerRole::TwoWay ==> w == seq![1i32, 3, 3, 2, 2]
            &&& role == PlayerRole::ToughGuy ==> w == seq![3i32, 1, 4, 1, 1]
        }),
{
}

/// The order in which the actions take the draws: a dump in (or a shot in the attack
/// zone) the lowest, a move next, a pass the highest.
pub open spec fn spec_draw_order(a: ActionTypes) -> int {
    if a == ActionTypes::DumpIn || a == ActionTypes::Shot {
        0
    } else if a == ActionTypes::Move {
        1
    } else {
        2
    }
}

/// What a draw chooses with weights from 1 to 9 (as a player's are): outside the attack zone a dump in, a move or
/// a pass; in it a shot or a pass. A higher draw never chooses an earlier action, the
/// highest draw passes, and the lowest dumps in outside the attack zone and shoots in it.
pub proof fn lemma_chosen_action_by_draw(is_attack_zone: bool, w: Seq<i32>, rnd1: int, rnd2: int)
    requires
        w.len() == 5,
        forall|i: int| 0 <= i < 5 ==> 1 <= #[trigger] w[i] <= 9,
        1 <= rnd1 <= rnd2 <= 100,
    ensures
        is_attack_zone ==> spec_chosen_action(is_attack_zone, w, rnd1) == ActionTypes::Shot
            || spec_chosen_action(is_attack_zone, w, rnd1) == ActionTypes::Pass,
        !is_attack_zone ==> spec_chosen_action(is_attack_zone, w, rnd1) == ActionTypes::DumpIn
            || spec_chosen_action(is_attack_zone, w, rnd1) == ActionTypes::Move
            || spec_chosen_action(is_attack_zone, w, rnd1) == ActionTypes::Pass,
        spec_draw_order(spec_chosen_action(is_attack_zone, w, rnd1))
            <= spec_draw_order(spec_chosen_action(is_attack_zone, w, rnd2)),
        spec_chosen_action(is_attack_zone, w, 100) == ActionTypes::Pass,
        spec_chosen_action(is_attack_zone, w, 1) == if is_attack_zone { ActionTypes::Shot } else { ActionTypes::DumpIn },
{
    reveal_with_fuel(spec_cumulative, 6);
    let total = spec_cumulative(w, 5);
    let c1 = spec_cumulative(w, 1);
    let c2 = spec_cumulative(w, 2);
    let c3 = spec_cumulative(w, 3);
    assert(0 < c1 < c2 < c3 < total);
    assert(rnd1 * total <= rnd2 * total) by (nonlinear_arith)
        requires
            rnd1 <= rnd2,
            0 < total,
    ;
    assert(w[0] <= 9 && w[1] <= 9 && w[2] <= 9 && w[3] <= 9 && w[4] <= 9);
}

} // verus!

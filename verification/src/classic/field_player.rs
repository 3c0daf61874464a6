use vstd::prelude::*;
use rand::Rng;
use crate::classic::player::{Player, PlayerPosition, PlayerRole};

verus! {

/// The five ratings of a field player.
#[derive(Clone, Copy)]
pub struct FieldPlayerStats {
    pub skating: u128,
    pub shooting: u128,
    pub strength: u128,
    pub iq: u128,
    pub morale: u128,
}

impl FieldPlayerStats {
    pub fn new(skating: u128, shooting: u128, strength: u128, iq: u128, morale: u128) -> (s: FieldPlayerStats)
        ensures
            s.skating == skating,
            s.shooting == shooting,
            s.strength == strength,
            s.iq == iq,
            s.morale == morale,
    {
        FieldPlayerStats { skating, shooting, strength, iq, morale }
    }

    pub fn get_skating(&self) -> (r: u128)
        ensures r == self.skating,
    {
        self.skating
    }

    pub fn get_shooting(&self) -> (r: u128)
        ensures r == self.shooting,
    {
        self.shooting
    }

    pub fn get_strength(&self) -> (r: u128)
        ensures r == self.strength,
    {
        self.strength
    }

    pub fn get_iq(&self) -> (r: u128)
        ensures r == self.iq,
    {
        self.iq
    }

    pub fn get_morale(&self) -> (r: u128)
        ensures r == self.morale,
    {
        self.morale
    }
}

/// The four things a field player can do with the puck.
#[derive(PartialEq, Eq, Structural, Clone, Copy, Debug)]
pub enum ActionType {
    Pass,
    Shot,
    Move,
    Dangle,
}

/// An action together with its weight for a given player (1 to 4).
#[derive(PartialEq, Eq, Structural, Clone, Copy, Debug)]
pub struct Action {
    pub type_action: ActionType,
    pub probability: u8,
}

/// The weights of pass, shot, move and dangle, in that order.
pub open spec fn spec_to_action(pass: u8, shot: u8, mv: u8, dangle: u8) -> Seq<Action> {
    seq![
        Action { type_action: ActionType::Pass, probability: pass },
        Action { type_action: ActionType::Shot, probability: shot },
        Action { type_action: ActionType::Move, probability: mv },
        Action { type_action: ActionType::Dangle, probability: dangle },
    ]
}

/// Builds the four weighted actions.
pub fn to_action(pass_probability: u8, shot_probability: u8, move_probability: u8, dangle_probability: u8) -> (r: Vec<Action>)
    ensures
        r@ == spec_to_action(pass_probability, shot_probability, move_probability, dangle_probability),
{
    let result: Vec<Action> = vec![
        Action { type_action: ActionType::Pass, probability: pass_probability },
        Action { type_action: ActionType::Shot, probability: shot_probability },
        Action { type_action: ActionType::Move, probability: move_probability },
        Action { type_action: ActionType::Dangle, probability: dangle_probability },
    ];
    proof {
        assert(result@ =~= spec_to_action(pass_probability, shot_probability, move_probability, dangle_probability));
    }
    result
}

/// The weights (pass, shot, move, dangle) that a role gives its actions.
pub open spec fn spec_role_weights(role: PlayerRole) -> (u8, u8, u8, u8) {
    match role {
        PlayerRole::Passer | PlayerRole::Professor => (4, 1, 3, 2),
        PlayerRole::Shooter | PlayerRole::ToughGuy => (2, 4, 1, 3),
        PlayerRole::TryHarder | PlayerRole::Goon => (3, 2, 4, 1),
        _ => (1, 3, 2, 4),
    }
}

/// The action that a role weighs `weight` (each role gives the weights 1 to 4 once).
pub open spec fn spec_action_with_weight(role: PlayerRole, weight: u8) -> ActionType {
    let w = spec_role_weights(role);
    if w.0 == weight {
        ActionType::Pass
    } else if w.1 == weight {
        ActionType::Shot
    } else if w.2 == weight {
        ActionType::Move
    } else {
        ActionType::Dangle
    }
}

/// The action chosen by a draw `random_number` in 1..=10: the action of weight 4 for 7 to 10,
/// of weight 3 for 4 to 6, of weight 2 for 2 and 3, of weight 1 for 1; a shot outside the
/// attack zone is replaced by the action of weight 2.
pub open spec fn spec_chosen_action(role: PlayerRole, is_attack_zone: bool, random_number: u8) -> ActionType {
    let a0 = spec_action_with_weight(role, 4);
    let a1 = spec_action_with_weight(role, 3);
    let a2 = spec_action_with_weight(role, 2);
    let a3 = spec_action_with_weight(role, 1);
    if random_number >= 7 && (is_attack_zone || a0 != ActionType::Shot) {
        a0
    } else if random_number >= 4 && (is_attack_zone || a1 != ActionType::Shot) {
        a1
    } else if random_number >= 2 && (is_attack_zone || a2 != ActionType::Shot) {
        a2
    } else if random_number == 1 && (is_attack_zone || a3 != ActionType::Shot) {
        a3
    } else {
        a2
    }
}

/// Draws a number in `low..high` from the thread-local generator of `rand`.
#[verifier::external_body]
pub(crate) fn random_number_in(low: u8, high: u8) -> (r: u8)
    requires
        low < high,
    ensures
        low <= r < high,
{
    rand::thread_rng().gen_range(low, high)
}

/// A field player of one of the two users of a match.
#[derive(Clone, Copy)]
pub struct FieldPlayer {
    pub holds_puck: bool,
    pub position: PlayerPosition,
    pub role: PlayerRole,
    pub user_id: usize,
    pub stats: FieldPlayerStats,
}

impl FieldPlayer {
    pub fn new(holds_puck: bool, position: PlayerPosition, role: PlayerRole, user_id: usize, stats: FieldPlayerStats) -> (p: FieldPlayer)
        ensures
            p.holds_puck == holds_puck,
            p.position == position,
            p.role == role,
            p.user_id == user_id,
            p.stats == stats,
    {
        FieldPlayer { holds_puck, position, role, user_id, stats }
    }

    pub fn get_user_id(&self) -> (id: usize)
        ensures id == self.user_id,
    {
        self.user_id
    }

    pub fn get_position(&self) -> (p: PlayerPosition)
        ensures p == self.position,
    {
        self.position
    }

    pub fn get_holds_puck(&self) -> (b: bool)
        ensures b == self.holds_puck,
    {
        self.holds_puck
    }

    /// The weighted actions of this player's role; a goalie role has none.
    pub fn probability_of_actions(&self) -> (r: Vec<Action>)
        requires
            !self.role.is_goalie_role(),
        ensures
            ({
                let w = spec_role_weights(self.role);
                r@ == spec_to_action(w.0, w.1, w.2, w.3)
            }),
    {
        match self.role {
            PlayerRole::Passer => to_action(4, 1, 3, 2),
            PlayerRole::Professor => to_action(4, 1, 3, 2),
            PlayerRole::Shooter => to_action(2, 4, 1, 3),
            PlayerRole::ToughGuy => to_action(2, 4, 1, 3),
            PlayerRole::TryHarder => to_action(3, 2, 4, 1),
            PlayerRole::Goon => to_action(3, 2, 4, 1),
            _ => to_action(1, 3, 2, 4),
        }
    }

    /// The action of the given weight among `actions`, which hold each weight 1 to 4 once.
    fn action_of_weight(actions: &Vec<Action>, weight: u8) -> (r: ActionType)
        requires
            actions.len() == 4,
            exists|i: int| 0 <= i < 4 && #[trigger] actions@[i].probability == weight,
        ensures
            exists|i: int| 0 <= i < 4 && actions@[i].probability == weight && #[trigger] actions@[i].type_action == r,
            forall|i: int| 0 <= i < 4 && actions@[i].probability == weight
                && (forall|j: int| 0 <= j < i ==> actions@[j].probability != weight) ==> #[trigger] actions@[i].type_action == r,
    {
        let mut i: usize = 0;
        while i < 3
            invariant
                i <= 3,
                actions.len() == 4,
                exists|k: int| i <= k < 4 && #[trigger] actions@[k].probability == weight,
                forall|j: int| 0 <= j < i ==> #[trigger] actions@[j].probability != weight,
            decreases 3 - i,
        {
            if actions[i].probability == weight {
                return actions[i].type_action;
            }
            i = i + 1;
        }
        actions[3].type_action
    }

    proof fn lemma_weights_present(actions: &Vec<Action>, role: PlayerRole, w: u8)
        requires
            1 <= w <= 4,
            ({
                let ws = spec_role_weights(role);
                actions@ == spec_to_action(ws.0, ws.1, ws.2, ws.3)
            }),
        ensures
            exists|i: int| 0 <= i < 4 && #[trigger] actions@[i].probability == w,
    {
        if actions@[0].probability == w {
        } else if actions@[1].probability == w {
        } else if actions@[2].probability == w {
        } else {
            assert(actions@[3].probability == w);
        }
    }

    /// The action chosen for the draw `random_number` (in 1..=10), the actions ranked by
    /// descending weight.
    pub fn choose_action(&self, is_attack_zone: bool, random_number: u8) -> (r: ActionType)
        requires
            !self.role.is_goalie_role(),
        ensures
            r == spec_chosen_action(self.role, is_attack_zone, random_number),
    {
        let actions = self.probability_of_actions();
        assert(actions@[0].type_action == ActionType::Pass && actions@[1].type_action == ActionType::Shot
            && actions@[2].type_action == ActionType::Move && actions@[3].type_action == ActionType::Dangle);
        proof {
            Self::lemma_weights_present(&actions, self.role, 4);
            Self::lemma_weights_present(&actions, self.role, 3);
            Self::lemma_weights_present(&actions, self.role, 2);
            Self::lemma_weights_present(&actions, self.role, 1);
        }
        let a0 = Self::action_of_weight(&actions, 4);
        let a1 = Self::action_of_weight(&actions, 3);
        let a2 = Self::action_of_weight(&actions, 2);
        let a3 = Self::action_of_weight(&actions, 1);
        assert(a0 == spec_action_with_weight(self.role, 4));
        assert(a1 == spec_action_with_weight(self.role, 3));
        assert(a2 == spec_action_with_weight(self.role, 2));
        assert(a3 == spec_action_with_weight(self.role, 1));
        if random_number >= 7 && (is_attack_zone || a0 != ActionType::Shot) {
            a0
        } else if random_number >= 4 && (is_attack_zone || a1 != ActionType::Shot) {
            a1
        } else if random_number >= 2 && (is_attack_zone || a2 != ActionType::Shot) {
            a2
        } else if random_number == 1 && (is_attack_zone || a3 != ActionType::Shot) {
            a3
        } else {
            a2
        }
    }

    /// Draws a number in 1..=10 and chooses the action it selects.
    pub fn get_random_action(&self, is_attack_zone: bool) -> (r: ActionType)
        requires
            !self.role.is_goalie_role(),
        ensures
            exists|n: u8| 1 <= n <= 10 && r == spec_chosen_action(self.role, is_attack_zone, n),
    {
        let random_number = random_number_in(1, 11);
        self.choose_action(is_attack_zone, random_number)
    }
}

impl Player for FieldPlayer {
    fn get_user_id(&self) -> (id: usize)
        ensures id == self.user_id,
    {
        self.user_id
    }

    fn get_role(&self) -> (r: PlayerRole)
        ensures r == self.role,
    {
        self.role
    }
}

} // verus!

use vstd::prelude::*;
use crate::nft::rarity::{Rarity, calculate_rarity, spec_rarity};

verus! {

/// The twenty-six ratings of a field player, in six groups.
#[derive(Clone, Copy)]
pub struct FieldPlayerStats {
    // Skating
    pub acceleration: u8,
    pub agility: u8,
    pub balance: u8,
    pub endurance: u8,
    pub speed: u8,
    // Shooting
    pub slap_shot_accuracy: u8,
    pub slap_shot_power: u8,
    pub wrist_shot_accuracy: u8,
    pub wrist_shot_power: u8,
    // StickHandling
    pub deking: u8,
    pub hand_eye: u8,
    pub passing: u8,
    pub puck_control: u8,
    // Strength
    pub aggressiveness: u8,
    pub body_checking: u8,
    pub durability: u8,
    pub fighting_skill: u8,
    pub strength: u8,
    // IQ
    pub discipline: u8,
    pub offensive: u8,
    pub poise: u8,
    pub morale: u8,
    // Defense
    pub defensive_awareness: u8,
    pub face_offs: u8,
    pub shot_blocking: u8,
    pub stick_checking: u8,
}

impl FieldPlayerStats {
    pub open spec fn spec_skating(self) -> int {
        self.acceleration + self.agility + self.balance + self.endurance + self.speed
    }

    pub open spec fn spec_shooting(self) -> int {
        self.slap_shot_accuracy + self.slap_shot_power + self.wrist_shot_accuracy + self.wrist_shot_power
    }

    pub open spec fn spec_stick_handling(self) -> int {
        self.deking + self.hand_eye + self.passing + self.puck_control
    }

    pub open spec fn spec_strength(self) -> int {
        self.aggressiveness + self.body_checking + self.durability + self.fighting_skill + self.strength
    }

    pub open spec fn spec_iq(self) -> int {
        self.discipline + self.offensive + self.poise + self.morale
    }

    pub open spec fn spec_defense(self) -> int {
        self.defensive_awareness + self.face_offs + self.shot_blocking + self.stick_checking
    }

    pub open spec fn spec_stats_sum(self) -> int {
        self.spec_skating() + self.spec_shooting() + self.spec_stick_handling() + self.spec_strength()
            + self.spec_iq() + self.spec_defense()
    }

    /// The sum of the five skating ratings.
    pub fn get_skating(&self) -> (r: u16)
        ensures
            r == self.spec_skating(),
    {
        self.acceleration as u16 + self.agility as u16 + self.balance as u16 + self.endurance as u16
            + self.speed as u16
    }

    /// The sum of the four shooting ratings.
    pub fn get_shooting(&self) -> (r: u16)
        ensures
            r == self.spec_shooting(),
    {
        self.slap_shot_accuracy as u16 + self.slap_shot_power as u16 + self.wrist_shot_accuracy as u16
            + self.wrist_shot_power as u16
    }

    /// The sum of the four stick-handling ratings.
    pub fn get_stick_handling(&self) -> (r: u16)
        ensures
            r == self.spec_stick_handling(),
    {
        self.deking as u16 + self.hand_eye as u16 + self.passing as u16 + self.puck_control as u16
    }

    /// The sum of the five strength ratings.
    pub fn get_strength(&self) -> (r: u16)
        ensures
            r == self.spec_strength(),
    {
        self.aggressiveness as u16 + self.body_checking as u16 + self.durability as u16
            + self.fighting_skill as u16 + self.strength as u16
    }

    /// The sum of the four IQ ratings.
    pub fn get_iq(&self) -> (r: u16)
        ensures
            r == self.spec_iq(),
    {
        self.discipline as u16 + self.offensive as u16 + self.poise as u16 + self.morale as u16
    }

    /// The sum of the four defense ratings.
    pub fn get_defense(&self) -> (r: u16)
        ensures
            r == self.spec_defense(),
    {
        self.defensive_awareness as u16 + self.face_offs as u16 + self.shot_blocking as u16
            + self.stick_checking as u16
    }

    /// The sum of all twenty-six ratings.
    pub fn get_stats_sum(&self) -> (r: u16)
        ensures
            r == self.spec_stats_sum(),
    {
        self.get_skating() + self.get_shooting() + self.get_stick_handling() + self.get_strength()
            + self.get_iq() + self.get_defense()
    }

    /// The rarity of a card with these ratings: that of their average over the 26 ratings.
    pub fn get_rarity(&self) -> (r: Rarity)
        ensures
            r == spec_rarity(self.spec_stats_sum(), 26),
    {
        calculate_rarity(self.get_stats_sum(), 26)
    }

    /// Six times twenty times the average of the six group averages (five skating, four
    /// shooting, four stick-handling, five strength, four IQ and four defense ratings).
    pub open spec fn spec_group_weight(self) -> int {
        4 * (self.spec_skating() + self.spec_strength())
            + 5 * (self.spec_shooting() + self.spec_stick_handling() + self.spec_iq() + self.spec_defense())
    }

    /// The rarity of a card by the average of its six group averages.
    pub fn get_group_rarity(&self) -> (r: Rarity)
        ensures
            r == spec_rarity(self.spec_group_weight(), 120),
    {
        let w: u16 = 4 * (self.get_skating() + self.get_strength())
            + 5 * (self.get_shooting() + self.get_stick_handling() + self.get_iq() + self.get_defense());
        calculate_rarity(w, 120)
    }

    /// Adds `value` to each of the five strength ratings.
    pub fn increase_strength(&mut self, value: u8)
        requires
            old(self).aggressiveness + value <= 255,
            old(self).body_checking + value <= 255,
            old(self).durability + value <= 255,
            old(self).fighting_skill + value <= 255,
            old(self).strength + value <= 255,
        ensures
            *final(self) == (FieldPlayerStats {
                aggressiveness: (old(self).aggressiveness + value) as u8,
                body_checking: (old(self).body_checking + value) as u8,
                durability: (old(self).durability + value) as u8,
                fighting_skill: (old(self).fighting_skill + value) as u8,
                strength: (old(self).strength + value) as u8,
                ..*old(self)
            }),
    {
        self.aggressiveness = self.aggressiveness + value;
        self.body_checking = self.body_checking + value;
        self.durability = self.durability + value;
        self.fighting_skill = self.fighting_skill + value;
        self.strength = self.strength + value;
    }

    /// The ratings with `value` taken off each of the five strength ratings, stopping at zero.
    pub open spec fn spec_strength_decreased(self, value: int) -> FieldPlayerStats {
        FieldPlayerStats {
            aggressiveness: if self.aggressiveness >= value { (self.aggressiveness - value) as u8 } else { 0 },
            body_checking: if self.body_checking >= value { (self.body_checking - value) as u8 } else { 0 },
            durability: if self.durability >= value { (self.durability - value) as u8 } else { 0 },
            fighting_skill: if self.fighting_skill >= value { (self.fighting_skill - value) as u8 } else { 0 },
            strength: if self.strength >= value { (self.strength - value) as u8 } else { 0 },
            ..self
        }
    }

    /// Takes `value` off each of the five strength ratings, stopping at zero.
    pub fn decrease_strength(&mut self, value: u8)
        ensures
            *final(self) == old(self).spec_strength_decreased(value as int),
            *final(self) == (FieldPlayerStats {
                aggressiveness: if old(self).aggressiveness >= value { (old(self).aggressiveness - value) as u8 } else { 0 },
                body_checking: if old(self).body_checking >= value { (old(self).body_checking - value) as u8 } else { 0 },
                durability: if old(self).durability >= value { (old(self).durability - value) as u8 } else { 0 },
                fighting_skill: if old(self).fighting_skill >= value { (old(self).fighting_skill - value) as u8 } else { 0 },
                strength: if old(self).strength >= value { (old(self).strength - value) as u8 } else { 0 },
                ..*old(self)
            }),
    {
        self.aggressiveness = if self.aggressiveness >= value { self.aggressiveness - value } else { 0 };
        self.body_checking = if self.body_checking >= value { self.body_checking - value } else { 0 };
        self.durability = if self.durability >= value { self.durability - value } else { 0 };
        self.fighting_skill = if self.fighting_skill >= value { self.fighting_skill - value } else { 0 };
        self.strength = if self.strength >= value { self.strength - value } else { 0 };
    }

    /// Adds `value` to each of the four IQ ratings.
    pub fn increase_iq(&mut self, value: u8)
        requires
            old(self).discipline + value <= 255,
            old(self).offensive + value <= 255,
            old(self).poise + value <= 255,
            old(self).morale + value <= 255,
        ensures
            *final(self) == (FieldPlayerStats {
                discipline: (old(self).discipline + value) as u8,
                offensive: (old(self).offensive + value) as u8,
                poise: (old(self).poise + value) as u8,
                morale: (old(self).morale + value) as u8,
                ..*old(self)
            }),
    {
        self.discipline = self.discipline + value;
        self.offensive = self.offensive + value;
        self.poise = self.poise + value;
        self.morale = self.morale + value;
    }
}

/// The twenty ratings of a goalie, in three groups.
#[derive(Clone, Copy)]
pub struct GoalieStats {
    // Reflexes
    pub angles: u8,
    pub breakaway: u8,
    pub five_hole: u8,
    pub glove_side_high: u8,
    pub glove_side_low: u8,
    pub stick_side_high: u8,
    pub stick_side_low: u8,
    // Puck control
    pub passing: u8,
    pub poise: u8,
    pub poke_check: u8,
    pub puck_playing: u8,
    pub rebound_control: u8,
    pub recover: u8,
    // strength
    pub aggressiveness: u8,
    pub agility: u8,
    pub durability: u8,
    pub endurance: u8,
    pub speed: u8,
    pub vision: u8,
    pub morale: u8,
}

impl GoalieStats {
    pub open spec fn spec_reflexes(self) -> int {
        self.angles + self.breakaway + self.five_hole + self.glove_side_high + self.glove_side_low
            + self.stick_side_high + self.stick_side_low
    }

    pub open spec fn spec_puck_control(self) -> int {
        self.passing + self.poise + self.poke_check + self.puck_playing + self.rebound_control + self.recover
    }

    pub open spec fn spec_strength(self) -> int {
        self.aggressiveness + self.agility + self.durability + self.endurance + self.speed + self.vision
            + self.morale
    }

    pub open spec fn spec_stats_sum(self) -> int {
        self.spec_reflexes() + self.spec_puck_control() + self.spec_strength()
    }

    /// The sum of the seven reflex ratings.
    pub fn get_reflexes(&self) -> (r: u16)
        ensures
            r == self.spec_reflexes(),
    {
        self.angles as u16 + self.breakaway as u16 + self.five_hole as u16 + self.glove_side_high as u16
            + self.glove_side_low as u16 + self.stick_side_high as u16 + self.stick_side_low as u16
    }

    /// The sum of the six puck-control ratings.
    pub fn get_puck_control(&self) -> (r: u16)
        ensures
            r == self.spec_puck_control(),
    {
        self.passing as u16 + self.poise as u16 + self.poke_check as u16 + self.puck_playing as u16
            + self.rebound_control as u16 + self.recover as u16
    }

    /// The sum of the seven strength ratings.
    pub fn get_strength(&self) -> (r: u16)
        ensures
            r == self.spec_strength(),
    {
        self.aggressiveness as u16 + self.agility as u16 + self.durability as u16 + self.endurance as u16
            + self.speed as u16 + self.vision as u16 + self.morale as u16
    }

    /// The sum of all twenty ratings.
    pub fn get_stats_sum(&self) -> (r: u16)
        ensures
            r == self.spec_stats_sum(),
    {
        self.get_reflexes() + self.get_puck_control() + self.get_strength()
    }

    /// The rarity of a card with these ratings: that of their average over the 20 ratings.
    pub fn get_rarity(&self) -> (r: Rarity)
        ensures
            r == spec_rarity(self.spec_stats_sum(), 20),
    {
        calculate_rarity(self.get_stats_sum(), 20)
    }

    /// Forty-two times the sum of the average of the reflexes, the average of puck control
    /// and a third of the average of strength.
    pub open spec fn spec_group_weight(self) -> int {
        6 * self.spec_reflexes() + 7 * self.spec_puck_control() + 2 * self.spec_strength()
    }

    /// The rarity of a card by the average of its reflexes, plus that of its puck control,
    /// plus a third of that of its strength.
    pub fn get_group_rarity(&self) -> (r: Rarity)
        ensures
            r == spec_rarity(self.spec_group_weight(), 42),
    {
        let w: u16 = 6 * self.get_reflexes() + 7 * self.get_puck_control() + 2 * self.get_strength();
        calculate_rarity(w, 42)
    }

    /// Adds `value` to each of the seven strength ratings.
    pub fn increase_strength(&mut self, value: u8)
        requires
            old(self).aggressiveness + value <= 255,
            old(self).agility + value <= 255,
            old(self).durability + value <= 255,
            old(self).endurance + value <= 255,
            old(self).speed + value <= 255,
            old(self).vision + value <= 255,
            old(self).morale + value <= 255,
        ensures
            *final(self) == (GoalieStats {
                aggressiveness: (old(self).aggressiveness + value) as u8,
                agility: (old(self).agility + value) as u8,
                durability: (old(self).durability + value) as u8,
                endurance: (old(self).endurance + value) as u8,
                speed: (old(self).speed + value) as u8,
                vision: (old(self).vision + value) as u8,
                morale: (old(self).morale + value) as u8,
                ..*old(self)
            }),
    {
        self.aggressiveness = self.aggressiveness + value;
        self.agility = self.agility + value;
        self.durability = self.durability + value;
        self.endurance = self.endurance + value;
        self.speed = self.speed + value;
        self.vision = self.vision + value;
        self.morale = self.morale + value;
    }
}

} // verus!

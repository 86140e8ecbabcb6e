//! The parts of a character that the netrunning rules read and change.

use vstd::prelude::*;
use crate::effects::EffectStack;
use crate::error::RulesError;
use crate::types::{CharacterId, EntityId};

verus! {

/// The ten Roles.
#[derive(Clone, Copy, Debug, PartialEq, Eq, Hash, Structural)]
pub enum Role {
    Rockerboy,
    Solo,
    Netrunner,
    Tech,
    Medtech,
    Media,
    Exec,
    Lawman,
    Fixer,
    Nomad,
}

/// The ten STATs.
#[derive(Clone, Copy, Debug, PartialEq, Eq, Hash, Structural)]
pub struct StatBlock {
    pub int: u8,
    pub refl: u8,
    pub dex: u8,
    pub tech: u8,
    pub cool: u8,
    pub will: u8,
    pub luck: u8,
    pub mov: u8,
    pub body: u8,
    pub emp: u8,
}

/// Hit points.
#[derive(Clone, Copy, Debug, PartialEq, Eq, Hash, Structural)]
pub struct Wounds {
    pub current_hp: i16,
    pub max_hp: i16,
}

/// A character.
#[derive(Clone, Debug, PartialEq, Eq)]
pub struct Character {
    pub id: CharacterId,
    pub name: String,
    pub role: Role,
    /// Rank of the Role Ability; for a Netrunner this is Interface.
    pub role_rank: u8,
    pub stats: StatBlock,
    pub wounds: Wounds,
    pub humanity: i16,
    /// LUCK points left to spend this session.
    pub luck_pool: u8,
    pub effects: EffectStack,
}

/// `hp` lowered by `damage`, saturating at `i16::MIN`.
pub open spec fn hp_after_damage(hp: i16, damage: i16) -> i16 {
    if hp - damage < i16::MIN { i16::MIN } else { (hp - damage) as i16 }
}

impl Character {
    /// The character's id as an entity id.
    pub open spec fn spec_entity_id(&self) -> EntityId {
        EntityId(self.id.0)
    }

    /// The character's id as an entity id.
    pub fn entity_id(&self) -> (r: EntityId)
        ensures
            r == self.spec_entity_id(),
    {
        EntityId(self.id.0)
    }

    /// INT as it stands now.
    pub open spec fn spec_current_int(&self) -> i16 {
        self.stats.int as i16
    }

    /// INT as it stands now.
    pub fn current_int(&self) -> (r: i16)
        ensures
            r == self.spec_current_int(),
    {
        self.stats.int as i16
    }

    /// This character after spending `amount` LUCK.
    pub open spec fn after_luck(self, amount: u8) -> Character {
        Character { luck_pool: (self.luck_pool - amount) as u8, ..self }
    }

    /// This character after `damage` points of brain damage.
    pub open spec fn after_damage(self, damage: i16) -> Character {
        Character {
            wounds: Wounds { current_hp: hp_after_damage(self.wounds.current_hp, damage), ..self.wounds },
            ..self
        }
    }

    /// Spend `amount` points of LUCK from the pool, or refuse when the pool
    /// holds less.
    pub fn spend_luck(&mut self, amount: u8) -> (r: Result<(), RulesError>)
        ensures
            amount <= old(self).luck_pool ==> r is Ok && *final(self) == old(self).after_luck(amount),
            amount > old(self).luck_pool ==> r == Err::<(), RulesError>(
                RulesError::InsufficientLuck { requested: amount, available: old(self).luck_pool },
            ) && *final(self) == *old(self),
    {
        if amount > self.luck_pool {
            return Err(RulesError::InsufficientLuck { requested: amount, available: self.luck_pool });
        }
        self.luck_pool = self.luck_pool - amount;
        Ok(())
    }

    /// Take `damage` points of brain damage (saturating at `i16::MIN`).
    pub fn take_damage(&mut self, damage: i16)
        requires
            damage >= 0,
        ensures
            *final(self) == old(self).after_damage(damage),
    {
        let hp = self.wounds.current_hp as i32 - damage as i32;
        if hp < i16::MIN as i32 {
            self.wounds.current_hp = i16::MIN;
        } else {
            self.wounds.current_hp = hp as i16;
        }
    }
}

/// A freshly made player character: a Solo with every STAT at 6.
pub fn fresh_pc() -> (c: Character)
    ensures
        c.id == CharacterId(1),
        c.role == Role::Solo,
        c.role_rank == 4,
        c.stats.int == 6,
        c.stats.luck == 6,
        c.luck_pool == 6,
        c.wounds.current_hp == 40,
        c.effects.effects@.len() == 0,
{
    Character {
        id: CharacterId(1),
        name: String::new(),
        role: Role::Solo,
        role_rank: 4,
        stats: StatBlock {
            int: 6,
            refl: 6,
            dex: 6,
            tech: 6,
            cool: 6,
            will: 6,
            luck: 6,
            mov: 6,
            body: 6,
            emp: 6,
        },
        wounds: Wounds { current_hp: 40, max_hp: 40 },
        humanity: 60,
        luck_pool: 6,
        effects: EffectStack::new(),
    }
}

} // verus!

//! Interface Abilities: the Netrunner's toolkit.
//!
//! Every ability (save Zap) rolls `INT + Interface rank + 1d10` against a
//! DV, where Interface is the Netrunner Role Ability rank. All of them
//! except Scanner (a Meat Action) cost NET Actions.

use vstd::prelude::*;
use crate::dice::CritD10;
use crate::error::RulesError;
use crate::resolution::CheckBreakdown;
use crate::types::{EntityId, DV};
use crate::world::{character_replaced, World};

pub mod backdoor;
pub mod cloak;
pub mod control;
pub mod eye_dee;
pub mod pathfinder;
pub mod scanner;
pub mod slide;
pub mod zap;

verus! {

/// Why spending `luck` LUCK of character `id` is refused, if it is.
pub open spec fn luck_refusal(w: World, id: EntityId, luck: u8) -> Option<RulesError> {
    match w.spec_entity(id) {
        None => Some(RulesError::EntityNotFound(id)),
        Some(c) => if luck > c.luck_pool {
            Some(RulesError::InsufficientLuck { requested: luck, available: c.luck_pool })
        } else {
            None
        },
    }
}

/// `new` holds the characters of `old`, with `luck` LUCK spent by the
/// character `id`, and the same combat.
pub open spec fn luck_spent(old: World, new: World, id: EntityId, luck: u8) -> bool {
    &&& old.spec_entity(id) is Some
    &&& character_replaced(old, new, id, old.spec_entity(id).unwrap().after_luck(luck))
    &&& new.combat == old.combat
}

/// The Interface check of character `id` in `w`: INT + Interface rank +
/// `luck` + the d10, against `dv`.
pub open spec fn interface_check(w: World, id: EntityId, luck: u8, d10: CritD10, dv: DV) -> CheckBreakdown {
    let c = w.spec_entity(id).unwrap();
    CheckBreakdown::spec_new(c.spec_current_int(), c.role_rank as i16, 0, luck, d10, dv)
}

} // verus!
